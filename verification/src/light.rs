//! Light sources, and the one light that the shading passes read.

use crate::gpu::{BufferUsages, Device, DeviceCall, DeviceCallView, uniform_group_calls, ONE_SINGLE};
use vstd::prelude::*;

verus! {

/// The 32-bit pattern of the real number two in single precision.
pub const TWO_SINGLE: u32 = 0x4000_0000;

/// A point light.
#[derive(Debug)]
pub struct Lamp {}

/// A directional light.
#[derive(Debug)]
pub struct Sun {}

/// A light component.
#[derive(Debug)]
pub enum Light {
    Lamp(Lamp),
    Sun(Sun),
}

/// What the light buffer holds: a position and a colour, three
/// single-precision numbers each, with one word of padding between them.
#[derive(Clone, Copy, Debug, PartialEq, Eq)]
pub struct LightUniform {
    pub location: [u32; 3],
    pub _padding: u32,
    pub color: [u32; 3],
}

impl LightUniform {
    /// The words of the buffer, in order.
    pub open spec fn words(self) -> Seq<u32> {
        seq![
            self.location@[0],
            self.location@[1],
            self.location@[2],
            self._padding,
            self.color@[0],
            self.color@[1],
            self.color@[2],
        ]
    }

    /// The words of the buffer, in order.
    pub fn to_words(&self) -> (words: Vec<u32>)
        ensures
            words@ == self.words(),
    {
        let mut words = Vec::new();
        words.push(self.location[0]);
        words.push(self.location[1]);
        words.push(self.location[2]);
        words.push(self._padding);
        words.push(self.color[0]);
        words.push(self.color[1]);
        words.push(self.color[2]);
        assert(words@ =~= self.words());
        words
    }
}

/// The scene's light: its value, its buffer, and the bind group through which
/// shaders read it.
#[derive(Debug)]
pub struct SceneLighting {
    pub light_uniform: LightUniform,
    pub light_buffer: usize,
    pub light_bind_group_layout: usize,
    pub light_bind_group: usize,
}

impl SceneLighting {
    /// The light's first value: white, at (2, 2, 2).
    pub open spec fn initial_words() -> Seq<u32> {
        seq![TWO_SINGLE, TWO_SINGLE, TWO_SINGLE, 0, ONE_SINGLE, ONE_SINGLE, ONE_SINGLE]
    }

    /// Sets up the light: a writable uniform buffer with the first value, a
    /// layout with one uniform slot, and the bind group for it. The three
    /// handles are consecutive, the buffer's first.
    pub fn new(device: &mut Device) -> (lighting: SceneLighting)
        ensures
            lighting.light_uniform.words() == Self::initial_words(),
            lighting.light_buffer == old(device)@.len(),
            lighting.light_bind_group_layout == old(device)@.len() + 1,
            lighting.light_bind_group == old(device)@.len() + 2,
            final(device)@ == old(device)@.push(
                DeviceCallView::CreateBufferInit { usage: BufferUsages::spec_uniform(), contents: Self::initial_words() },
            ) + uniform_group_calls(lighting.light_buffer, lighting.light_bind_group_layout),
    {
        let light_uniform = LightUniform {
            location: [TWO_SINGLE, TWO_SINGLE, TWO_SINGLE],
            _padding: 0,
            color: [ONE_SINGLE, ONE_SINGLE, ONE_SINGLE],
        };
        let contents = light_uniform.to_words();
        assert(contents@ =~= Self::initial_words());
        let light_buffer = device.record(DeviceCall::CreateBufferInit { usage: BufferUsages::uniform(), contents });
        let (light_bind_group_layout, light_bind_group) = device.create_uniform_group(light_buffer);
        SceneLighting { light_uniform, light_buffer, light_bind_group_layout, light_bind_group }
    }
}

} // verus!
