//! Four numbers that shaders can read and the keyboard can tune while the
//! engine runs: keys 1 to 4 pick a number, the arrow keys move it.

use crate::gpu::{BufferDescriptor, BufferUsages, Device, DeviceCall, DeviceCallView, uniform_group_calls};
use vstd::prelude::*;

verus! {

/// The size of the debug buffer in bytes: four single-precision numbers.
pub const DEBUG_UNIFORM_SIZE: u64 = 16;

/// The keys that the debug buffer listens to.
#[derive(Clone, Copy, Debug, PartialEq, Eq, Structural)]
pub enum VirtualKeyCode {
    Key1,
    Key2,
    Key3,
    Key4,
    Up,
    Down,
    Escape,
    Other,
}

/// Whether a key went down or came up.
#[derive(Clone, Copy, Debug, PartialEq, Eq, Structural)]
pub enum ElementState {
    Pressed,
    Released,
}

/// The debug numbers' buffer and tuning state. `modifying_index` is the
/// number being tuned, or -1; `modifying_value` is the direction in which it
/// moves: 1, -1 or 0.
#[derive(Debug)]
pub struct DebugBuffer {
    pub debug_buffer: usize,
    pub debug_bind_group_layout: usize,
    pub debug_bind_group: usize,
    pub modifying_index: i32,
    pub modifying_value: i32,
}

/// The direction that an arrow key stands for.
pub open spec fn key_direction(key: VirtualKeyCode) -> Option<int> {
    match key {
        VirtualKeyCode::Up => Some(1int),
        VirtualKeyCode::Down => Some(-1int),
        _ => None,
    }
}

/// The number that a digit key stands for.
pub open spec fn key_index(key: VirtualKeyCode) -> Option<int> {
    match key {
        VirtualKeyCode::Key1 => Some(0int),
        VirtualKeyCode::Key2 => Some(1int),
        VirtualKeyCode::Key3 => Some(2int),
        VirtualKeyCode::Key4 => Some(3int),
        _ => None,
    }
}

/// The direction of tuning after a key event. An arrow key sets it while it
/// is held and clears it on release; other keys leave it alone.
pub open spec fn value_after(value: int, key: VirtualKeyCode, state: ElementState) -> int {
    match key_direction(key) {
        Some(direction) => match state {
            ElementState::Pressed => direction,
            ElementState::Released => 0,
        },
        None => value,
    }
}

/// The number being tuned after a key event. An arrow key, which is handled
/// first, leaves it alone. A digit key picks its number when pressed; on
/// release it unpicks it, if it is the one that is picked.
pub open spec fn index_after(index: int, key: VirtualKeyCode, state: ElementState) -> int {
    if key_direction(key) is Some {
        index
    } else {
        match key_index(key) {
            Some(picked) => match state {
                ElementState::Pressed => picked,
                ElementState::Released => if picked == index {
                    -1
                } else {
                    index
                },
            },
            None => index,
        }
    }
}

impl DebugBuffer {
    /// Sets up the debug numbers: a writable uniform buffer, a layout with
    /// one uniform slot, and the bind group for it, with consecutive handles.
    /// Nothing is being tuned at first.
    pub fn new(device: &mut Device) -> (buffer: DebugBuffer)
        ensures
            buffer.debug_buffer == old(device)@.len(),
            buffer.debug_bind_group_layout == old(device)@.len() + 1,
            buffer.debug_bind_group == old(device)@.len() + 2,
            buffer.modifying_index == -1,
            buffer.modifying_value == 0,
            final(device)@ == old(device)@.push(
                DeviceCallView::CreateBuffer(
                    BufferDescriptor { size: DEBUG_UNIFORM_SIZE, usage: BufferUsages::spec_uniform() },
                ),
            ) + uniform_group_calls(buffer.debug_buffer, buffer.debug_bind_group_layout),
    {
        let debug_buffer = device.record(
            DeviceCall::CreateBuffer(BufferDescriptor { size: DEBUG_UNIFORM_SIZE, usage: BufferUsages::uniform() }),
        );
        let (debug_bind_group_layout, debug_bind_group) = device.create_uniform_group(debug_buffer);
        DebugBuffer { debug_buffer, debug_bind_group_layout, debug_bind_group, modifying_index: -1, modifying_value: 0 }
    }

    /// What a frame's update changes: the number to move and the direction,
    /// or nothing while no number is picked. The host scales the direction by
    /// the frame time, adds it to the number and writes the buffer.
    pub fn update(&self) -> (change: Option<(usize, i32)>)
        ensures
            change == if self.modifying_index < 0 {
                None
            } else {
                Some((self.modifying_index as usize, self.modifying_value))
            },
    {
        if self.modifying_index < 0 {
            return None;
        }
        Some((self.modifying_index as usize, self.modifying_value))
    }

    /// Feeds a key event to the buffer. Says whether the key was one of its
    /// own: an arrow or a digit from 1 to 4.
    pub fn process_keyboard(&mut self, key: VirtualKeyCode, state: ElementState) -> (handled: bool)
        ensures
            handled == (key_direction(key) is Some || key_index(key) is Some),
            final(self).modifying_value == value_after(old(self).modifying_value as int, key, state),
            final(self).modifying_index == index_after(old(self).modifying_index as int, key, state),
            -1 <= old(self).modifying_index <= 3 ==> -1 <= final(self).modifying_index <= 3,
            final(self).debug_buffer == old(self).debug_buffer,
            final(self).debug_bind_group_layout == old(self).debug_bind_group_layout,
            final(self).debug_bind_group == old(self).debug_bind_group,
    {
        self.update_modifying_value(key, state) || self.update_modifying_index(key, state)
    }

    /// Takes an arrow key: sets the direction while the key is held.
    fn update_modifying_value(&mut self, key: VirtualKeyCode, state: ElementState) -> (handled: bool)
        ensures
            handled == (key_direction(key) is Some),
            final(self).modifying_value == value_after(old(self).modifying_value as int, key, state),
            final(self).modifying_index == old(self).modifying_index,
            final(self).debug_buffer == old(self).debug_buffer,
            final(self).debug_bind_group_layout == old(self).debug_bind_group_layout,
            final(self).debug_bind_group == old(self).debug_bind_group,
    {
        let value: i32 = match key {
            VirtualKeyCode::Up => 1,
            VirtualKeyCode::Down => -1,
            _ => return false,
        };
        self.modifying_value = match state {
            ElementState::Pressed => value,
            ElementState::Released => 0,
        };
        true
    }

    /// Takes a digit key: picks its number, or unpicks it on release.
    fn update_modifying_index(&mut self, key: VirtualKeyCode, state: ElementState) -> (handled: bool)
        ensures
            handled == (key_index(key) is Some),
            final(self).modifying_index == index_after(old(self).modifying_index as int, key, state),
            -1 <= old(self).modifying_index <= 3 ==> -1 <= final(self).modifying_index <= 3,
            final(self).modifying_value == old(self).modifying_value,
            final(self).debug_buffer == old(self).debug_buffer,
            final(self).debug_bind_group_layout == old(self).debug_bind_group_layout,
            final(self).debug_bind_group == old(self).debug_bind_group,
    {
        let index: i32 = match key {
            VirtualKeyCode::Key1 => 0,
            VirtualKeyCode::Key2 => 1,
            VirtualKeyCode::Key3 => 2,
            VirtualKeyCode::Key4 => 3,
            _ => return false,
        };
        self.modifying_index = match state {
            ElementState::Pressed => index,
            ElementState::Released => {
                if index == self.modifying_index {
                    -1
                } else {
                    self.modifying_index
                }
            },
        };
        true
    }
}

} // verus!
