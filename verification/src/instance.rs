//! The instances of a model: one placement of the mesh each.
//!
//! Placements are stored as the 32-bit patterns of single-precision numbers.
//! Turning them into matrices is the host's work; the engine decides when the
//! instance buffer is rebuilt and how the pipeline reads it.

use crate::gpu::{
    Device, DeviceCall, DeviceCallView, FrameWrite, FrameWriteView, VertexAttribute, VertexBufferLayout, VertexBufferLayoutView, VertexFormat,
    VertexStepMode, ONE_SINGLE,
};
use vstd::prelude::*;

verus! {

/// One placement of a mesh. `rotation` is a quaternion, scalar part first.
#[derive(Clone, Copy, Debug, PartialEq, Eq)]
pub struct Instance {
    pub location: (u32, u32, u32),
    pub rotation: (u32, u32, u32, u32),
    pub scale: (u32, u32, u32),
}

impl Instance {
    /// The placement at the origin: not moved, not rotated, at full size.
    pub open spec fn spec_new() -> Instance {
        Instance { location: (0, 0, 0), rotation: (ONE_SINGLE, 0, 0, 0), scale: (ONE_SINGLE, ONE_SINGLE, ONE_SINGLE) }
    }

    /// The placement at the origin: not moved, not rotated, at full size.
    #[verifier::when_used_as_spec(spec_new)]
    pub fn new() -> (instance: Instance)
        ensures
            instance == Instance::spec_new(),
    {
        Instance { location: (0, 0, 0), rotation: (ONE_SINGLE, 0, 0, 0), scale: (ONE_SINGLE, ONE_SINGLE, ONE_SINGLE) }
    }
}

impl Default for Instance {
    fn default() -> (instance: Instance)
        ensures
            instance == Instance::spec_new(),
    {
        Instance::new()
    }
}

/// The instance list of a model and the handle of the buffer last built from it.
#[derive(Debug)]
pub struct Instances {
    pub instance_list: Vec<Instance>,
    pub instances_buffer: Option<usize>,
}

impl Instances {
    /// A single instance at the origin, and no buffer yet.
    pub fn new() -> (instances: Instances)
        ensures
            instances.instance_list@ == seq![Instance::spec_new()],
            instances.instances_buffer is None,
    {
        let mut instance_list = Vec::new();
        instance_list.push(Instance::new());
        let instances = Instances { instance_list, instances_buffer: None };
        assert(instances.instance_list@ =~= seq![Instance::spec_new()]);
        instances
    }

    /// Replaces the whole list by one instance and rebuilds the buffer.
    pub fn transform_single_instance(
        &mut self,
        location: (u32, u32, u32),
        rotation: (u32, u32, u32, u32),
        scale: (u32, u32, u32),
        device: &mut Device,
    )
        ensures
            final(self).instance_list@ == seq![(Instance { location, rotation, scale })],
            final(self).instances_buffer == Some(old(device)@.len() as usize),
            final(device)@ == old(device)@.push(
                DeviceCallView::CreateInstanceBuffer { instances: final(self).instance_list@ },
            ),
    {
        let mut instance_list = Vec::new();
        instance_list.push(Instance { location, rotation, scale });
        assert(instance_list@ =~= seq![(Instance { location, rotation, scale })]);
        self.instance_list = instance_list;
        self.update_buffer(device);
    }

    /// Replaces the whole list by one instance and has the buffer follow.
    /// Where these instances have a buffer, it is built anew behind its
    /// handle, by the write that is returned, and the record stays as it
    /// is. Where they have none yet, the device is asked for a fresh one.
    pub fn place_single_instance(
        &mut self,
        location: (u32, u32, u32),
        rotation: (u32, u32, u32, u32),
        scale: (u32, u32, u32),
        device: &mut Device,
    ) -> (write: Option<FrameWrite>)
        ensures
            final(self).instance_list@ == seq![(Instance { location, rotation, scale })],
            match old(self).instances_buffer {
                Some(buffer) => {
                    &&& final(self).instances_buffer == Some(buffer)
                    &&& final(device)@ == old(device)@
                    &&& write matches Some(rebuild)
                    &&& rebuild@ == (FrameWriteView::RebuildInstanceBuffer {
                        buffer,
                        instances: seq![(Instance { location, rotation, scale })],
                    })
                },
                None => {
                    &&& final(self).instances_buffer == Some(old(device)@.len() as usize)
                    &&& final(device)@ == old(device)@.push(
                        DeviceCallView::CreateInstanceBuffer {
                            instances: seq![(Instance { location, rotation, scale })],
                        },
                    )
                    &&& write is None
                },
            },
    {
        match self.instances_buffer {
            Some(buffer) => {
                let mut instance_list = Vec::new();
                instance_list.push(Instance { location, rotation, scale });
                assert(instance_list@ =~= seq![(Instance { location, rotation, scale })]);
                let instances = instance_list.clone();
                assert(instances@ =~= instance_list@);
                self.instance_list = instance_list;
                Some(FrameWrite::RebuildInstanceBuffer { buffer, instances })
            },
            None => {
                self.transform_single_instance(location, rotation, scale, device);
                None
            },
        }
    }

    /// Asks the device for a fresh vertex buffer that holds the current list,
    /// one matrix per instance, and makes it the buffer of these instances.
    /// The list itself is not touched.
    pub fn update_buffer(&mut self, device: &mut Device)
        ensures
            final(self).instance_list == old(self).instance_list,
            final(self).instances_buffer == Some(old(device)@.len() as usize),
            final(device)@ == old(device)@.push(
                DeviceCallView::CreateInstanceBuffer { instances: old(self).instance_list@ },
            ),
    {
        let handle = device.record(DeviceCall::CreateInstanceBuffer { instances: self.instance_list.clone() });
        self.instances_buffer = Some(handle);
    }
}

impl Default for Instances {
    fn default() -> (instances: Instances)
        ensures
            instances.instance_list@ == seq![Instance::spec_new()],
            instances.instances_buffer is None,
    {
        Instances::new()
    }
}

/// What the instance buffer holds per instance: a four-by-four matrix of
/// single-precision numbers, column by column.
#[derive(Clone, Copy, Debug)]
pub struct InstanceRaw {
    pub model: [[u32; 4]; 4],
}

impl InstanceRaw {
    /// The layout of the instance buffer as the pipeline reads it.
    pub open spec fn spec_layout() -> VertexBufferLayoutView {
        VertexBufferLayoutView {
            array_stride: 64,
            step_mode: VertexStepMode::Instance,
            attributes: seq![
                VertexAttribute { offset: 0, shader_location: 4, format: VertexFormat::Float32x4 },
                VertexAttribute { offset: 16, shader_location: 5, format: VertexFormat::Float32x4 },
                VertexAttribute { offset: 32, shader_location: 6, format: VertexFormat::Float32x4 },
                VertexAttribute { offset: 48, shader_location: 7, format: VertexFormat::Float32x4 },
            ],
        }
    }

    /// One matrix per instance, read as four vectors of four at shader
    /// locations 4 to 7, sixteen bytes apart.
    pub fn layout() -> (layout: VertexBufferLayout)
        ensures
            layout@ == Self::spec_layout(),
    {
        let mut attributes = Vec::new();
        attributes.push(VertexAttribute { offset: 0, shader_location: 4, format: VertexFormat::Float32x4 });
        attributes.push(VertexAttribute { offset: 16, shader_location: 5, format: VertexFormat::Float32x4 });
        attributes.push(VertexAttribute { offset: 32, shader_location: 6, format: VertexFormat::Float32x4 });
        attributes.push(VertexAttribute { offset: 48, shader_location: 7, format: VertexFormat::Float32x4 });
        let layout = VertexBufferLayout { array_stride: 64, step_mode: VertexStepMode::Instance, attributes };
        assert(layout@.attributes =~= Self::spec_layout().attributes);
        layout
    }
}

} // verus!
