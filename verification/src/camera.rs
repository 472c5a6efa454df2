//! Cameras as the frame graph sees them: a projection that follows the
//! viewport, and the handles of the buffer and bind group through which
//! shaders read the camera's matrices.
//!
//! The matrices themselves are computed by the host, which writes them into
//! the camera buffer before each frame.

use crate::gpu::{BufferDescriptor, BufferUsages, Device, DeviceCall, DeviceCallView, uniform_group_calls};
use vstd::prelude::*;

verus! {

/// The size of the camera buffer in bytes: six four-by-four matrices of
/// single-precision numbers (view, projection, their inverses, and the view
/// and projection of the frame before).
pub const CAMERA_UNIFORM_SIZE: u64 = 384;

/// A perspective projection. The angle and the two planes are kept as the
/// 32-bit patterns of single-precision numbers; the angle is in radians.
#[derive(Clone, Copy, Debug, PartialEq, Eq, Structural)]
pub struct PerspectiveProjection {
    pub width: u32,
    pub height: u32,
    pub fovy: u32,
    pub znear: u32,
    pub zfar: u32,
}

impl PerspectiveProjection {
    /// A perspective projection for a viewport of the given size.
    pub fn new(width: u32, height: u32, fovy: u32, znear: u32, zfar: u32) -> (p: PerspectiveProjection)
        ensures
            p == (PerspectiveProjection { width, height, fovy, znear, zfar }),
    {
        PerspectiveProjection { width, height, fovy, znear, zfar }
    }

    /// Takes over a new viewport; the angle and the planes stay.
    pub fn resize(&mut self, width: u32, height: u32)
        ensures
            *final(self) == (PerspectiveProjection { width, height, ..*old(self) }),
    {
        self.width = width;
        self.height = height;
    }
}

/// An orthographic projection. The size and the two planes are kept as the
/// 32-bit patterns of single-precision numbers.
#[derive(Clone, Copy, Debug, PartialEq, Eq, Structural)]
pub struct OrthographicProjection {
    pub width: u32,
    pub height: u32,
    pub size: u32,
    pub znear: u32,
    pub zfar: u32,
}

impl OrthographicProjection {
    /// An orthographic projection for a viewport of the given size.
    pub fn new(width: u32, height: u32, size: u32, znear: u32, zfar: u32) -> (o: OrthographicProjection)
        ensures
            o == (OrthographicProjection { width, height, size, znear, zfar }),
    {
        OrthographicProjection { width, height, size, znear, zfar }
    }

    /// Takes over a new viewport; the size and the planes stay.
    pub fn resize(&mut self, width: u32, height: u32)
        ensures
            *final(self) == (OrthographicProjection { width, height, ..*old(self) }),
    {
        self.width = width;
        self.height = height;
    }
}

/// The projection of a camera.
#[derive(Clone, Copy, Debug, PartialEq, Eq, Structural)]
pub enum Projection {
    Perspective(PerspectiveProjection),
    Orthographic(OrthographicProjection),
}

impl Projection {
    /// The projection with its viewport replaced.
    pub open spec fn resized(self, width: u32, height: u32) -> Projection {
        match self {
            Projection::Perspective(p) => Projection::Perspective(PerspectiveProjection { width, height, ..p }),
            Projection::Orthographic(o) => Projection::Orthographic(OrthographicProjection { width, height, ..o }),
        }
    }

    /// Takes over a new viewport, whichever kind of projection this is.
    pub fn resize(&mut self, width: u32, height: u32)
        ensures
            *final(self) == old(self).resized(width, height),
    {
        match self {
            Projection::Perspective(p) => p.resize(width, height),
            Projection::Orthographic(o) => o.resize(width, height),
        }
    }
}

/// A camera component.
#[derive(Debug)]
pub struct Camera {
    pub projection: Projection,
    pub camera_buffer: usize,
    pub camera_bind_group_layout: usize,
    pub camera_bind_group: usize,
}

impl Camera {
    /// Sets up a camera: a writable uniform buffer for its matrices, a layout
    /// with one uniform slot, and the bind group for it. The three handles
    /// are consecutive, the buffer's first.
    pub fn new(device: &mut Device, projection: Projection) -> (camera: Camera)
        ensures
            camera.projection == projection,
            camera.camera_buffer == old(device)@.len(),
            camera.camera_bind_group_layout == old(device)@.len() + 1,
            camera.camera_bind_group == old(device)@.len() + 2,
            final(device)@ == old(device)@.push(
                DeviceCallView::CreateBuffer(
                    BufferDescriptor { size: CAMERA_UNIFORM_SIZE, usage: BufferUsages::spec_uniform() },
                ),
            ) + uniform_group_calls(camera.camera_buffer, camera.camera_bind_group_layout),
    {
        let camera_buffer = device.record(
            DeviceCall::CreateBuffer(BufferDescriptor { size: CAMERA_UNIFORM_SIZE, usage: BufferUsages::uniform() }),
        );
        let (camera_bind_group_layout, camera_bind_group) = device.create_uniform_group(camera_buffer);
        Camera { projection, camera_buffer, camera_bind_group_layout, camera_bind_group }
    }
}

} // verus!
