//! What the engine holds of the graphics device: the record of its calls
//! and the configuration of the surface.

use crate::gpu::{Device, DeviceCallView, SurfaceConfiguration};
use vstd::prelude::*;

verus! {

/// The device and the surface configuration.
#[derive(Debug)]
pub struct Context {
    pub device: Device,
    pub config: SurfaceConfiguration,
}

impl Context {
    /// A context for a surface as the host found it, with nothing asked of
    /// the device yet.
    pub fn new(config: SurfaceConfiguration) -> (context: Context)
        ensures
            context.config == config,
            context.device@ == Seq::<DeviceCallView>::empty(),
    {
        Context { device: Device::new(), config }
    }
}

} // verus!
