//! What can be attached to an entity.

use crate::camera::Camera;
use crate::light::Light;
use crate::model::Model;
use vstd::prelude::*;

verus! {

/// A component of an entity. A behavior is held by its handle in the host's
/// registry of behaviors; the host runs it when the engine schedules it.
#[derive(Debug)]
pub enum Component {
    Model(Model),
    Light(Light),
    Camera(Camera),
    Behavior(usize),
}

} // verus!
