//! Position, orientation and size of an entity.
//!
//! The engine never computes with these numbers; it stores them for the host
//! and hands them back. Each component is kept as the 64-bit pattern of a
//! double-precision number.

use crate::gpu::ONE_DOUBLE;
use vstd::prelude::*;

verus! {

/// A local transform. `rotation` is a quaternion, scalar part first.
#[derive(Clone, Copy, Debug, PartialEq, Eq)]
pub struct Transform {
    pub location: (u64, u64, u64),
    pub rotation: (u64, u64, u64, u64),
    pub scale: (u64, u64, u64),
}

impl Transform {
    /// The transform that an entity starts with: at the origin, not rotated,
    /// and with every scale factor zero.
    pub open spec fn spec_default() -> Transform {
        Transform { location: (0, 0, 0), rotation: (ONE_DOUBLE, 0, 0, 0), scale: (0, 0, 0) }
    }

    /// A transform from its three parts.
    pub fn new(location: (u64, u64, u64), rotation: (u64, u64, u64, u64), scale: (u64, u64, u64)) -> (t: Transform)
        ensures
            t == (Transform { location, rotation, scale }),
    {
        Transform { location, rotation, scale }
    }
}

impl Default for Transform {
    fn default() -> (t: Transform)
        ensures
            t == Transform::spec_default(),
    {
        Transform::new((0, 0, 0), (ONE_DOUBLE, 0, 0, 0), (0, 0, 0))
    }
}

} // verus!
