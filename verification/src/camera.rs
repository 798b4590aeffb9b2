//! The camera pose that the shader reads: a position and an orientation basis.

use vstd::prelude::*;
use crate::float_bits::{FloatBits, NEG_ONE, ONE, ZERO};

verus! {

/// Three floats, each as its bit pattern.
#[derive(Clone, Copy, Debug, PartialEq, Eq, Structural)]
pub struct Vector3 {
    pub x: FloatBits,
    pub y: FloatBits,
    pub z: FloatBits,
}

impl Vector3 {
    /// The vector with the given components.
    pub fn new(x: FloatBits, y: FloatBits, z: FloatBits) -> (v: Vector3)
        ensures
            v == (Vector3 { x, y, z }),
    {
        Vector3 { x, y, z }
    }
}

/// What the shader needs of a camera transform: where the camera stands and
/// the three directions of its local frame. The frame is taken as the
/// transform gives it; nothing here normalises or orthogonalises it.
#[derive(Clone, Copy, Debug, PartialEq, Eq, Structural)]
pub struct CameraFrame {
    pub position: Vector3,
    pub forward: Vector3,
    pub right: Vector3,
    pub up: Vector3,
}

impl CameraFrame {
    /// The frame of a camera at the origin that looks down the negative Z
    /// axis, with X to its right and Y above it.
    pub open spec fn spec_at_origin() -> CameraFrame {
        CameraFrame {
            position: Vector3 { x: ZERO, y: ZERO, z: ZERO },
            forward: Vector3 { x: ZERO, y: ZERO, z: NEG_ONE },
            right: Vector3 { x: ONE, y: ZERO, z: ZERO },
            up: Vector3 { x: ZERO, y: ONE, z: ZERO },
        }
    }

    /// A camera at the origin facing -Z.
    pub fn at_origin() -> (frame: CameraFrame)
        ensures
            frame == Self::spec_at_origin(),
    {
        CameraFrame {
            position: Vector3 { x: ZERO, y: ZERO, z: ZERO },
            forward: Vector3 { x: ZERO, y: ZERO, z: NEG_ONE },
            right: Vector3 { x: ONE, y: ZERO, z: ZERO },
            up: Vector3 { x: ZERO, y: ONE, z: ZERO },
        }
    }
}

} // verus!
