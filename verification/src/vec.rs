//! Fixed-point 3-vectors: positions, forces, torques and impulses,
//! in milli-units.

use vstd::prelude::*;

verus! {

/// A world-space or frame-local 3-vector with milli-unit components.
#[derive(Clone, Copy, Debug, PartialEq, Eq, Structural)]
pub struct Vec3Fx {
    pub x: i64,
    pub y: i64,
    pub z: i64,
}

impl Vec3Fx {
    /// Builds a vector from its components.
    pub fn new(x: i64, y: i64, z: i64) -> (v: Vec3Fx)
        ensures
            v == (Vec3Fx { x, y, z }),
    {
        Vec3Fx { x, y, z }
    }

    /// The zero vector: a force or torque channel with no contribution.
    pub fn zero() -> (v: Vec3Fx)
        ensures
            v == (Vec3Fx { x: 0i64, y: 0i64, z: 0i64 }),
    {
        Vec3Fx { x: 0, y: 0, z: 0 }
    }

    /// True when every component is zero.
    pub open spec fn is_zero(self) -> bool {
        self.x == 0 && self.y == 0 && self.z == 0
    }
}

} // verus!
