use crate::common::{coord_in_range, Scalar};
use vstd::prelude::*;

verus! {

/// A point or direction in scene space, in fixed-point game units.
#[derive(Clone, Copy, Debug, PartialEq, Eq, Structural)]
pub struct Vector3 {
    pub x: Scalar,
    pub y: Scalar,
    pub z: Scalar,
}

impl Vector3 {
    /// Every coordinate is bounded.
    pub open spec fn wf(&self) -> bool {
        coord_in_range(self.x) && coord_in_range(self.y) && coord_in_range(self.z)
    }

    pub fn new(x: Scalar, y: Scalar, z: Scalar) -> (r: Self)
        ensures
            r == (Vector3 { x, y, z }),
    {
        Vector3 { x, y, z }
    }
}

impl Default for Vector3 {
    /// The origin.
    fn default() -> (r: Self)
        ensures
            r == (Vector3 { x: 0 as Scalar, y: 0 as Scalar, z: 0 as Scalar }),
    {
        Vector3 { x: 0, y: 0, z: 0 }
    }
}

/// Spatial component of a live actor.
#[derive(Clone, Copy, Debug, PartialEq, Eq, Structural)]
pub struct Transform {
    pub position: Vector3,
    pub rotation: Vector3,
}

impl Transform {
    pub open spec fn wf(&self) -> bool {
        self.position.wf() && self.rotation.wf()
    }
}

} // verus!
