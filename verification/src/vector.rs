//! Integer vectors of the plane and their mathematical view.

use vstd::prelude::*;

verus! {

/// A point or a displacement of the plane over the mathematical integers.
pub struct VectorView {
    pub x: int,
    pub y: int,
}

/// A point or a displacement of the plane with 64-bit coordinates.
#[derive(Clone, Copy, Debug, PartialEq, Eq, Structural)]
pub struct Vector {
    pub x: i64,
    pub y: i64,
}

impl View for Vector {
    type V = VectorView;

    open spec fn view(&self) -> VectorView {
        VectorView { x: self.x as int, y: self.y as int }
    }
}

impl Vector {
    /// The vector with the given coordinates.
    pub fn new(x: i64, y: i64) -> (v: Vector)
        ensures
            v.x == x,
            v.y == y,
    {
        Vector { x, y }
    }
}

} // verus!
