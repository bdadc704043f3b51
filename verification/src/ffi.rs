use vstd::prelude::*;

use crate::face::Face;

verus! {

/// An Up face together with an angle.
#[derive(Clone, Copy)]
pub struct UpAngle {
    pub up: Face,
    pub angle: i8,
}

/// Three coordinates.
#[derive(Clone, Copy)]
pub struct FFIVec3<T: Copy> {
    pub x: T,
    pub y: T,
    pub z: T,
}

impl<T: Copy> FFIVec3<T> {
    /// The vector `(x, y, z)`.
    pub fn new(x: T, y: T, z: T) -> (r: Self)
        ensures
            r.x == x && r.y == y && r.z == z,
    {
        Self { x, y, z }
    }

    /// The vector with the coordinates of `array`, in order.
    pub fn from_array(array: [T; 3]) -> (r: Self)
        ensures
            r.x == array[0] && r.y == array[1] && r.z == array[2],
    {
        Self { x: array[0], y: array[1], z: array[2] }
    }
}

} // verus!
