//! 3D vector value type.
//!
//! Each component is the 32-bit pattern of an IEEE-754 single-precision
//! value. Magnitude, normalization, scaling and addition are numeric work
//! and are left to the host; the record structure and the placeholder `up`
//! constant are stated and proved here.

use vstd::prelude::*;

verus! {

/// A 3D vector; `x`, `y`, `z` hold single-precision bit patterns.
#[derive(Clone, Copy, Debug)]
pub struct Vector3 {
    pub x: u32,
    pub y: u32,
    pub z: u32,
}

impl Vector3 {
    /// Builds a vector from three component bit patterns.
    pub fn new(x: u32, y: u32, z: u32) -> (v: Vector3)
        ensures
            v.x == x,
            v.y == y,
            v.z == z,
    {
        Vector3 { x, y, z }
    }

    /// Placeholder "up" value: the scalar 0.0, not a unit vector.
    pub fn up() -> (r: u32)
        ensures
            r == crate::BITS_ZERO,
    {
        crate::BITS_ZERO
    }
}

} // verus!
