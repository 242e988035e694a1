//! Quaternion rotation value type.
//!
//! Each component is the 32-bit pattern of an IEEE-754 single-precision
//! value. Construction, in-place setting, the identity rotation and indexed
//! component access are stated and proved here. The numeric operations —
//! Euler-angle conversion, normalization, dot product, inter-rotation angle,
//! angle-axis construction and display formatting — compute on native
//! floating point and are left to the host.
//!
//! Indexed access maps 0, 1, 2, 3 to x, y, z, w; any other index is a
//! fault, never a silently defaulted value: the total accessor rules such
//! indices out, and the checked accessor reports them with a message
//! naming the offending index.

use vstd::prelude::*;
use vstd::string::StringExecFns;

use crate::decimal::{dec_int, decimal_i8};
use crate::vector::Vector3;

verus! {

/// A rotation; `w`, `x`, `y`, `z` hold single-precision bit patterns.
#[derive(Clone, Copy, Debug)]
pub struct Quaternion {
    pub w: u32,
    pub x: u32,
    pub y: u32,
    pub z: u32,
}

/// The fault text reported for an out-of-range component index.
pub open spec fn index_fault_text(i: int) -> Seq<char> {
    "Index out of range, got "@ + dec_int(i) + "."@
}

/// The component of `q` selected by index `i`: 0, 1, 2 and 3 stand for
/// x, y, z and w.
pub open spec fn component_at(q: Quaternion, i: int) -> u32 {
    if i == 0 {
        q.x
    } else if i == 1 {
        q.y
    } else if i == 2 {
        q.z
    } else {
        q.w
    }
}

impl Quaternion {
    /// The identity rotation, w-first unit real part: (w=1, x=0, y=0, z=0).
    pub fn identity() -> (q: Quaternion)
        ensures
            q.w == crate::BITS_ONE,
            q.x == crate::BITS_ZERO,
            q.y == crate::BITS_ZERO,
            q.z == crate::BITS_ZERO,
    {
        Quaternion { w: crate::BITS_ONE, x: crate::BITS_ZERO, y: crate::BITS_ZERO, z: crate::BITS_ZERO }
    }

    /// Builds a quaternion from four component bit patterns.
    pub fn new(w: u32, x: u32, y: u32, z: u32) -> (q: Quaternion)
        ensures
            q.w == w,
            q.x == x,
            q.y == y,
            q.z == z,
    {
        Quaternion { w, x, y, z }
    }

    /// Sets the w, x, y and z components of an existing quaternion.
    pub fn set(&mut self, w: u32, x: u32, y: u32, z: u32)
        ensures
            final(self).w == w,
            final(self).x == x,
            final(self).y == y,
            final(self).z == z,
    {
        self.w = w;
        self.x = x;
        self.y = y;
        self.z = z;
    }

    /// The x, y, z and w components under indices 0, 1, 2 and 3.
    /// Any other index is a fault and is ruled out here; a caller that
    /// cannot establish the bound uses `try_component`.
    pub fn index(&self, i: i8) -> (r: u32)
        requires
            0 <= i <= 3,
        ensures
            r == component_at(*self, i as int),
    {
        match i {
            0 => self.x,
            1 => self.y,
            2 => self.z,
            3 => self.w,
            _ => vstd::pervasive::unreached(),
        }
    }

    /// Checked indexed access: the selected component for indices 0 to 3;
    /// every other index is a reported fault carrying a message that names
    /// the offending index.
    pub fn try_component(&self, i: i8) -> (r: Result<u32, String>)
        ensures
            0 <= i <= 3 ==> r == Ok::<u32, String>(component_at(*self, i as int)),
            !(0 <= i <= 3) ==> (r matches Err(m) && m@ == index_fault_text(i as int)),
    {
        if 0 <= i && i <= 3 {
            Ok(self.index(i))
        } else {
            let mut m: String = String::from_str("Index out of range, got ");
            let digits = decimal_i8(i);
            m.append(digits.as_str());
            m.append(".");
            Err(m)
        }
    }

    /// Rotation from one direction to another; not computed yet, a
    /// placeholder that returns no value, as a caller can observe.
    pub fn set_from_to_rotation(from: Vector3, to: Vector3) {
        let _ = from;
        let _ = to;
    }

    /// Rotation facing a view direction with the default "up"; not computed
    /// yet, a placeholder that returns no value.
    pub fn set_look_rotation(view: Vector3) {
        let _ = view;
        let _up: u32 = Vector3::up();
    }

    /// Rotation facing a view direction with a given "up"; not computed
    /// yet, a placeholder that returns no value.
    pub fn set_look_rotation_with_up(view: Vector3, up: Vector3) {
        let _ = view;
        let _ = up;
    }

    /// Angle-axis reading of the rotation; not computed yet, a placeholder
    /// that leaves its arguments unread.
    pub fn to_angle_axis(&self, angle: &u32, axis: &Vector3) {
        let _ = angle;
        let _ = axis;
    }
}

} // verus!
