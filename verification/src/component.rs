//! Spatial component records: plain data attached to entities.

use vstd::prelude::*;

use crate::quaternion::Quaternion;
use crate::vector::Vector3;

verus! {

/// The spatial state of one entity: position, rotation and scale.
#[derive(Clone, Copy, Debug)]
pub struct Transform {
    pub position: Vector3,
    pub rotation: Quaternion,
    pub scale: Vector3,
}

/// Per-axis linear rate, in units per second; each field holds a
/// single-precision bit pattern.
#[derive(Clone, Copy, Debug)]
pub struct Velocity {
    pub dx: u32,
    pub dy: u32,
    pub dz: u32,
}

} // verus!
