//! A minimal real-time simulation kernel: a small 3D math layer (vectors,
//! quaternions), spatial components, an entity world, and a fixed-cadence
//! update loop with frame pacing.
//!
//! Scalar components are IEEE-754 single-precision values. The library
//! itself never computes on them: it holds each scalar as its 32-bit pattern
//! (`u32`) and proves the structural and stateful logic around them — record
//! construction, indexed access, the entity arena, and the run loop's state
//! machine and pacing arithmetic. The host converts bit patterns to native
//! floating point at the boundary where numeric work is done.

use vstd::prelude::*;

pub mod component;
pub mod decimal;
pub mod game_manager;
pub mod gameobject;
pub mod quaternion;
pub mod time;
pub mod vector;
pub mod world;

verus! {

/// Bit pattern of the single-precision value 0.0.
pub const BITS_ZERO: u32 = 0x0000_0000;

/// Bit pattern of the single-precision value 1.0.
pub const BITS_ONE: u32 = 0x3F80_0000;

} // verus!
