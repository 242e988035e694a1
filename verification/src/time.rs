//! The shared time resource: an anchor timestamp with two readings.
//!
//! `delta` returns the nanoseconds elapsed since the last anchor reset and
//! moves the anchor to now; `split` returns the elapsed nanoseconds without
//! moving it. The readings come from the platform's monotonic clock, so
//! nothing can be promised of their values; the loop's pacing logic takes
//! them as arguments and is verified for every value they may have.

use vstd::prelude::*;

verus! {

#[verifier::external_type_specification]
#[verifier::external_body]
pub struct ExInstant(std::time::Instant);

/// Relies on std::time::Instant::now: an opaque reading of the monotonic
/// clock; nothing is promised of the value.
#[verifier::external_body]
fn instant_now() -> std::time::Instant {
    std::time::Instant::now()
}

/// Relies on std::time::Instant::elapsed: nanoseconds from the anchor to
/// now. The value depends on the clock, so nothing is promised of it.
#[verifier::external_body]
fn nanos_since(anchor: &std::time::Instant) -> u128 {
    anchor.elapsed().as_nanos()
}

/// Shared mutable time state holding an anchor timestamp.
pub struct Time {
    anchor: std::time::Instant,
}

impl Time {
    /// A time resource anchored at now.
    pub fn new() -> Time {
        Time { anchor: instant_now() }
    }

    /// Nanoseconds elapsed since the last anchor reset; resets the anchor,
    /// so the next reading measures from this call.
    pub fn delta(&mut self) -> u128 {
        let elapsed = nanos_since(&self.anchor);
        self.anchor = instant_now();
        elapsed
    }

    /// Nanoseconds elapsed since the last anchor reset, without resetting
    /// it: reading a split consumes nothing.
    pub fn split(&self) -> u128 {
        nanos_since(&self.anchor)
    }
}

} // verus!
