//! The monotonic clock that the gateway reads.
//!
//! A clock counts nanoseconds from the moment it was made. Readings depend
//! on when they are taken, so nothing is promised of their values: the code
//! that reads them carries them and computes with them.

use vstd::prelude::*;
use std::time::{Duration, Instant};

verus! {

/// `std::time::Instant`, carried as an opaque value.
#[verifier::external_type_specification]
#[verifier::external_body]
pub struct ExInstant(Instant);

/// Calls `std::time::Instant::now`. The reading depends on the time of the
/// call, so no property of it is claimed.
#[verifier::external_body]
pub(crate) fn instant_now() -> (now: Instant) {
    Instant::now()
}

/// Calls `std::time::Instant::elapsed` on `start`. The result depends on the
/// time of the call, so no property of it is claimed.
#[verifier::external_body]
fn elapsed_since(start: &Instant) -> (elapsed: Duration) {
    start.elapsed()
}

/// Calls `std::time::Duration::as_nanos`. `Duration` is opaque here, so no
/// property of the count is claimed.
#[verifier::external_body]
fn duration_as_nanos(duration: &Duration) -> (nanos: u128) {
    duration.as_nanos()
}

/// A monotonic clock that reads in nanoseconds from its origin.
#[derive(Debug, Clone, Copy)]
pub struct MonotonicClock {
    origin: Instant,
}

impl MonotonicClock {
    /// A clock whose origin is now.
    pub fn new() -> (clock: MonotonicClock) {
        MonotonicClock { origin: instant_now() }
    }

    /// The nanoseconds elapsed since the clock's origin, as read now, held at
    /// `u64::MAX` past some 584 years.
    pub fn now_nanos(&self) -> (nanos: u64) {
        let elapsed = elapsed_since(&self.origin);
        let nanos = duration_as_nanos(&elapsed);
        if nanos > u64::MAX as u128 {
            u64::MAX
        } else {
            nanos as u64
        }
    }
}

} // verus!
