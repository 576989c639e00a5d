//! Time source abstraction for room lifecycle decisions.
//!
//! Room recovery and idle cleanup depend on monotonic time. The source is
//! injectable so timeout behavior can be exercised without sleeping.

use vstd::prelude::*;

verus! {

/// Declares `std::time::Instant` so that a field may carry it.
#[verifier::external_type_specification]
#[verifier::external_body]
pub struct ExInstant(std::time::Instant);

/// Monotonic time source used by room storage, in milliseconds.
pub trait Clock {
    /// Returns the current monotonic time in milliseconds.
    fn now(&self) -> u64;
}

/// Calls `std::time::Instant::now`; the value depends on the machine's clock.
#[verifier::external_body]
fn instant_now() -> std::time::Instant {
    std::time::Instant::now()
}

/// Calls `std::time::Instant::elapsed` and reads it in whole milliseconds;
/// the value depends on the machine's clock, so nothing is stated.
#[verifier::external_body]
fn elapsed_millis(origin: &std::time::Instant) -> u128 {
    origin.elapsed().as_millis()
}

/// Milliseconds as a `u64`, saturating at its top.
pub open spec fn saturated_millis(elapsed: u128) -> u64 {
    if elapsed > u64::MAX as u128 { u64::MAX } else { elapsed as u64 }
}

/// Reads elapsed milliseconds as a `u64`, saturating at its top.
pub fn millis_as_u64(elapsed: u128) -> (ms: u64)
    ensures
        ms == saturated_millis(elapsed),
{
    if elapsed > u64::MAX as u128 { u64::MAX } else { elapsed as u64 }
}

/// Production clock: milliseconds elapsed since the clock was created.
pub struct SystemClock {
    origin: std::time::Instant,
}

impl SystemClock {
    /// Starts a clock at the current instant.
    pub fn new() -> Self {
        SystemClock { origin: instant_now() }
    }
}

impl Clock for SystemClock {
    fn now(&self) -> u64 {
        millis_as_u64(elapsed_millis(&self.origin))
    }
}

} // verus!
