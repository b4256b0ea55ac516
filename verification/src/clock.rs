//! Access to the monotonic clock.
//!
//! Clock readings are inherently nondeterministic, so the trusted items here
//! promise nothing about the values they return; every caller states what
//! holds whatever the clock said. Waiting is a busy loop: the protocol's
//! capture phase must not yield to the scheduler, and the same spin wait
//! serves the longer holds.

use std::time::Duration;
use std::time::Instant;
use vstd::prelude::*;

verus! {

/// A point on the monotonic clock, opaque to verification.
#[verifier::external_type_specification]
#[verifier::external_body]
pub struct ExInstant(Instant);

/// Relies on std::time::Instant::now: a reading of the monotonic clock.
#[verifier::external_body]
pub(crate) fn instant_now() -> (r: Instant) {
    Instant::now()
}

/// Relies on std::time::Instant::elapsed: the time that has passed since the
/// given clock reading was taken.
#[verifier::external_body]
fn instant_elapsed(t: &Instant) -> (r: Duration) {
    t.elapsed()
}

/// Relies on std::time::Duration::as_millis: the duration in whole
/// milliseconds, rounded down.
#[verifier::external_body]
fn duration_as_millis(d: &Duration) -> (r: u128) {
    d.as_millis()
}

/// The number of whole milliseconds that have passed since `t`, saturating
/// at `u64::MAX`. The value comes from the clock and carries no promise.
pub(crate) fn millis_since(t: &Instant) -> u64 {
    let ms: u128 = duration_as_millis(&instant_elapsed(t));
    if ms > u64::MAX as u128 {
        u64::MAX
    } else {
        ms as u64
    }
}

/// Busy-waits until at least `ms` milliseconds have passed. The iteration
/// cap only makes termination provable; at any realistic spin rate the wait
/// ends on the clock long before the cap.
pub(crate) fn wait_ms(ms: u64) {
    let started = instant_now();
    let mut spins: u64 = 0;
    loop
        decreases u64::MAX - spins,
    {
        if millis_since(&started) >= ms {
            break ;
        }
        if spins >= 0xffff_ffff_ffff_fffe {
            break ;
        }
        spins = spins + 1;
    }
}

} // verus!
