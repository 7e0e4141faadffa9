//! The monotonic clock of the standard library, as the timer reads it.

use vstd::prelude::*;
use std::time::{Duration, Instant};

verus! {

/// A point in time of the monotonic clock; Verus sees nothing inside it.
#[verifier::external_type_specification]
#[verifier::external_body]
pub struct ExInstant(Instant);

/// Calls `Instant::now`. What it returns depends on when it is called, so
/// nothing is claimed of it.
#[verifier::external_body]
pub(crate) fn instant_now() -> Instant {
    Instant::now()
}

/// Calls `Instant::elapsed`: the time from `start` to now. It depends on when
/// it is called, so nothing is claimed of it.
#[verifier::external_body]
pub(crate) fn instant_elapsed(start: &Instant) -> Duration {
    start.elapsed()
}

/// The whole nanoseconds of a duration, as `Duration::as_nanos` gives them.
pub uninterp spec fn duration_nanos(d: Duration) -> u128;

/// Calls `Duration::as_nanos`: its result is the whole nanoseconds of `d`, a
/// function of `d` alone, named `duration_nanos`. Verus sees nothing inside a
/// `Duration`, so nothing more is stated.
#[verifier::external_body]
pub(crate) fn duration_as_nanos(d: &Duration) -> (n: u128)
    ensures
        n == duration_nanos(*d),
{
    d.as_nanos()
}

/// The whole nanoseconds of `d`, cut down to `u64::MAX`.
pub open spec fn saturated_nanos(d: Duration) -> u64 {
    if duration_nanos(d) > u64::MAX {
        u64::MAX
    } else {
        duration_nanos(d) as u64
    }
}

/// A count of nanoseconds cut down to `u64::MAX`.
fn saturate_nanos(n: u128) -> (r: u64)
    ensures
        r == (if n > u64::MAX { u64::MAX as int } else { n as int }),
{
    if n > u64::MAX as u128 {
        u64::MAX
    } else {
        n as u64
    }
}

/// The nanoseconds that have passed since `start`, cut down to `u64::MAX`: the
/// whole nanoseconds of the duration the clock measured. Which duration that is
/// depends on when it is called, so it is not stated.
pub(crate) fn nanos_since(start: &Instant) -> (n: u64)
    ensures
        exists|d: Duration| n == saturated_nanos(d),
{
    let d = instant_elapsed(start);
    let n = saturate_nanos(duration_as_nanos(&d));
    assert(n == saturated_nanos(d));
    n
}

} // verus!
