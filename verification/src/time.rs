//! Lengths of time, read as whole nanoseconds.

use std::time::Duration;
use vstd::prelude::*;

verus! {

/// The length of `duration` in whole nanoseconds, as `Duration::as_nanos` reports it.
pub uninterp spec fn duration_nanos(duration: Duration) -> nat;

/// Calls `Duration::as_nanos`. Trusted: the result is the total number of nanoseconds that
/// the duration holds, a function of the duration alone.
#[verifier::external_body]
fn as_nanos(duration: Duration) -> (nanos: u128)
    ensures
        nanos == duration_nanos(duration),
{
    duration.as_nanos()
}

/// Calls `Duration::from_secs`. Trusted: the new duration is exactly `secs` seconds long.
#[verifier::external_body]
pub(crate) fn from_secs(secs: u64) -> (duration: Duration)
    ensures
        duration_nanos(duration) == secs * 1_000_000_000,
{
    Duration::from_secs(secs)
}

/// Whether `elapsed` is at least as long as `limit`.
pub fn at_least(elapsed: Duration, limit: Duration) -> (reached: bool)
    ensures
        reached == (duration_nanos(elapsed) >= duration_nanos(limit)),
{
    as_nanos(elapsed) >= as_nanos(limit)
}

/// Of two lengths of time one is at least as long as the other, and both are only where they hold
/// the same number of nanoseconds.
pub proof fn law_lengths_compare(one: Duration, other: Duration, reached: bool, back: bool)
    requires
        call_ensures(at_least, (one, other), reached),
        call_ensures(at_least, (other, one), back),
    ensures
        reached || back,
        reached && back <==> duration_nanos(one) == duration_nanos(other),
        !reached ==> duration_nanos(one) < duration_nanos(other),
{
}

} // verus!
