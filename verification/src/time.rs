//! Time spans as the standard library carries them.

use vstd::prelude::*;
use std::time::Duration;

verus! {

/// The span `Duration::from_secs` makes of a number of seconds.
pub uninterp spec fn seconds(s: u64) -> Duration;

/// `Duration::from_secs`. Trusted to return the span of the given number
/// of seconds: equal arguments give equal spans, and the span is `s`
/// billion nanoseconds long.
#[verifier::external_body]
pub fn from_secs(s: u64) -> (d: Duration)
    ensures
        d == seconds(s),
        nanos(d) == s * 1_000_000_000,
{
    Duration::from_secs(s)
}

/// The length of a span in nanoseconds, as `Duration::as_nanos` gives it.
pub uninterp spec fn nanos(d: Duration) -> u128;

/// `Duration::as_nanos`. Trusted to return the span's length in
/// nanoseconds, a function of the span alone.
#[verifier::external_body]
pub fn as_nanos(d: &Duration) -> (n: u128)
    ensures
        n == nanos(*d),
{
    d.as_nanos()
}

} // verus!
