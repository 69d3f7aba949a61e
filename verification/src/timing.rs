//! Lengths of time, measured in whole nanoseconds.

use std::time::Duration;
use vstd::prelude::*;

verus! {

/// Nanoseconds in one second.
pub const NANOS_PER_SEC: u64 = 1_000_000_000;

/// Nanoseconds in one millisecond.
pub const NANOS_PER_MILLI: u64 = 1_000_000;

/// The length of `d` in nanoseconds: what `Duration::as_nanos` returns for it.
pub uninterp spec fn nanos_of(d: Duration) -> nat;

/// `Duration::as_nanos`: the total number of nanoseconds in the duration.
pub assume_specification[ Duration::as_nanos ](d: &Duration) -> (n: u128)
    ensures
        n == nanos_of(*d),
;

/// `Duration::from_secs`: a duration of that many whole seconds.
pub assume_specification[ Duration::from_secs ](secs: u64) -> (d: Duration)
    ensures
        nanos_of(d) == secs * NANOS_PER_SEC,
;

/// `Duration::from_millis`: a duration of that many whole milliseconds.
pub assume_specification[ Duration::from_millis ](millis: u64) -> (d: Duration)
    ensures
        nanos_of(d) == millis * NANOS_PER_MILLI,
;

/// `Duration::saturating_sub`: the difference, or zero where `rhs` is the
/// longer of the two.
pub assume_specification[ Duration::saturating_sub ](d: Duration, rhs: Duration) -> (out: Duration)
    ensures
        nanos_of(out) == if nanos_of(d) >= nanos_of(rhs) {
            nanos_of(d) - nanos_of(rhs)
        } else {
            0
        },
;

} // verus!
