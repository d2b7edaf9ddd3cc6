//! What this crate relies on about [`Duration`].

use core::time::Duration;
use vstd::prelude::*;

verus! {

/// The length of a duration in whole nanoseconds, as `Duration::as_nanos` returns it.
pub uninterp spec fn nanos(d: Duration) -> nat;

/// The length of `Duration::MAX`: `u64::MAX` seconds and 999,999,999 nanoseconds.
pub open spec fn max_nanos() -> nat {
    (u64::MAX * 1_000_000_000 + 999_999_999) as nat
}

/// `Duration::as_nanos` returns the total number of nanoseconds in the duration.
pub assume_specification[ Duration::as_nanos ](d: &Duration) -> (r: u128)
    ensures
        r == nanos(*d),
;

/// `Duration::from_millis` makes a duration of the given number of milliseconds.
pub assume_specification[ Duration::from_millis ](millis: u64) -> (r: Duration)
    ensures
        nanos(r) == millis * 1_000_000,
;

/// `Duration::from_secs` makes a duration of the given number of seconds.
pub assume_specification[ Duration::from_secs ](secs: u64) -> (r: Duration)
    ensures
        nanos(r) == secs * 1_000_000_000,
;

/// `Duration::saturating_mul` multiplies by `rhs` and returns `Duration::MAX` on overflow.
pub assume_specification[ Duration::saturating_mul ](d: Duration, rhs: u32) -> (r: Duration)
    ensures
        nanos(r) == if nanos(d) * rhs <= max_nanos() {
            nanos(d) * rhs
        } else {
            max_nanos() as int
        },
;

/// The shorter of two durations; `a` when both are equally long.
pub fn shorter(a: Duration, b: Duration) -> (r: Duration)
    ensures
        r == (if nanos(a) <= nanos(b) {
            a
        } else {
            b
        }),
{
    if a.as_nanos() <= b.as_nanos() {
        a
    } else {
        b
    }
}

/// True for a duration of no length.
pub fn is_zero(d: Duration) -> (r: bool)
    ensures
        r == (nanos(d) == 0),
{
    d.as_nanos() == 0
}

} // verus!
