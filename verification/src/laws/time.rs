//! Comparing durations.

use crate::time::{is_zero, nanos, shorter};
use core::time::Duration;
use vstd::prelude::*;

verus! {

/// The shorter of two durations is one of them, and neither is shorter than it.
pub proof fn law_shorter(a: Duration, b: Duration, r: Duration)
    requires
        call_ensures(shorter, (a, b), r),
    ensures
        r == a || r == b,
        nanos(r) <= nanos(a),
        nanos(r) <= nanos(b),
        nanos(a) == nanos(b) ==> r == a,
{
}

/// A duration is zero exactly if it has no length.
pub proof fn law_is_zero(d: Duration, r: bool)
    requires
        call_ensures(is_zero, (d,), r),
    ensures
        r <==> nanos(d) == 0,
{
}

} // verus!
