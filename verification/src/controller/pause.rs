//! A pause that a stop request cuts short.

use vstd::prelude::*;
use crate::controller::output::MILLISECOND;

verus! {

/// The longest stretch of a pause without a look at the stop flag.
pub const PAUSE_SLICE: u64 = 100 * MILLISECOND;

/// How long to hold still at time `now`, before looking at the stop flag again:
/// a slice, or what is left until `deadline`; `None` once that has passed.
pub open spec fn slice_at(now: u64, deadline: u64) -> Option<u64> {
    if now >= deadline {
        None
    } else if deadline - now < PAUSE_SLICE {
        Some((deadline - now) as u64)
    } else {
        Some(PAUSE_SLICE)
    }
}

/// Sleeps in slices, so that a waiter wakes early once a stop is asked for and
/// the joining thread is not blocked for the full delay.
pub fn pause_slice(now: u64, deadline: u64) -> (r: Option<u64>)
    ensures
        r == slice_at(now, deadline),
{
    if now >= deadline {
        None
    } else if deadline - now < PAUSE_SLICE {
        Some(deadline - now)
    } else {
        Some(PAUSE_SLICE)
    }
}

/// A slice never oversleeps the deadline, is never empty, and is never longer
/// than a stop request may have to wait.
pub proof fn law_slices_fit(now: u64, deadline: u64)
    ensures
        slice_at(now, deadline) matches Some(slice) ==> 0 < slice <= PAUSE_SLICE && now + slice
            <= deadline,
        slice_at(now, deadline) is None <==> now >= deadline,
{
}

} // verus!
