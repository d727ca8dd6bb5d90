//! Clock arithmetic shared by the timed components.
//!
//! Components never read a clock themselves: the embedder passes integer
//! readings of a monotonic clock in, and elapsed time is computed here,
//! clamped at zero so an out-of-order reading can never underflow.

use vstd::prelude::*;

verus! {

/// Elapsed time from `from` to `now` on a monotonic clock; zero when the
/// readings are out of order.
pub open spec fn spec_elapsed(from: u64, now: u64) -> int {
    if now >= from {
        now - from
    } else {
        0
    }
}

/// A counter increment that sticks at the maximum rather than wrapping.
pub open spec fn spec_saturating_inc(x: u64) -> int {
    if x < u64::MAX {
        x + 1
    } else {
        x as int
    }
}

/// Saturating add on event counters.
pub open spec fn spec_saturating_add(x: u64, y: u64) -> int {
    if x + y <= u64::MAX {
        x + y
    } else {
        u64::MAX as int
    }
}

/// Elapsed time from `from` to `now`, clamped at zero for out-of-order
/// readings.
pub fn saturating_elapsed(from: u64, now: u64) -> (r: u64)
    ensures
        r == spec_elapsed(from, now),
{
    if now >= from {
        now - from
    } else {
        0
    }
}

/// Increment a counter, sticking at the maximum rather than wrapping.
pub fn saturating_inc(x: u64) -> (r: u64)
    ensures
        r == spec_saturating_inc(x),
{
    if x < u64::MAX {
        x + 1
    } else {
        x
    }
}

/// Add to a counter, sticking at the maximum rather than wrapping.
pub fn saturating_add(x: u64, y: u64) -> (r: u64)
    ensures
        r == spec_saturating_add(x, y),
{
    if y <= u64::MAX - x {
        x + y
    } else {
        u64::MAX
    }
}

} // verus!
