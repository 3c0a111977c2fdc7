//! Time as the host reports it: milliseconds on a monotonic clock.

use vstd::prelude::*;

verus! {

/// Largest clock reading, and largest accumulated pause, that the game
/// accepts: sums of two such values still fit in a `u64`.
pub const TIME_LIMIT: u64 = 0x4000_0000_0000_0000;

/// Milliseconds from `since` to `now`. The clock never runs backwards, so a
/// `now` that lies before `since` counts as no time at all.
pub open spec fn elapsed(since: u64, now: u64) -> u64 {
    if now >= since {
        (now - since) as u64
    } else {
        0
    }
}

/// Computes [`elapsed`].
pub fn elapsed_ms(since: u64, now: u64) -> (r: u64)
    ensures
        r == elapsed(since, now),
{
    if now >= since {
        now - since
    } else {
        0
    }
}

} // verus!
