//! Cadence rule of the clock ticker that polls a match's deadlines.
//!
//! The ticker task wakes its match at a fixed interval; after every check
//! the match answers with the interval that fits the time left on the
//! clocks, so that a match close to flagging is polled more often.

use vstd::prelude::*;

verus! {

/// Mailbox messages understood by a match's clock-ticker task.
pub enum ClockMessage {
    /// Rebuild the ticker's interval with this many milliseconds.
    IncreaseInterval(u64),
    /// Stop the ticker task.
    StopClock,
}

/// The polling interval, in milliseconds, asked of the ticker while the
/// lower of the two clocks shows `min_clock_ms` milliseconds.
pub open spec fn spec_interval_for(min_clock_ms: u64) -> u64 {
    if min_clock_ms < 10_000 {
        500
    } else if min_clock_ms < 60_000 {
        2_000
    } else if min_clock_ms < 300_000 {
        5_000
    } else {
        10_000
    }
}

/// As a clock runs down, the asked interval never loosens: the cadence
/// passes 10000, 5000, 2000 and 500 milliseconds in that order and in
/// no other.
pub proof fn lemma_interval_tightens(less: u64, more: u64)
    requires
        less <= more,
    ensures
        spec_interval_for(less) <= spec_interval_for(more),
{
}

/// Picks the ticker interval from the two remaining clocks: the side with
/// less time governs, and the interval tightens as that clock runs down.
pub fn clocks(pair: [u64; 2]) -> (interval: u64)
    ensures
        interval == spec_interval_for(if pair[1] < pair[0] {
            pair[1]
        } else {
            pair[0]
        }),
{
    let clock: u64 = if pair[1] < pair[0] {
        pair[1]
    } else {
        pair[0]
    };
    if clock < 10_000 {
        500
    } else if clock < 60_000 {
        2_000
    } else if clock < 300_000 {
        5_000
    } else {
        10_000
    }
}

} // verus!
