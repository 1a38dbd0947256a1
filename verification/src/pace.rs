//! The rate cap of the dispatch loop: at most 128 ticks per second.
//!
//! Times are nanoseconds of a monotonic clock that the host reads.

use vstd::prelude::*;

verus! {

pub const TICKS_PER_SECOND: u64 = 128;

/// The least duration of a tick, in nanoseconds: 1/128 second.
pub const TICK_PERIOD: u64 = 7_812_500;

/// The time from `start` to `now`, zero where the clock reads `now` before
/// `start`.
pub open spec fn spec_elapsed(start: u64, now: u64) -> u64 {
    if now >= start {
        (now - start) as u64
    } else {
        0
    }
}

/// How long a tick that has taken `elapsed` still has to sleep: the rest of
/// the period, or `None` where the period is used up.
pub open spec fn spec_rest(elapsed: u64) -> Option<u64> {
    if elapsed < TICK_PERIOD {
        Some((TICK_PERIOD - elapsed) as u64)
    } else {
        None
    }
}

#[verifier::when_used_as_spec(spec_elapsed)]
pub fn elapsed(start: u64, now: u64) -> (span: u64)
    ensures
        span == spec_elapsed(start, now),
{
    if now >= start {
        now - start
    } else {
        0
    }
}

#[verifier::when_used_as_spec(spec_rest)]
pub fn rest(elapsed: u64) -> (sleep: Option<u64>)
    ensures
        sleep == spec_rest(elapsed),
{
    if elapsed < TICK_PERIOD {
        Some(TICK_PERIOD - elapsed)
    } else {
        None
    }
}

/// The period is the 128th part of a second. A tick that sleeps lasts the
/// period exactly, work and sleep together, and sleeps for a positive time;
/// a tick that does not sleep has already lasted the period or longer.
pub proof fn tick_fills_the_period(elapsed: u64)
    ensures
        TICK_PERIOD * TICKS_PER_SECOND == 1_000_000_000,
        match rest(elapsed) {
            Some(sleep) => elapsed + sleep == TICK_PERIOD && sleep > 0,
            None => elapsed >= TICK_PERIOD,
        },
{
}

} // verus!
