//! The simulation clock: a tick interval in milliseconds, adjustable at
//! runtime in fixed steps and clamped below by a minimum that keeps the
//! event producer from busy-looping, plus the wait computation the producer
//! performs on every loop iteration.

use vstd::prelude::*;

verus! {

/// Tick interval a fresh application starts with, in milliseconds.
pub const DEFAULT_TICK_MS: u64 = 250;

/// Amount one rate-adjustment command adds to or removes from the interval,
/// in milliseconds.
pub const TICK_STEP_MS: u64 = 10;

/// Lower bound on the tick interval, in milliseconds: decreasing the rate
/// never drives the interval below this floor.
pub const MIN_TICK_MS: u64 = 30;

/// How long the producer may block on the input source before the next
/// scheduled tick: zero once the interval has already elapsed, else the
/// remainder of the interval.
pub fn time_until_next_tick(elapsed_ms: u64, tick_interval_ms: u64) -> (wait: u64)
    ensures
        wait == if elapsed_ms >= tick_interval_ms {
            0int
        } else {
            tick_interval_ms - elapsed_ms
        },
{
    if elapsed_ms >= tick_interval_ms {
        0
    } else {
        tick_interval_ms - elapsed_ms
    }
}

/// Whether the tick deadline has passed, so a Tick event is owed.
pub fn tick_due(elapsed_ms: u64, tick_interval_ms: u64) -> (due: bool)
    ensures
        due == (elapsed_ms >= tick_interval_ms),
{
    elapsed_ms >= tick_interval_ms
}

/// The interval after one increase command: one step longer, saturating at
/// the largest representable interval (there is no enforced maximum).
pub open spec fn spec_increase_tick(ms: u64) -> u64 {
    if ms + TICK_STEP_MS <= u64::MAX {
        (ms + TICK_STEP_MS) as u64
    } else {
        u64::MAX
    }
}

/// Lengthen the tick interval by one step.
pub fn increase_tick(tick_interval_ms: u64) -> (r: u64)
    ensures
        r == spec_increase_tick(tick_interval_ms),
{
    if tick_interval_ms <= u64::MAX - TICK_STEP_MS {
        tick_interval_ms + TICK_STEP_MS
    } else {
        u64::MAX
    }
}

/// The interval after one decrease command: one step shorter, clamped to
/// [`MIN_TICK_MS`].
pub open spec fn spec_decrease_tick(ms: u64) -> u64 {
    if ms - TICK_STEP_MS >= MIN_TICK_MS {
        (ms - TICK_STEP_MS) as u64
    } else {
        MIN_TICK_MS
    }
}

/// Shorten the tick interval by one step, never below the minimum.
pub fn decrease_tick(tick_interval_ms: u64) -> (r: u64)
    ensures
        r == spec_decrease_tick(tick_interval_ms),
        r >= MIN_TICK_MS,
{
    if tick_interval_ms >= MIN_TICK_MS + TICK_STEP_MS {
        tick_interval_ms - TICK_STEP_MS
    } else {
        MIN_TICK_MS
    }
}

/// Law: however often the interval is decreased, it never ends up below the
/// configured minimum.
pub proof fn lemma_tick_interval_floor(ms: u64)
    ensures
        spec_decrease_tick(ms) >= MIN_TICK_MS,
{
}

} // verus!
