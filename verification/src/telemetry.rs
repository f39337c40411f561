//! Continuous-strobe telemetry: a diagnostic mode in which the emitters
//! blink on a fixed cadence, independent of any consumer of readings.
//!
//! This mode feeds nothing back into steering. It is an alternative to the
//! control loop, never a companion of it.

use vstd::prelude::*;

verus! {

/// How long the emitters stay on in each period, in milliseconds.
pub const STROBE_ON_MS: u64 = 100;

/// How long the emitters stay off in each period, in milliseconds.
pub const STROBE_OFF_MS: u64 = 100;

/// Length of one period, in milliseconds.
pub const STROBE_PERIOD_MS: u64 = STROBE_ON_MS + STROBE_OFF_MS;

/// Whether the emitters are on at a time since the start of the mode: on for
/// the first part of every period, off for the rest.
pub open spec fn strobe_lit(elapsed_ms: int) -> bool {
    elapsed_ms % (STROBE_PERIOD_MS as int) < STROBE_ON_MS
}

/// Time from `elapsed_ms` to the next switch of the emitters.
pub open spec fn strobe_remaining(elapsed_ms: int) -> int {
    let phase = elapsed_ms % (STROBE_PERIOD_MS as int);
    if phase < STROBE_ON_MS {
        STROBE_ON_MS - phase
    } else {
        STROBE_PERIOD_MS - phase
    }
}

/// Whether the emitters are on at `elapsed_ms` after the start of the mode.
pub fn emitters_lit_at(elapsed_ms: u64) -> (lit: bool)
    ensures
        lit == strobe_lit(elapsed_ms as int),
{
    elapsed_ms % STROBE_PERIOD_MS < STROBE_ON_MS
}

/// How many milliseconds after `elapsed_ms` the emitters switch next.
pub fn until_next_switch(elapsed_ms: u64) -> (wait_ms: u64)
    ensures
        wait_ms == strobe_remaining(elapsed_ms as int),
        0 < wait_ms,
        wait_ms <= STROBE_ON_MS || wait_ms <= STROBE_OFF_MS,
{
    let phase = elapsed_ms % STROBE_PERIOD_MS;
    if phase < STROBE_ON_MS {
        STROBE_ON_MS - phase
    } else {
        STROBE_PERIOD_MS - phase
    }
}

/// The cadence: the emitters are on from the start of the mode, the pattern
/// repeats with every period, and the emitters hold their state until the
/// next switch, where they change it.
pub proof fn lemma_strobe_cadence(elapsed_ms: int, within: int)
    requires
        0 <= elapsed_ms,
        0 <= within,
    ensures
        strobe_lit(0),
        strobe_lit(elapsed_ms + STROBE_PERIOD_MS) == strobe_lit(elapsed_ms),
        within < strobe_remaining(elapsed_ms) ==> strobe_lit(elapsed_ms + within) == strobe_lit(
            elapsed_ms,
        ),
        strobe_lit(elapsed_ms + strobe_remaining(elapsed_ms)) == !strobe_lit(elapsed_ms),
{
}

} // verus!
