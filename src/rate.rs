use vstd::arithmetic::div_mod::lemma_div_is_ordered_by_denominator;
use vstd::prelude::*;

verus! {

/// Shortest interval, in milliseconds, that a rate is ever divided by.
pub const MIN_ELAPSED_MS: u64 = 100;

/// The amount a cumulative counter grew by; a counter that went backwards grew by nothing.
pub open spec fn counter_delta(current: u64, previous: u64) -> nat {
    if current >= previous {
        (current - previous) as nat
    } else {
        0
    }
}

/// The interval actually divided by: the elapsed time, but never less than the floor.
pub open spec fn effective_elapsed_ms(elapsed_ms: u64) -> nat {
    if elapsed_ms < MIN_ELAPSED_MS {
        MIN_ELAPSED_MS as nat
    } else {
        elapsed_ms as nat
    }
}

/// Per-second rate of a counter, capped at the largest `u64`.
pub open spec fn rate_of(current: u64, previous: u64, elapsed_ms: u64) -> nat {
    let r = counter_delta(current, previous) * 1000 / effective_elapsed_ms(elapsed_ms);
    if r > u64::MAX {
        u64::MAX as nat
    } else {
        r
    }
}

/// Bytes per second between two readings of a cumulative counter taken
/// `elapsed_ms` milliseconds apart.
pub fn calculate_rate(current: u64, previous: u64, elapsed_ms: u64) -> (r: u64)
    ensures
        r as nat == rate_of(current, previous, elapsed_ms),
        current < previous ==> r == 0,
{
    let delta: u64 = current.saturating_sub(previous);
    let elapsed: u64 = if elapsed_ms < MIN_ELAPSED_MS { MIN_ELAPSED_MS } else { elapsed_ms };
    let scaled: u128 = (delta as u128) * 1000;
    let r: u128 = scaled / (elapsed as u128);
    if r > u64::MAX as u128 {
        u64::MAX
    } else {
        r as u64
    }
}

/// A rate is never negative; it is zero when the counter did not grow
/// (a reset reads as no traffic); an interval below the floor counts as the
/// floor; and no rate exceeds the growth divided by the floor.
pub proof fn lemma_rate_properties(current: u64, previous: u64, elapsed_ms: u64)
    ensures
        rate_of(current, previous, elapsed_ms) >= 0,
        current <= previous ==> rate_of(current, previous, elapsed_ms) == 0,
        elapsed_ms < MIN_ELAPSED_MS ==> rate_of(current, previous, elapsed_ms) == rate_of(
            current,
            previous,
            MIN_ELAPSED_MS,
        ),
        rate_of(current, previous, elapsed_ms) <= counter_delta(current, previous) * 1000 / (
        MIN_ELAPSED_MS as nat),
{
    let d = counter_delta(current, previous) * 1000;
    let e = effective_elapsed_ms(elapsed_ms);
    lemma_div_is_ordered_by_denominator(d as int, MIN_ELAPSED_MS as int, e as int);
}

} // verus!
