//! Tick cadence: how long the tick driver sleeps between ticks.
//!
//! The game speeds up the longer a session runs. The interval between ticks
//! follows a logarithmic curve of the elapsed wall-clock time, clamped to at
//! most one second. All quantities here are fixed-point with a scale of 1000:
//! times are in milliseconds, and a logarithm value `l` stands for `l / 1000`.
//! The one transcendental step, taking the base-10 logarithm of the clamped
//! elapsed time, cannot be computed here and is supplied by the caller as a
//! scaled integer; everything before and after that step is verified.

use vstd::prelude::*;

verus! {

/// Elapsed times at or below this are clamped up before the logarithm is
/// taken, which pins the cadence to exactly one tick per second early on.
pub const BASE_ELAPSED_MILLIS: u64 = 10_000;

/// Fixed-point scale of the logarithm argument passed to [`sleep_millis`].
/// The logarithm is taken base 10, the base of the clamp, so the scaled
/// logarithm of a clamped elapsed time is never below `LOG_SCALE`.
pub const LOG_SCALE: u64 = 1_000;

/// Speed multiplier, scaled by 1000: stands for 1.2. Higher is slower.
pub const SPEED_MULTIPLIER_MILLIS: u64 = 1_200;

/// Longest permitted sleep between ticks: one second.
pub const MAX_SLEEP_MILLIS: u64 = 1_000;

/// `SPEED_MULTIPLIER_MILLIS * LOG_SCALE`: the numerator of the cadence
/// quotient once both operands carry the fixed-point scale.
pub const SCALED_MULTIPLIER: u64 = 1_200_000;

/// The elapsed time actually fed to the logarithm: clamped from below so the
/// log factor never drops under 1 and the early game runs at full cadence.
pub open spec fn effective_elapsed_spec(elapsed_millis: nat) -> nat {
    if elapsed_millis < BASE_ELAPSED_MILLIS { BASE_ELAPSED_MILLIS as nat } else { elapsed_millis }
}

/// Sleep interval in milliseconds for a scaled log factor `lf`:
/// `min(1 second, SPEED_MULTIPLIER / (lf / LOG_SCALE))`. A log factor of 0
/// cannot arise from a clamped elapsed time; it is mapped to the clamp value,
/// as every log factor below `LOG_SCALE` already is by the minimum.
pub open spec fn sleep_millis_spec(log_factor_millis: nat) -> nat {
    if log_factor_millis == 0 {
        MAX_SLEEP_MILLIS as nat
    } else if SCALED_MULTIPLIER as nat / log_factor_millis > MAX_SLEEP_MILLIS as nat {
        MAX_SLEEP_MILLIS as nat
    } else {
        SCALED_MULTIPLIER as nat / log_factor_millis
    }
}

/// Clamps the elapsed time before the logarithm is taken.
pub fn effective_elapsed_millis(elapsed_millis: u64) -> (r: u64)
    ensures
        r == effective_elapsed_spec(elapsed_millis as nat),
        r >= BASE_ELAPSED_MILLIS,
{
    if elapsed_millis < BASE_ELAPSED_MILLIS {
        BASE_ELAPSED_MILLIS
    } else {
        elapsed_millis
    }
}

/// Computes the sleep interval from the scaled log factor of the clamped
/// elapsed time.
pub fn sleep_millis(log_factor_millis: u64) -> (r: u64)
    ensures
        r == sleep_millis_spec(log_factor_millis as nat),
{
    if log_factor_millis == 0 {
        MAX_SLEEP_MILLIS
    } else {
        let q: u64 = SCALED_MULTIPLIER / log_factor_millis;
        if q > MAX_SLEEP_MILLIS {
            MAX_SLEEP_MILLIS
        } else {
            q
        }
    }
}

/// Law: below the clamp the cadence is pinned. Any elapsed time of at most
/// `BASE_ELAPSED_MILLIS` is clamped to exactly `BASE_ELAPSED_MILLIS`, whose
/// scaled base-10 logarithm is exactly `LOG_SCALE`, and at that log factor
/// the sleep interval is exactly the maximum: one tick per second.
pub proof fn lemma_cadence_pinned_below_base(elapsed_millis: nat)
    requires
        elapsed_millis <= BASE_ELAPSED_MILLIS,
    ensures
        effective_elapsed_spec(elapsed_millis) == BASE_ELAPSED_MILLIS,
        sleep_millis_spec(LOG_SCALE as nat) == MAX_SLEEP_MILLIS,
{
}

/// Law: the cadence never stalls and never outruns the clamp. For any log
/// factor a machine-sized elapsed time can produce, the sleep interval is
/// strictly positive and at most one second.
pub proof fn lemma_sleep_bounds(log_factor_millis: nat)
    requires
        log_factor_millis <= SCALED_MULTIPLIER,
    ensures
        0 < sleep_millis_spec(log_factor_millis) <= MAX_SLEEP_MILLIS,
{
    if log_factor_millis != 0 {
        if log_factor_millis <= SCALED_MULTIPLIER {
            vstd::arithmetic::div_mod::lemma_div_non_zero(
                SCALED_MULTIPLIER as int,
                log_factor_millis as int,
            );
        }
    }
}

/// Law: the clamp keeps elapsed times in order, so a later poll never feeds
/// the logarithm a smaller argument than an earlier one.
pub proof fn lemma_effective_elapsed_monotone(e1: nat, e2: nat)
    requires
        e1 <= e2,
    ensures
        effective_elapsed_spec(e1) <= effective_elapsed_spec(e2),
{
}

/// Law: the game only speeds up. A larger log factor (a longer session)
/// never yields a longer sleep interval, so since the logarithm itself is
/// monotone, a later poll never yields a longer sleep than an earlier one.
pub proof fn lemma_sleep_monotone(lf1: nat, lf2: nat)
    requires
        lf1 <= lf2,
    ensures
        sleep_millis_spec(lf2) <= sleep_millis_spec(lf1),
{
    if lf1 == 0 {
        if lf2 != 0 {
            assert(sleep_millis_spec(lf2) <= MAX_SLEEP_MILLIS as nat);
        }
    } else {
        vstd::arithmetic::div_mod::lemma_div_is_ordered_by_denominator(
            SCALED_MULTIPLIER as int,
            lf1 as int,
            lf2 as int,
        );
    }
}

} // verus!
