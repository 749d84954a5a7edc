//! Actuation timing: from a repetition rate and a duty cycle, derive the
//! period of one press/release cycle and how it is split into an "on"
//! (pressed) part and an "off" (idle) part.
//!
//! Rates and duty cycles are fixed-point decimals: a rate is counted in
//! units of 1e-12 actuations per second, a duty cycle in units of 1e-12
//! percent. Durations are whole nanoseconds. The laws proved here:
//! the on and off parts always partition the period exactly; the on part
//! never falls below the minimum press floor while the period allows it;
//! and the off part is never negative.

use vstd::prelude::*;
use vstd::arithmetic::div_mod::{
    lemma_div_is_ordered, lemma_div_nonincreasing, lemma_div_by_self, lemma_multiply_divide_le,
};
use vstd::arithmetic::mul::{lemma_mul_inequality, lemma_mul_is_commutative};

verus! {

/// Fixed-point scale: how many stored units make one actuation per second
/// (or one percent of duty cycle).
pub const PICOS_PER_UNIT: u64 = 1_000_000_000_000;

/// A duty cycle of 100 percent, in fixed-point units.
pub const DUTY_FULL: u64 = 100_000_000_000_000;

/// Substituted for a rate of zero: 0.1 actuations per second.
pub const RATE_FLOOR: u64 = 100_000_000_000;

/// The minimum observable press duration: 1 millisecond, in nanoseconds.
pub const MIN_PRESS_NS: u128 = 1_000_000;

/// Nanoseconds per second times the fixed-point scale, so that
/// `PERIOD_DIVIDEND / rate` is the period of one cycle in nanoseconds.
pub const PERIOD_DIVIDEND: u128 = 1_000_000_000_000_000_000_000;

/// The rate actually used for timing: a non-positive configured rate is
/// floored to `RATE_FLOOR` rather than dividing by zero.
pub open spec fn effective_rate(rate: u64) -> u64 {
    if rate > 0 {
        rate
    } else {
        RATE_FLOOR
    }
}

/// The configured duty cycle clamped to at most 100 percent.
pub open spec fn clamped_duty(duty: u64) -> u64 {
    if duty > DUTY_FULL {
        DUTY_FULL
    } else {
        duty
    }
}

/// Period of one actuation cycle in nanoseconds.
pub open spec fn period_ns(rate: u64) -> int {
    PERIOD_DIVIDEND as int / effective_rate(rate) as int
}

/// The duty-derived press duration before any clamping.
pub open spec fn raw_on_ns(rate: u64, duty: u64) -> int {
    period_ns(rate) * clamped_duty(duty) as int / DUTY_FULL as int
}

/// Press duration: the duty-derived duration raised to the minimum press
/// floor, then capped at the full period.
pub open spec fn on_ns(rate: u64, duty: u64) -> int {
    let raised = if raw_on_ns(rate, duty) < MIN_PRESS_NS as int {
        MIN_PRESS_NS as int
    } else {
        raw_on_ns(rate, duty)
    };
    if raised > period_ns(rate) {
        period_ns(rate)
    } else {
        raised
    }
}

/// Idle duration: whatever the press leaves of the period.
pub open spec fn off_ns(rate: u64, duty: u64) -> int {
    period_ns(rate) - on_ns(rate, duty)
}

/// One cycle's timing, in whole nanoseconds.
pub struct Timing {
    pub period_ns: u128,
    pub on_ns: u128,
    pub off_ns: u128,
}

/// The period is bounded: at least one nanosecond (every representable rate
/// is below `PERIOD_DIVIDEND`) and at most `PERIOD_DIVIDEND` nanoseconds.
proof fn lemma_period_bounds(rate: u64)
    ensures
        1 <= period_ns(rate) <= PERIOD_DIVIDEND,
{
    let eff = effective_rate(rate) as int;
    assert(0 < eff <= u64::MAX);
    lemma_div_nonincreasing(PERIOD_DIVIDEND as int, eff);
    lemma_div_by_self(eff);
    lemma_div_is_ordered(eff, PERIOD_DIVIDEND as int, eff);
}

/// The duty-derived press duration never exceeds the period.
proof fn lemma_raw_on_le_period(rate: u64, duty: u64)
    ensures
        0 <= raw_on_ns(rate, duty) <= period_ns(rate),
{
    let p = period_ns(rate);
    let d = clamped_duty(duty) as int;
    let full = DUTY_FULL as int;
    lemma_period_bounds(rate);
    assert(0 <= p * d) by (nonlinear_arith)
        requires
            0 <= p,
            0 <= d,
    ;
    lemma_mul_inequality(d, full, p);
    lemma_mul_is_commutative(d, p);
    lemma_mul_is_commutative(full, p);
    lemma_multiply_divide_le(p * d, full, p);
}

/// The on and off durations partition the period exactly, and the on
/// duration equals its clamp bound exactly whenever a clamp applies:
/// the duty-derived value when no clamp applies, the minimum press floor
/// when the duty-derived value falls short of it, and the full period when
/// the period itself is shorter than the floor.
pub proof fn lemma_on_off_partition(rate: u64, duty: u64)
    ensures
        on_ns(rate, duty) + off_ns(rate, duty) == period_ns(rate),
        raw_on_ns(rate, duty) >= MIN_PRESS_NS as int ==> on_ns(rate, duty) == raw_on_ns(
            rate,
            duty,
        ),
        raw_on_ns(rate, duty) < MIN_PRESS_NS as int && period_ns(rate) >= MIN_PRESS_NS as int
            ==> on_ns(rate, duty) == MIN_PRESS_NS as int,
        period_ns(rate) < MIN_PRESS_NS as int ==> on_ns(rate, duty) == period_ns(rate),
{
    lemma_raw_on_le_period(rate, duty);
}

/// The press duration never falls below the minimum press floor, even when
/// the duty-derived duration would be shorter — provided the period itself
/// is at least the floor.
pub proof fn lemma_on_at_least_min_press(rate: u64, duty: u64)
    requires
        period_ns(rate) >= MIN_PRESS_NS as int,
    ensures
        on_ns(rate, duty) >= MIN_PRESS_NS as int,
{
    lemma_raw_on_le_period(rate, duty);
}

/// The idle duration is never negative, and never exceeds the period.
pub proof fn lemma_off_nonnegative(rate: u64, duty: u64)
    ensures
        0 <= off_ns(rate, duty) <= period_ns(rate),
{
    lemma_raw_on_le_period(rate, duty);
    lemma_period_bounds(rate);
}

/// Derive one cycle's timing from the configured rate and duty cycle.
/// A rate of zero is floored to `RATE_FLOOR`; a duty cycle above 100
/// percent is clamped to 100 percent.
pub fn compute_timing(rate: u64, duty: u64) -> (t: Timing)
    ensures
        t.period_ns == period_ns(rate),
        t.on_ns == on_ns(rate, duty),
        t.off_ns == off_ns(rate, duty),
        t.on_ns + t.off_ns == t.period_ns,
        t.on_ns <= t.period_ns,
        t.period_ns >= 1,
{
    let eff: u64 = if rate > 0 {
        rate
    } else {
        RATE_FLOOR
    };
    proof {
        lemma_period_bounds(rate);
        lemma_raw_on_le_period(rate, duty);
    }
    let period: u128 = PERIOD_DIVIDEND / (eff as u128);
    let duty_c: u64 = if duty > DUTY_FULL {
        DUTY_FULL
    } else {
        duty
    };
    proof {
        lemma_mul_inequality(duty_c as int, DUTY_FULL as int, period as int);
        lemma_mul_inequality(period as int, PERIOD_DIVIDEND as int, DUTY_FULL as int);
        lemma_mul_is_commutative(duty_c as int, period as int);
        lemma_mul_is_commutative(period as int, DUTY_FULL as int);
    }
    let raw: u128 = period * (duty_c as u128) / (DUTY_FULL as u128);
    let raised: u128 = if raw < MIN_PRESS_NS {
        MIN_PRESS_NS
    } else {
        raw
    };
    let on: u128 = if raised > period {
        period
    } else {
        raised
    };
    let off: u128 = period - on;
    Timing { period_ns: period, on_ns: on, off_ns: off }
}

} // verus!
