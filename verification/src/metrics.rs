//! The arithmetic behind the totals and the derived rates.

use vstd::prelude::*;

verus! {

/// Milliseconds in a second: times are in milliseconds, rates per second.
pub const MILLIS_PER_SECOND: i64 = 1000;

/// The sum of `a` and `b`, held at the nearest bound of `i64` where the sum
/// does not fit.
pub open spec fn sat_add(a: i64, b: i64) -> i64 {
    if a + b > i64::MAX {
        i64::MAX
    } else if a + b < i64::MIN {
        i64::MIN
    } else {
        (a + b) as i64
    }
}

/// The larger of `a` and `b`.
pub open spec fn larger(a: i64, b: i64) -> i64 {
    if a >= b {
        a
    } else {
        b
    }
}

/// The time from `start` to `end`, where `start` is not negative and not
/// after `end`; zero otherwise.
pub open spec fn span(start: i64, end: i64) -> i64 {
    if 0 <= start <= end {
        (end - start) as i64
    } else {
        0
    }
}

/// The whole seconds in `duration`.
pub open spec fn whole_seconds(duration: i64) -> int {
    duration as int / MILLIS_PER_SECOND as int
}

/// Damage per second: `total` over the whole seconds of `duration`, and zero
/// where `duration` holds no whole second or `total` is not positive.
pub open spec fn dps_of(total: i64, duration: i64) -> i64 {
    if duration >= MILLIS_PER_SECOND && total > 0 {
        (total as int / whole_seconds(duration)) as i64
    } else {
        0
    }
}

pub fn saturating_sum(a: i64, b: i64) -> (sum: i64)
    ensures
        sum == sat_add(a, b),
{
    let wide: i128 = a as i128 + b as i128;
    if wide > i64::MAX as i128 {
        i64::MAX
    } else if wide < i64::MIN as i128 {
        i64::MIN
    } else {
        wide as i64
    }
}

pub fn max_of(a: i64, b: i64) -> (max: i64)
    ensures
        max == larger(a, b),
{
    if a >= b {
        a
    } else {
        b
    }
}

pub fn elapsed(start: i64, end: i64) -> (duration: i64)
    ensures
        duration == span(start, end),
        duration >= 0,
{
    if 0 <= start && start <= end {
        end - start
    } else {
        0
    }
}

pub fn damage_per_second(total: i64, duration: i64) -> (dps: i64)
    ensures
        dps == dps_of(total, duration),
        0 <= dps,
        dps <= larger(total, 0),
{
    if duration >= MILLIS_PER_SECOND && total > 0 {
        let seconds: i64 = duration / MILLIS_PER_SECOND;
        let dps: i64 = total / seconds;
        assert(0 <= total / seconds <= total) by (nonlinear_arith)
            requires
                total > 0,
                seconds >= 1,
        ;
        dps
    } else {
        0
    }
}

/// With no whole second of fighting the rate is zero; with at least one, it
/// is the total over the whole seconds.
pub proof fn lemma_dps_of(total: i64, duration: i64)
    requires
        total >= 0,
        duration >= 0,
    ensures
        duration == 0 ==> dps_of(total, duration) == 0,
        duration >= MILLIS_PER_SECOND ==> dps_of(total, duration) == total as int
            / whole_seconds(duration),
{
    if duration >= MILLIS_PER_SECOND {
        let seconds = whole_seconds(duration);
        assert(0 <= total as int / seconds <= total) by (nonlinear_arith)
            requires
                total >= 0,
                seconds >= 1,
        ;
    }
}

} // verus!
