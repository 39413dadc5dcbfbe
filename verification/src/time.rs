//! Calendar-day bucketing of timestamps and the completion-streak rule.
//!
//! A timestamp is seconds since the epoch, signed. Its calendar day is
//! the floor of the timestamp over the seconds of one day, so that every
//! instant of one UTC day falls in the same bucket, also before the epoch.

use vstd::prelude::*;

use vstd::arithmetic::div_mod::lemma_div_is_ordered;

verus! {

/// Seconds in one calendar day.
pub const SECONDS_PER_DAY: u64 = 86400;

/// The day bucket of the earliest representable timestamp.
pub const MIN_EPOCH_DAY: i64 = -106751991167301;

/// The day bucket of the latest representable timestamp.
pub const MAX_EPOCH_DAY: i64 = 106751991167300;

/// The calendar day a timestamp falls on: the floor of `t / 86400`.
pub open spec fn epoch_day(t: int) -> int {
    t / (SECONDS_PER_DAY as int)
}

/// Every representable timestamp falls on a day between the two bounds.
pub proof fn lemma_epoch_day_bounds(t: int)
    requires
        i64::MIN <= t <= i64::MAX,
    ensures
        MIN_EPOCH_DAY as int <= epoch_day(t) <= MAX_EPOCH_DAY as int,
{
    lemma_div_is_ordered(i64::MIN as int, t, SECONDS_PER_DAY as int);
    lemma_div_is_ordered(t, i64::MAX as int, SECONDS_PER_DAY as int);
}

/// Computes the calendar day of a timestamp.
pub fn epoch_day_of(t: i64) -> (d: i64)
    ensures
        d as int == epoch_day(t as int),
        MIN_EPOCH_DAY <= d <= MAX_EPOCH_DAY,
{
    proof {
        lemma_epoch_day_bounds(t as int);
    }
    match t.checked_div_euclid(SECONDS_PER_DAY as i64) {
        Some(d) => d,
        None => 0,  // unreachable: the quotient is within the day bounds
    }
}

/// The streak value after a completion at instant `now`, given the
/// previous streak and the previous completion instant: one more than
/// before when the previous completion fell on the day immediately
/// before `now`'s day, and 1 otherwise, a gap or a same-day repeat
/// both resetting the count.
pub open spec fn next_streak(streak: u64, last: Option<i64>, now: i64) -> int {
    match last {
        Some(prev) => if epoch_day(prev as int) == epoch_day(now as int) - 1 {
            streak as int + 1
        } else {
            1
        },
        None => 1,
    }
}

} // verus!
