//! The laws of the completion streak, stated over `next_streak`, the
//! rule that `update_task_status` applies on every transition into
//! `Completed` (its contract fixes the new streak to `next_streak` and
//! the new last-completion instant to the completion instant).

use vstd::prelude::*;

use crate::time::{epoch_day, next_streak};

verus! {

/// Law: completing a task on the calendar day right after the day of the
/// previous completion extends the streak by one. In particular, a first
/// completion (no previous one) followed by a completion on the next day
/// yields a streak of 2.
pub proof fn lemma_streak_consecutive_day(
    streak0: u64,
    last0: Option<i64>,
    streak1: u64,
    now1: i64,
    now2: i64,
)
    requires
        streak1 as int == next_streak(streak0, last0, now1),
        epoch_day(now2 as int) == epoch_day(now1 as int) + 1,
    ensures
        next_streak(streak1, Some(now1), now2) == streak1 as int + 1,
        last0 is None ==> next_streak(streak1, Some(now1), now2) == 2,
{
}

/// Law: a second completion on the same calendar day as the previous one
/// resets the streak to 1, whatever it was.
pub proof fn lemma_streak_same_day(streak1: u64, now1: i64, now2: i64)
    requires
        epoch_day(now2 as int) == epoch_day(now1 as int),
    ensures
        next_streak(streak1, Some(now1), now2) == 1,
{
}

/// Law: any completion after a gap of more than one day, or out of
/// order, also resets the streak to 1: only the exact next calendar day
/// extends it.
pub proof fn lemma_streak_gap_resets(streak1: u64, now1: i64, now2: i64)
    requires
        epoch_day(now2 as int) != epoch_day(now1 as int) + 1,
    ensures
        next_streak(streak1, Some(now1), now2) == 1,
{
}

} // verus!
