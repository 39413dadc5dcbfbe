//! Rendering of the notification messages: decimal numbers and the fixed
//! message shapes around a task title.
//!
//! The due-date shape deliberately uses a simplified calendar: years of a
//! flat 365 days and months of a flat 30 days. Downstream consumers rely
//! on these exact strings, so the arithmetic is reproduced as stated
//! rather than replaced by a real calendar.

use vstd::prelude::*;

use crate::time::{epoch_day, MAX_EPOCH_DAY, MIN_EPOCH_DAY, SECONDS_PER_DAY};
use vstd::arithmetic::div_mod::lemma_div_is_ordered;
use vstd::string::{StrSliceExecFns, StringExecFns};

verus! {

/// The character for one decimal digit value.
pub open spec fn digit_char(d: int) -> char {
    if d == 0 {
        '0'
    } else if d == 1 {
        '1'
    } else if d == 2 {
        '2'
    } else if d == 3 {
        '3'
    } else if d == 4 {
        '4'
    } else if d == 5 {
        '5'
    } else if d == 6 {
        '6'
    } else if d == 7 {
        '7'
    } else if d == 8 {
        '8'
    } else {
        '9'
    }
}

/// The decimal digits of a natural number, most significant first,
/// without a sign and without leading zeros (except for zero itself).
pub open spec fn dec_digits(n: nat) -> Seq<char>
    decreases n,
{
    if n < 10 {
        seq![digit_char(n as int)]
    } else {
        dec_digits(n / 10) + seq![digit_char((n % 10) as int)]
    }
}

/// The decimal rendering of an integer, with a leading minus sign when
/// it is negative.
pub open spec fn int_str(n: int) -> Seq<char> {
    if n < 0 {
        seq!['-'] + dec_digits((-n) as nat)
    } else {
        dec_digits(n as nat)
    }
}

/// The decimal rendering of an integer, padded on the left with one
/// zero to at least two digits.
pub open spec fn pad2(n: int) -> Seq<char> {
    if 0 <= n < 10 {
        seq!['0'] + dec_digits(n as nat)
    } else {
        int_str(n)
    }
}

/// The headline a new assignee receives when a task is created for them.
pub open spec fn assigned_message(title: Seq<char>) -> Seq<char> {
    "New Task Assigned: "@ + title
}

/// The headline the new assignee receives when a task is reassigned.
pub open spec fn reassigned_message(title: Seq<char>) -> Seq<char> {
    "Task Reassigned: "@ + title
}

/// The due-date reminder shape used beyond a three-day horizon: day,
/// zero-padded month and year from the flat 365/30 approximation.
pub open spec fn due_date_message(title: Seq<char>, deadline: int) -> Seq<char> {
    let days_since_epoch = epoch_day(deadline);
    let year = 1970 + days_since_epoch / 365;
    let day_of_year = days_since_epoch % 365;
    let month = day_of_year / 30 + 1;
    let day = day_of_year % 30 + 1;
    "Task '"@ + title + "' is due on "@ + dec_digits(day as nat) + "-"@ + pad2(month) + "-"@
        + int_str(year)
}

/// The reminder message for a deadline strictly in the future: an
/// urgency phrase within a three-day horizon, the due-date shape beyond.
pub open spec fn reminder_message(title: Seq<char>, deadline: int, now: int) -> Seq<char> {
    let days_until = (deadline - now) / (SECONDS_PER_DAY as int);
    if days_until == 0 {
        "URGENT: Task '"@ + title + "' is due today!"@
    } else if days_until == 1 {
        "Task '"@ + title + "' is due tomorrow!"@
    } else if 2 <= days_until <= 3 {
        "Task '"@ + title + "' is due in "@ + dec_digits(days_until as nat) + " days"@
    } else {
        due_date_message(title, deadline)
    }
}

/// The one-character string for a decimal digit value.
fn digit_str(d: u64) -> (s: &'static str)
    requires
        d < 10,
    ensures
        s@ == seq![digit_char(d as int)],
{
    let s: &'static str = match d {
        0 => "0",
        1 => "1",
        2 => "2",
        3 => "3",
        4 => "4",
        5 => "5",
        6 => "6",
        7 => "7",
        8 => "8",
        _ => "9",
    };
    proof {
        reveal_strlit("0");
        reveal_strlit("1");
        reveal_strlit("2");
        reveal_strlit("3");
        reveal_strlit("4");
        reveal_strlit("5");
        reveal_strlit("6");
        reveal_strlit("7");
        reveal_strlit("8");
        reveal_strlit("9");
        assert(s@ =~= seq![digit_char(d as int)]);
    }
    s
}

/// Appends the decimal digits of `n` to `s`.
fn push_decimal(s: &mut String, n: u64)
    ensures
        final(s)@ == old(s)@ + dec_digits(n as nat),
    decreases n,
{
    if n < 10 {
        s.append(digit_str(n));
    } else {
        push_decimal(s, n / 10);
        s.append(digit_str(n % 10));
        proof {
            assert(s@ =~= old(s)@ + dec_digits(n as nat));
        }
    }
}

/// Appends the signed decimal rendering of `n` to `s`.
fn push_int(s: &mut String, n: i64)
    ensures
        final(s)@ == old(s)@ + int_str(n as int),
{
    if n >= 0 {
        push_decimal(s, n as u64);
    } else {
        s.append("-");
        let m: u64 = ((-(n + 1)) as u64) + 1;
        assert(m as int == -(n as int));
        push_decimal(s, m);
        proof {
            reveal_strlit("-");
            assert("-"@ =~= seq!['-']);
            assert(s@ =~= old(s)@ + int_str(n as int));
        }
    }
}

/// Appends the zero-padded two-digit rendering of `n` to `s`.
fn push_pad2(s: &mut String, n: u64)
    ensures
        final(s)@ == old(s)@ + pad2(n as int),
{
    if n < 10 {
        s.append("0");
        proof {
            reveal_strlit("0");
            assert("0"@ =~= seq!['0']);
        }
        push_decimal(s, n);
        proof {
            assert(s@ =~= old(s)@ + pad2(n as int));
        }
    } else {
        push_decimal(s, n);
    }
}

/// Builds the headline for a task newly created with an assignee.
pub fn format_assigned_message(title: &str) -> (m: String)
    ensures
        m@ == assigned_message(title@),
{
    let mut m = String::from_str("New Task Assigned: ");
    m.append(title);
    m
}

/// Builds the headline for a reassigned task.
pub fn format_reassigned_message(title: &str) -> (m: String)
    ensures
        m@ == reassigned_message(title@),
{
    let mut m = String::from_str("Task Reassigned: ");
    m.append(title);
    m
}

/// Builds the reminder message for a deadline strictly in the future.
pub fn format_reminder_message(title: &str, deadline: i64, now: i64) -> (m: String)
    requires
        deadline > now,
    ensures
        m@ == reminder_message(title@, deadline as int, now as int),
{
    let diff: i128 = deadline as i128 - now as i128;
    let days_until: i128 = match diff.checked_div_euclid(SECONDS_PER_DAY as i128) {
        Some(d) => d,
        None => 0,  // unreachable: the quotient of two i64-range values fits
    };
    assert(days_until as int == (deadline as int - now as int) / (SECONDS_PER_DAY as int)) by {
        lemma_div_is_ordered(0, diff as int, SECONDS_PER_DAY as int);
        lemma_div_is_ordered(diff as int, i128::MAX as int, SECONDS_PER_DAY as int);
    };
    if days_until == 0 {
        let mut m = String::from_str("URGENT: Task '");
        m.append(title);
        m.append("' is due today!");
        m
    } else if days_until == 1 {
        let mut m = String::from_str("Task '");
        m.append(title);
        m.append("' is due tomorrow!");
        m
    } else if days_until <= 3 {
        let mut m = String::from_str("Task '");
        m.append(title);
        m.append("' is due in ");
        push_decimal(&mut m, days_until as u64);
        m.append(" days");
        proof {
            assert(m@ =~= reminder_message(title@, deadline as int, now as int));
        }
        m
    } else {
        let days_since_epoch: i64 = crate::time::epoch_day_of(deadline);
        let year_offset: i64 = match days_since_epoch.checked_div_euclid(365) {
            Some(q) => q,
            None => 0,  // unreachable: the quotient is within the day bounds
        };
        proof {
            lemma_div_is_ordered(MIN_EPOCH_DAY as int, days_since_epoch as int, 365);
            lemma_div_is_ordered(days_since_epoch as int, MAX_EPOCH_DAY as int, 365);
        }
        let year: i64 = 1970 + year_offset;
        let day_of_year: u64 = match days_since_epoch.checked_rem_euclid(365) {
            Some(r) => r as u64,
            None => 0,  // unreachable: the divisor is positive
        };
        let month: u64 = day_of_year / 30 + 1;
        let day: u64 = day_of_year % 30 + 1;
        let mut m = String::from_str("Task '");
        m.append(title);
        m.append("' is due on ");
        push_decimal(&mut m, day);
        m.append("-");
        push_pad2(&mut m, month);
        m.append("-");
        push_int(&mut m, year);
        proof {
            assert(m@ =~= reminder_message(title@, deadline as int, now as int));
        }
        m
    }
}

} // verus!
