//! Calendar arithmetic for the `date_format` template helper: epoch
//! milliseconds to `YYYY-MM-DD HH:MM:SS` on the proleptic Gregorian
//! calendar, walking whole years and then whole months from 1970-01-01.

use vstd::prelude::*;
use crate::text::{push_char, push_zero_padded, zero_padded};

verus! {

/// Whether `year` is a leap year of the proleptic Gregorian calendar.
pub open spec fn leap(year: int) -> bool {
    (year % 4 == 0 && year % 100 != 0) || year % 400 == 0
}

pub open spec fn year_length(year: int) -> int {
    if leap(year) {
        366
    } else {
        365
    }
}

/// Days in `month` (1 to 12) of `year`.
pub open spec fn month_length(year: int, month: int) -> int {
    if month == 2 {
        if leap(year) {
            29
        } else {
            28
        }
    } else if month == 4 || month == 6 || month == 9 || month == 11 {
        30
    } else {
        31
    }
}

/// Takes whole years off `days`, starting at `year`, while `days` still
/// covers the year in hand; gives the year reached and the days left.
pub open spec fn year_walk(year: int, days: int) -> (int, int)
    decreases days,
{
    if days < year_length(year) {
        (year, days)
    } else {
        year_walk(year + 1, days - year_length(year))
    }
}

/// Takes whole months of `year` off `days`, starting at `month`; gives the
/// month reached and the days left.
pub open spec fn month_walk(year: int, month: int, days: int) -> (int, int)
    decreases 13 - month,
{
    if month > 12 || days < month_length(year, month) {
        (month, days)
    } else {
        month_walk(year, month + 1, days - month_length(year, month))
    }
}

/// `YYYY-MM-DD HH:MM:SS` for a count of milliseconds since the epoch. The
/// day count is `floor(seconds / 86400)`; the walk starts at 1970 and only
/// goes forward, so an instant before the epoch keeps year 1970, month 1
/// and a day number of zero or below.
pub open spec fn date_time_text(millis: int) -> Seq<char> {
    let secs = millis / 1000;
    let days = secs / 86400;
    let time = secs % 86400;
    let y = year_walk(1970, days);
    let m = month_walk(y.0, 1, y.1);
    zero_padded(y.0, 4) + seq!['-'] + zero_padded(m.0, 2) + seq!['-'] + zero_padded(m.1 + 1, 2)
        + seq![' '] + zero_padded(time / 3600, 2) + seq![':'] + zero_padded((time % 3600) / 60, 2)
        + seq![':'] + zero_padded(time % 60, 2)
}

/// Leap-year rule: divisible by 4 and not by 100, or divisible by 400.
pub fn is_leap_year(year: i64) -> (r: bool)
    ensures
        r == leap(year as int),
{
    (year % 4 == 0 && year % 100 != 0) || (year % 400 == 0)
}

fn days_in_year(year: i64) -> (r: i64)
    ensures
        r == year_length(year as int),
{
    if is_leap_year(year) {
        366
    } else {
        365
    }
}

fn days_in_month(year: i64, month: i64) -> (r: i64)
    ensures
        r == month_length(year as int, month as int),
{
    if month == 2 {
        if is_leap_year(year) {
            29
        } else {
            28
        }
    } else if month == 4 || month == 6 || month == 9 || month == 11 {
        30
    } else {
        31
    }
}

/// Formats whole seconds since the epoch as `YYYY-MM-DD HH:MM:SS`.
pub fn chrono_lite_format(secs: i64) -> (r: String)
    ensures
        r@ == date_time_text(secs as int * 1000),
{
    let days: i64 = match secs.checked_div_euclid(86400) {
        Some(d) => d,
        None => 0,
    };
    let time: i64 = match secs.checked_rem_euclid(86400) {
        Some(t) => t,
        None => 0,
    };
    assert(days == secs / 86400 && time == secs % 86400);
    assert((secs as int * 1000) / 1000 == secs) by (nonlinear_arith);
    let mut year: i64 = 1970;
    let mut rest: i64 = days;
    while rest >= days_in_year(year)
        invariant
            year_walk(1970, days as int) == year_walk(year as int, rest as int),
            year >= 1970,
            (year - 1970) * 365 <= days - rest,
            rest <= days,
            rest == days || rest >= 0,
            days <= i64::MAX / 86400,
            days >= i64::MIN / 86400,
        decreases rest,
    {
        rest = rest - days_in_year(year);
        year = year + 1;
    }
    let mut month: i64 = 1;
    while month <= 12 && rest >= days_in_month(year, month)
        invariant
            month_walk(year as int, 1, year_walk(1970, days as int).1) == month_walk(
                year as int,
                month as int,
                rest as int,
            ),
            1 <= month <= 13,
            rest == days || rest >= 0,
            rest < 367,
            days >= i64::MIN / 86400,
        decreases 13 - month,
    {
        rest = rest - days_in_month(year, month);
        month = month + 1;
    }
    let mut out = String::new();
    push_zero_padded(&mut out, year, 4);
    push_char(&mut out, '-');
    push_zero_padded(&mut out, month, 2);
    push_char(&mut out, '-');
    push_zero_padded(&mut out, rest + 1, 2);
    push_char(&mut out, ' ');
    push_zero_padded(&mut out, time / 3600, 2);
    push_char(&mut out, ':');
    push_zero_padded(&mut out, (time % 3600) / 60, 2);
    push_char(&mut out, ':');
    push_zero_padded(&mut out, time % 60, 2);
    out
}

/// The `date_format` helper: milliseconds since the epoch as
/// `YYYY-MM-DD HH:MM:SS`. The format argument is accepted and not used.
pub fn date_format(timestamp: i64, format: &str) -> (r: String)
    ensures
        r@ == date_time_text(timestamp as int),
{
    let secs: i64 = match timestamp.checked_div_euclid(1000) {
        Some(s) => s,
        None => 0,
    };
    assert(secs == timestamp / 1000);
    let r = chrono_lite_format(secs);
    assert((secs as int * 1000) / 1000 == secs) by (nonlinear_arith);
    r
}

} // verus!
