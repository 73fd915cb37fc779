//! Conversion of a Unix time in milliseconds into the broken-down UTC calendar
//! fields that the Windows system clock is set with.

use vstd::prelude::*;

verus! {

/// Broken-down UTC time, field for field as the Windows `SYSTEMTIME`
/// structure holds it.
#[derive(Clone, Copy, Debug, PartialEq, Eq, Structural)]
pub struct WindowsSystemTime {
    pub year: u16,
    pub month: u16,
    pub day_of_week: u16,
    pub day: u16,
    pub hour: u16,
    pub minute: u16,
    pub second: u16,
    pub milliseconds: u16,
}

/// Gregorian leap-year rule.
pub open spec fn is_leap_year(y: int) -> bool {
    y % 4 == 0 && (y % 100 != 0 || y % 400 == 0)
}

pub open spec fn days_in_year(y: int) -> int {
    if is_leap_year(y) {
        366
    } else {
        365
    }
}

/// Length of month `m` (1 = January) of year `y`.
pub open spec fn days_in_month(y: int, m: int) -> int {
    if m == 2 {
        if is_leap_year(y) {
            29
        } else {
            28
        }
    } else if m == 4 || m == 6 || m == 9 || m == 11 {
        30
    } else {
        31
    }
}

/// Days from 1970-01-01 to the first day of year `y` (for `y >= 1970`).
pub open spec fn days_before_year(y: int) -> int
    decreases y - 1970,
{
    if y <= 1970 {
        0
    } else {
        days_before_year(y - 1) + days_in_year(y - 1)
    }
}

/// Days from the first of January to the first day of month `m` of year `y`.
pub open spec fn days_before_month(y: int, m: int) -> int
    decreases m,
{
    if m <= 1 {
        0
    } else {
        days_before_month(y, m - 1) + days_in_month(y, m - 1)
    }
}

/// Days from 1970-01-01 to the date `y-m-d`.
pub open spec fn days_from_civil(y: int, m: int, d: int) -> int {
    days_before_year(y) + days_before_month(y, m) + d - 1
}

/// Walks whole years off `rem` days counted from the start of year `y`:
/// the year that the day falls in, and the day's index inside it.
pub open spec fn year_split(rem: int, y: int) -> (int, int)
    decreases rem,
{
    if rem < days_in_year(y) {
        (y, rem)
    } else {
        year_split(rem - days_in_year(y), y + 1)
    }
}

/// Walks whole months off `rem` days counted from the start of month `m` of
/// year `y`, giving up after December.
pub open spec fn month_split(rem: int, y: int, m: int) -> (int, int)
    decreases 13 - m,
{
    if m > 12 || rem < days_in_month(y, m) {
        (m, rem)
    } else {
        month_split(rem - days_in_month(y, m), y, m + 1)
    }
}

/// The calendar date (year, month, day) of the day that lies `days` days
/// after 1970-01-01.
pub open spec fn civil_from_days(days: int) -> (int, int, int) {
    let (y, r) = year_split(days, 1970);
    let (m, d) = month_split(r, y, 1);
    (y, m, d + 1)
}

/// The fields for the Unix time `ms`: the calendar date of its day, the time
/// of day, the year cut to 16 bits as the structure stores it.
pub open spec fn system_time_of(ms: u64) -> WindowsSystemTime {
    let secs = ms / 1000;
    let (y, m, d) = civil_from_days((secs / 86400) as int);
    WindowsSystemTime {
        year: y as u16,
        month: m as u16,
        day_of_week: 0,
        day: d as u16,
        hour: ((secs / 3600) % 24) as u16,
        minute: ((secs / 60) % 60) as u16,
        second: (secs % 60) as u16,
        milliseconds: (ms % 1000) as u16,
    }
}

fn leap_year(y: u64) -> (b: bool)
    ensures
        b == is_leap_year(y as int),
{
    y % 4 == 0 && (y % 100 != 0 || y % 400 == 0)
}

fn year_length(y: u64) -> (d: u64)
    ensures
        d == days_in_year(y as int),
{
    if leap_year(y) {
        366
    } else {
        365
    }
}

fn month_length(leap: bool, m: u64) -> (d: u64)
    requires
        1 <= m <= 12,
    ensures
        forall|y: int| is_leap_year(y) == leap ==> d == days_in_month(y, m as int),
{
    if m == 2 {
        if leap {
            29
        } else {
            28
        }
    } else if m == 4 || m == 6 || m == 9 || m == 11 {
        30
    } else {
        31
    }
}

/// Breaks the Unix time `server_time_ms` (milliseconds) into UTC calendar
/// fields; the day of the week is left at zero, which the system clock
/// ignores.
pub fn windows_system_time(server_time_ms: u64) -> (st: WindowsSystemTime)
    ensures
        st == system_time_of(server_time_ms),
{
    let total_secs = server_time_ms / 1000;
    let millis = (server_time_ms % 1000) as u16;
    let seconds = (total_secs % 60) as u16;
    let minutes = ((total_secs / 60) % 60) as u16;
    let hours = ((total_secs / 3600) % 24) as u16;
    let days = total_secs / 86400;
    assert(days <= u64::MAX / 86400000);
    let mut y: u64 = 1970;
    let mut rem: u64 = days;
    while rem >= year_length(y)
        invariant
            1970 <= y,
            y - 1970 <= days - rem,
            rem <= days,
            days <= u64::MAX / 86400000,
            year_split(rem as int, y as int) == year_split(days as int, 1970),
        decreases rem,
    {
        rem = rem - year_length(y);
        y = y + 1;
    }
    let leap = leap_year(y);
    let ghost yr = y as int;
    let ghost r0 = rem as int;
    let mut mon: u64 = 1;
    while mon <= 12
        invariant
            1 <= mon <= 13,
            leap == is_leap_year(yr),
            rem <= r0,
            month_split(rem as int, yr, mon as int) == month_split(r0, yr, 1),
        ensures
            month_split(r0, yr, 1) == (mon as int, rem as int),
            1 <= mon <= 13,
        decreases 13 - mon,
    {
        let d = month_length(leap, mon);
        if rem < d {
            break ;
        }
        rem = rem - d;
        mon = mon + 1;
    }
    WindowsSystemTime {
        year: y as u16,
        month: mon as u16,
        day_of_week: 0,
        day: (rem + 1) as u16,
        hour: hours,
        minute: minutes,
        second: seconds,
        milliseconds: millis,
    }
}

proof fn lemma_year_split(rem: int, y: int)
    requires
        rem >= 0,
        y >= 1970,
    ensures
        year_split(rem, y).0 >= y,
        0 <= year_split(rem, y).1 < days_in_year(year_split(rem, y).0),
        days_before_year(year_split(rem, y).0) + year_split(rem, y).1 == days_before_year(y) + rem,
    decreases rem,
{
    if rem >= days_in_year(y) {
        lemma_year_split(rem - days_in_year(y), y + 1);
    }
}

proof fn lemma_months_fill_year(y: int)
    ensures
        days_before_month(y, 13) == days_in_year(y),
{
    reveal_with_fuel(days_before_month, 13);
}

proof fn lemma_month_split(rem: int, y: int, m: int)
    requires
        rem >= 0,
        1 <= m <= 12,
        rem + days_before_month(y, m) < days_in_year(y),
    ensures
        m <= month_split(rem, y, m).0 <= 12,
        0 <= month_split(rem, y, m).1 < days_in_month(y, month_split(rem, y, m).0),
        days_before_month(y, month_split(rem, y, m).0) + month_split(rem, y, m).1 == days_before_month(
            y,
            m,
        ) + rem,
    decreases 13 - m,
{
    if rem >= days_in_month(y, m) {
        if m == 12 {
            lemma_months_fill_year(y);
        } else {
            lemma_month_split(rem - days_in_month(y, m), y, m + 1);
        }
    }
}

/// The Gregorian month lengths: thirty days hath September, April, June and
/// November; February has 28, or 29 in a leap year; all the rest have 31.
pub proof fn law_gregorian_month_lengths(y: int)
    ensures
        days_in_month(y, 1) == 31,
        days_in_month(y, 2) == if y % 4 == 0 && (y % 100 != 0 || y % 400 == 0) {
            29int
        } else {
            28int
        },
        days_in_month(y, 3) == 31,
        days_in_month(y, 4) == 30,
        days_in_month(y, 5) == 31,
        days_in_month(y, 6) == 30,
        days_in_month(y, 7) == 31,
        days_in_month(y, 8) == 31,
        days_in_month(y, 9) == 30,
        days_in_month(y, 10) == 31,
        days_in_month(y, 11) == 30,
        days_in_month(y, 12) == 31,
        days_in_year(y) == if y % 4 == 0 && (y % 100 != 0 || y % 400 == 0) {
            366int
        } else {
            365int
        },
{
}

/// Known dates: the epoch is day 0, 2000-01-01 is day 10957, and
/// 2024-05-01 is day 19844; each day count breaks back into its date.
pub proof fn law_known_dates()
    ensures
        days_from_civil(1970, 1, 1) == 0,
        days_from_civil(2000, 1, 1) == 10957,
        days_from_civil(2024, 5, 1) == 19844,
        civil_from_days(19844) == (2024int, 5int, 1int),
        civil_from_days(19843) == (2024int, 4int, 30int),
{
    reveal_with_fuel(days_before_year, 60);
    reveal_with_fuel(days_before_month, 6);
    assert(days_before_year(2000) == 10957) by {
        reveal_with_fuel(days_before_year, 31);
    }
    assert(days_before_year(2024) == 19723) by {
        reveal_with_fuel(days_before_year, 25);
        assert(days_before_year(2000) == 10957);
    }
    assert(days_from_civil(2024, 5, 1) == 19844);
    lemma_year_split_known(19844, 2024, 121);
    lemma_year_split_known(19843, 2024, 120);
    reveal_with_fuel(month_split, 6);
}

proof fn lemma_year_split_known(days: int, y: int, r: int)
    requires
        y >= 1970,
        0 <= r < days_in_year(y),
        days == days_before_year(y) + r,
    ensures
        year_split(days, 1970) == (y, r),
{
    lemma_days_before_year_nonneg(y);
    lemma_year_split(days, 1970);
    let (y2, r2) = year_split(days, 1970);
    if y < y2 {
        lemma_days_before_year_strict(y, y2);
    } else if y2 < y {
        lemma_days_before_year_strict(y2, y);
    }
}

proof fn lemma_days_before_year_nonneg(y: int)
    ensures
        days_before_year(y) >= 0,
    decreases y - 1970,
{
    if y > 1970 {
        lemma_days_before_year_nonneg(y - 1);
    }
}

proof fn lemma_days_before_year_strict(a: int, b: int)
    requires
        1970 <= a < b,
    ensures
        days_before_year(b) >= days_before_year(a) + days_in_year(a),
    decreases b - a,
{
    if b > a + 1 {
        lemma_days_before_year_strict(a, b - 1);
    }
}

/// The date that a day count is broken into is a valid calendar date, and
/// counting the days up to that date gives the day count back.
pub proof fn law_civil_date_round_trip(days: nat)
    ensures
        ({
            let (y, m, d) = civil_from_days(days as int);
            &&& y >= 1970
            &&& 1 <= m <= 12
            &&& 1 <= d <= days_in_month(y, m)
            &&& days_from_civil(y, m, d) == days
        }),
{
    lemma_year_split(days as int, 1970);
    let (y, r) = year_split(days as int, 1970);
    lemma_month_split(r, y, 1);
}

} // verus!
