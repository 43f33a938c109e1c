//! The proleptic Gregorian calendar: dates, day numbers (January 1 of year 1 is day 1),
//! month arithmetic, and the calls into chrono that compute them.

use chrono::Datelike;
use vstd::prelude::*;

verus! {

/// A calendar date as plain values.
#[derive(Clone, Copy, Debug, PartialEq, Eq, Hash, Structural)]
pub struct CivilDate {
    pub year: i32,
    pub month: u32,
    pub day: u32,
}

/// Earliest year chrono represents.
pub const MIN_YEAR: i32 = -262_143;

/// Latest year chrono represents.
pub const MAX_YEAR: i32 = 262_142;

/// Leap years of the Gregorian calendar.
pub open spec fn is_leap_year(y: int) -> bool {
    (y % 4 == 0 && y % 100 != 0) || y % 400 == 0
}

/// Number of days of month `m` of year `y`.
pub open spec fn days_in_month(y: int, m: int) -> int {
    if m == 2 {
        if is_leap_year(y) {
            29
        } else {
            28
        }
    } else if m == 4 || m == 6 || m == 9 || m == 11 {
        30
    } else {
        31
    }
}

/// Days of year `y` before the first of month `m`.
pub open spec fn days_before_month(y: int, m: int) -> int {
    let base: int = if m <= 1 {
        0
    } else if m == 2 {
        31
    } else if m == 3 {
        59
    } else if m == 4 {
        90
    } else if m == 5 {
        120
    } else if m == 6 {
        151
    } else if m == 7 {
        181
    } else if m == 8 {
        212
    } else if m == 9 {
        243
    } else if m == 10 {
        273
    } else if m == 11 {
        304
    } else {
        334
    };
    if m > 2 && is_leap_year(y) {
        base + 1
    } else {
        base
    }
}

/// Days before January 1 of year `y`, counted from January 1 of year 1.
pub open spec fn days_before_year(y: int) -> int {
    let p = y - 1;
    365 * p + p / 4 - p / 100 + p / 400
}

/// Day number of a date: January 1 of year 1 is day 1.
pub open spec fn day_number(y: int, m: int, d: int) -> int {
    days_before_year(y) + days_before_month(y, m) + d
}

/// Day number of a [`CivilDate`].
pub open spec fn date_number(c: CivilDate) -> int {
    day_number(c.year as int, c.month as int, c.day as int)
}

/// A date that exists and that chrono represents.
pub open spec fn valid_date(y: int, m: int, d: int) -> bool {
    &&& MIN_YEAR <= y <= MAX_YEAR
    &&& 1 <= m <= 12
    &&& 1 <= d <= days_in_month(y, m)
}

/// [`valid_date`] for a [`CivilDate`].
pub open spec fn valid_civil(c: CivilDate) -> bool {
    valid_date(c.year as int, c.month as int, c.day as int)
}

/// The date whose day number is `n` (meaningful when one exists).
pub open spec fn date_of(n: int) -> CivilDate {
    choose|c: CivilDate| valid_civil(c) && date_number(c) == n
}

/// Month arithmetic as chrono does it: move `k` months from (y, m), keeping the day
/// when the target month has it and using that month's last day otherwise.
pub open spec fn shift_months(c: CivilDate, k: int) -> (int, int, int) {
    let total = c.year * 12 + c.month - 1 + k;
    let y = total / 12;
    let m = total % 12 + 1;
    let d = if c.day > days_in_month(y, m) {
        days_in_month(y, m)
    } else {
        c.day as int
    };
    (y, m, d)
}

/// One year has 365 days, 366 in a leap year.
pub proof fn lemma_year_length(y: int)
    ensures
        days_before_year(y + 1) == days_before_year(y) + 365 + (if is_leap_year(y) {
            1int
        } else {
            0int
        }),
{
    let p = y - 1;
    assert((p + 1) / 4 == p / 4 + (if y % 4 == 0 { 1int } else { 0int }));
    assert((p + 1) / 100 == p / 100 + (if y % 100 == 0 { 1int } else { 0int }));
    assert((p + 1) / 400 == p / 400 + (if y % 400 == 0 { 1int } else { 0int }));
}

/// Earlier years start earlier.
pub proof fn lemma_years_ordered(y1: int, y2: int)
    requires
        y1 <= y2,
    ensures
        days_before_year(y1) <= days_before_year(y2),
    decreases y2 - y1,
{
    if y1 < y2 {
        lemma_year_length(y2 - 1);
        lemma_years_ordered(y1, y2 - 1);
    }
}

/// A valid date's day number lies within its year.
pub proof fn lemma_date_in_year(y: int, m: int, d: int)
    requires
        valid_date(y, m, d),
    ensures
        days_before_year(y) < day_number(y, m, d) <= days_before_year(y + 1),
{
    lemma_year_length(y);
}

/// A valid date's day number lies within its month.
pub proof fn lemma_date_in_month(y: int, m: int, d: int)
    requires
        valid_date(y, m, d),
    ensures
        m < 12 ==> days_before_month(y, m) + d <= days_before_month(y, m + 1),
        m < 12 ==> days_before_month(y, m + 1) == days_before_month(y, m) + days_in_month(y, m),
{
}

/// Two valid dates with the same day number are the same date.
pub proof fn lemma_day_number_injective(c1: CivilDate, c2: CivilDate)
    requires
        valid_civil(c1),
        valid_civil(c2),
        date_number(c1) == date_number(c2),
    ensures
        c1 == c2,
{
    let (y1, m1, d1) = (c1.year as int, c1.month as int, c1.day as int);
    let (y2, m2, d2) = (c2.year as int, c2.month as int, c2.day as int);
    lemma_date_in_year(y1, m1, d1);
    lemma_date_in_year(y2, m2, d2);
    if y1 < y2 {
        lemma_years_ordered(y1 + 1, y2);
        assert(false);
    } else if y2 < y1 {
        lemma_years_ordered(y2 + 1, y1);
        assert(false);
    }
    assert(y1 == y2);
    if m1 < m2 {
        lemma_months_ordered(y1, m1, m2);
        assert(false);
    } else if m2 < m1 {
        lemma_months_ordered(y1, m2, m1);
        assert(false);
    }
}

/// A day of an earlier month of the same year comes earlier.
pub(crate) proof fn lemma_months_ordered(y: int, m1: int, m2: int)
    requires
        1 <= m1 < m2 <= 12,
    ensures
        days_before_month(y, m1) + days_in_month(y, m1) <= days_before_month(y, m2),
{
}

/// The date with a given day number, when a valid one exists, is that date.
pub proof fn lemma_date_of(c: CivilDate)
    requires
        valid_civil(c),
    ensures
        date_of(date_number(c)) == c,
{
    let n = date_number(c);
    assert(valid_civil(c) && date_number(c) == n);
    let d = date_of(n);
    lemma_day_number_injective(d, c);
}

/// The date chrono gives for day number `n` (January 1 of year 1 being day 1).
///
/// Calls `NaiveDate::from_num_days_from_ce_opt` and reads year, month and day. The
/// contract says the result is a valid date with that day number, present for day
/// numbers within ±90,000,000 (chrono's range is about ±95,700,000).
#[verifier::external_body]
pub(crate) fn date_from_day_number(n: i32) -> (r: Option<CivilDate>)
    ensures
        r matches Some(c) ==> valid_civil(c) && date_number(c) == n,
        -90_000_000 <= n <= 90_000_000 ==> r is Some,
{
    match chrono::NaiveDate::from_num_days_from_ce_opt(n) {
        Some(d) => Some(CivilDate { year: d.year(), month: d.month(), day: d.day() }),
        None => None,
    }
}

/// The day number chrono gives for a date, if the date exists and is in its range.
///
/// Calls `NaiveDate::from_ymd_opt` and `Datelike::num_days_from_ce`. The contract says
/// the result is present exactly for valid dates and is their day number.
#[verifier::external_body]
pub(crate) fn day_number_of(year: i32, month: u32, day: u32) -> (r: Option<i32>)
    ensures
        r is Some <==> valid_date(year as int, month as int, day as int),
        r matches Some(n) ==> n == day_number(year as int, month as int, day as int),
{
    match chrono::NaiveDate::from_ymd_opt(year, month, day) {
        Some(d) => Some(d.num_days_from_ce()),
        None => None,
    }
}

/// The date `months` months after `date`.
///
/// Calls `NaiveDate::checked_add_months`. The contract says the result is
/// [`shift_months`], present exactly when that date is in chrono's range.
#[verifier::external_body]
pub(crate) fn add_months(date: CivilDate, months: u32) -> (r: Option<CivilDate>)
    requires
        valid_civil(date),
    ensures
        r is Some <==> MIN_YEAR <= shift_months(date, months as int).0 <= MAX_YEAR,
        r matches Some(c) ==> c.year == shift_months(date, months as int).0 && c.month == shift_months(
            date,
            months as int,
        ).1 && c.day == shift_months(date, months as int).2,
{
    match chrono::NaiveDate::from_ymd_opt(date.year, date.month, date.day) {
        Some(d) => match d.checked_add_months(chrono::Months::new(months)) {
            Some(t) => Some(CivilDate { year: t.year(), month: t.month(), day: t.day() }),
            None => None,
        },
        None => None,
    }
}

/// The date `months` months before `date`.
///
/// Calls `NaiveDate::checked_sub_months`. The contract says the result is
/// [`shift_months`] backwards, present exactly when that date is in chrono's range.
#[verifier::external_body]
pub(crate) fn sub_months(date: CivilDate, months: u32) -> (r: Option<CivilDate>)
    requires
        valid_civil(date),
    ensures
        r is Some <==> MIN_YEAR <= shift_months(date, -(months as int)).0 <= MAX_YEAR,
        r matches Some(c) ==> c.year == shift_months(date, -(months as int)).0 && c.month == shift_months(
            date,
            -(months as int),
        ).1 && c.day == shift_months(date, -(months as int)).2,
{
    match chrono::NaiveDate::from_ymd_opt(date.year, date.month, date.day) {
        Some(d) => match d.checked_sub_months(chrono::Months::new(months)) {
            Some(t) => Some(CivilDate { year: t.year(), month: t.month(), day: t.day() }),
            None => None,
        },
        None => None,
    }
}

} // verus!
