//! Spreadsheet date functions over serial numbers (days since December 30, 1899):
//! DAY, MONTH, YEAR, DATE, EDATE, EOMONTH, DATEDIF and the day part of TODAY.
//!
//! Arguments arrive evaluated: a number argument as the integer the function reads
//! (already floored or truncated), or the error its evaluation gave. Results are
//! integers or a formula error.

use vstd::prelude::*;
use vstd::utf8::is_ascii_chars;

use crate::calendar::{
    CivilDate, MAX_YEAR, MIN_YEAR, add_months, date_from_day_number, date_number, date_of,
    day_number, day_number_of, days_before_month, days_before_year, days_in_month, is_leap_year,
    lemma_date_of, lemma_date_in_month, lemma_year_length, shift_months, sub_months, valid_civil,
    valid_date,
};

verus! {

/// Day number of December 30, 1899, serial number 0.
pub const EXCEL_DATE_BASE: i32 = 693_594;

/// Smallest serial number of a date.
pub const MINIMUM_DATE_SERIAL_NUMBER: i32 = 1;

/// Largest serial number of a date (December 31, 9999).
pub const MAXIMUM_DATE_SERIAL_NUMBER: i32 = 2_958_465;

/// Spreadsheet error codes.
#[derive(Clone, Copy, Debug, PartialEq, Eq, Structural)]
pub enum ErrorCode {
    Ref,
    Name,
    Value,
    Div,
    Na,
    Num,
    Error,
    NImpl,
    Spill,
    Calc,
    Circ,
    Null,
}

/// A formula error: its code and message.
#[derive(Clone, Debug, PartialEq, Eq)]
pub struct FormulaError {
    pub code: ErrorCode,
    pub message: String,
}

/// Abstract value of a [`FormulaError`].
pub struct FormulaErrorModel {
    pub code: ErrorCode,
    pub message: Seq<char>,
}

impl View for FormulaError {
    type V = FormulaErrorModel;

    open spec fn view(&self) -> FormulaErrorModel {
        FormulaErrorModel { code: self.code, message: self.message@ }
    }
}

/// Abstract value of an outcome.
pub open spec fn outcome<T>(r: Result<T, FormulaError>) -> Result<T, FormulaErrorModel> {
    match r {
        Ok(t) => Ok(t),
        Err(e) => Err(e@),
    }
}

/// A `#NUM!` error with the given message.
pub open spec fn num_error(message: Seq<char>) -> FormulaErrorModel {
    FormulaErrorModel { code: ErrorCode::Num, message }
}

/// A `#VALUE!` error with the given message.
pub open spec fn value_error(message: Seq<char>) -> FormulaErrorModel {
    FormulaErrorModel { code: ErrorCode::Value, message }
}

/// Message for a date outside the supported range.
pub open spec fn out_of_range_text() -> Seq<char> {
    "Out of range parameters for date"@
}

/// A serial number that stands for a date.
pub open spec fn serial_in_range(s: int) -> bool {
    MINIMUM_DATE_SERIAL_NUMBER <= s <= MAXIMUM_DATE_SERIAL_NUMBER
}

/// The date of a serial number.
pub open spec fn serial_date(s: int) -> CivilDate {
    date_of(EXCEL_DATE_BASE + s)
}

/// The serial number of a date.
pub open spec fn date_serial(c: CivilDate) -> int {
    date_number(c) - EXCEL_DATE_BASE
}

fn make_error(code: ErrorCode, message: &str) -> (e: FormulaError)
    ensures
        e@ == (FormulaErrorModel { code, message: message@ }),
{
    FormulaError { code, message: message.to_owned() }
}

fn out_of_range() -> (e: FormulaError)
    ensures
        e@ == num_error(out_of_range_text()),
{
    make_error(ErrorCode::Num, "Out of range parameters for date")
}

/// The date of a serial number, for serial numbers from 1 to 2,958,465.
pub fn from_excel_date(serial: i64) -> (r: Option<CivilDate>)
    ensures
        r == (if serial_in_range(serial as int) {
            Some(serial_date(serial as int))
        } else {
            None::<CivilDate>
        }),
        r matches Some(c) ==> valid_civil(c) && date_serial(c) == serial,
{
    if serial < MINIMUM_DATE_SERIAL_NUMBER as i64 || serial > MAXIMUM_DATE_SERIAL_NUMBER as i64 {
        return None;
    }
    let n: i32 = (EXCEL_DATE_BASE as i64 + serial) as i32;
    match date_from_day_number(n) {
        Some(c) => {
            proof {
                lemma_date_of(c);
            }
            Some(c)
        },
        None => None,
    }
}

/// DAY: the day of the month of a serial number.
pub fn fn_day(serial: Result<i64, FormulaError>) -> (r: Result<u32, FormulaError>)
    ensures
        outcome(r) == match serial {
            Err(e) => Err(e@),
            Ok(s) => if serial_in_range(s as int) {
                Ok(serial_date(s as int).day)
            } else {
                Err(num_error(out_of_range_text()))
            },
        },
{
    let serial_number = match serial {
        Ok(s) => s,
        Err(e) => {
            return Err(e);
        },
    };
    match from_excel_date(serial_number) {
        Some(date) => Ok(date.day),
        None => Err(out_of_range()),
    }
}

/// MONTH: the month of a serial number.
pub fn fn_month(serial: Result<i64, FormulaError>) -> (r: Result<u32, FormulaError>)
    ensures
        outcome(r) == match serial {
            Err(e) => Err(e@),
            Ok(s) => if serial_in_range(s as int) {
                Ok(serial_date(s as int).month)
            } else {
                Err(num_error(out_of_range_text()))
            },
        },
{
    let serial_number = match serial {
        Ok(s) => s,
        Err(e) => {
            return Err(e);
        },
    };
    match from_excel_date(serial_number) {
        Some(date) => Ok(date.month),
        None => Err(out_of_range()),
    }
}

/// YEAR: the year of a serial number.
pub fn fn_year(serial: Result<i64, FormulaError>) -> (r: Result<i32, FormulaError>)
    ensures
        outcome(r) == match serial {
            Err(e) => Err(e@),
            Ok(s) => if serial_in_range(s as int) {
                Ok(serial_date(s as int).year)
            } else {
                Err(num_error(out_of_range_text()))
            },
        },
{
    let serial_number = match serial {
        Ok(s) => s,
        Err(e) => {
            return Err(e);
        },
    };
    match from_excel_date(serial_number) {
        Some(date) => Ok(date.year),
        None => Err(out_of_range()),
    }
}

/// The first day of the month after month `m` of year `y`.
pub open spec fn next_month(y: int, m: int) -> (int, int) {
    if m + 1 == 13 {
        (y + 1, 1)
    } else {
        (y, m + 1)
    }
}

/// Moving the date of the serial number by the months stays within chrono's years
/// (when both arguments are numbers and the serial number is a date).
pub open spec fn month_shift_in_range(
    serial: Result<i64, FormulaError>,
    months: Result<i32, FormulaError>,
) -> bool {
    match (serial, months) {
        (Ok(s), Ok(k)) => serial_in_range(s as int) ==> MIN_YEAR <= shift_months(
            serial_date(s as int),
            k as int,
        ).0 <= MAX_YEAR,
        _ => true,
    }
}

/// Whether moving the date of the serial number by the months stays within chrono's
/// years (see [`month_shift_in_range`]), as [`fn_edate`] and [`fn_eomonth`] need.
pub fn month_shift_fits(serial: &Result<i64, FormulaError>, months: &Result<i32, FormulaError>) -> (r:
    bool)
    ensures
        r == month_shift_in_range(*serial, *months),
{
    match (serial, months) {
        (Ok(s), Ok(k)) => match from_excel_date(*s) {
            None => true,
            Some(c) => {
                let total: i64 = c.year as i64 * 12 + c.month as i64 - 1 + *k as i64;
                let low: i64 = MIN_YEAR as i64 * 12;
                let high: i64 = (MAX_YEAR as i64 + 1) * 12;
                low <= total && total < high
            },
        },
        _ => true,
    }
}

/// `months` as the magnitude and direction chrono's `Months` arithmetic takes.
fn month_steps(months: i32) -> (r: u32)
    ensures
        r as int == (if months < 0 {
            -(months as int)
        } else {
            months as int
        }),
{
    if months < 0 {
        (-(months as i64)) as u32
    } else {
        months as u32
    }
}

/// `date` moved by `months` months, as `date + Months` or `date - Months` computes it.
fn shift_date(date: CivilDate, months: i32) -> (r: CivilDate)
    requires
        valid_civil(date),
        MIN_YEAR <= shift_months(date, months as int).0 <= MAX_YEAR,
    ensures
        r.year == shift_months(date, months as int).0,
        r.month == shift_months(date, months as int).1,
        r.day == shift_months(date, months as int).2,
        valid_civil(r),
{
    let months_abs = month_steps(months);
    let shifted = if months > 0 {
        add_months(date, months_abs)
    } else {
        sub_months(date, months_abs)
    };
    match shifted {
        Some(c) => {
            proof {
                lemma_shift_valid(date, months as int);
            }
            c
        },
        None => {
            proof {
                assert(false);
            }
            date
        },
    }
}

/// A month shift that lands in chrono's range is a valid date.
pub proof fn lemma_shift_valid(date: CivilDate, k: int)
    requires
        valid_civil(date),
        MIN_YEAR <= shift_months(date, k).0 <= MAX_YEAR,
    ensures
        valid_date(shift_months(date, k).0, shift_months(date, k).1, shift_months(date, k).2),
{
}

/// EOMONTH: serial number of the last day of the month `months` months after the date.
pub fn fn_eomonth(serial: Result<i64, FormulaError>, months: Result<i32, FormulaError>) -> (r:
    Result<i32, FormulaError>)
    requires
        month_shift_in_range(serial, months),
    ensures
        outcome(r) == match serial {
            Err(e) => Err(e@),
            Ok(s) => if s < 0 {
                Err(
                    num_error(
                        "Function EOMONTH parameter 1 value is negative. It should be positive or zero."@,
                    ),
                )
            } else if !serial_in_range(s as int) {
                Err(num_error(out_of_range_text()))
            } else {
                match months {
                    Err(e) => Err(e@),
                    Ok(k) => {
                        let t = shift_months(serial_date(s as int), k as int);
                        let (ny, nm) = next_month(t.0, t.1);
                        if valid_date(ny, nm, 1) {
                            Ok((day_number(ny, nm, 1) - EXCEL_DATE_BASE - 1) as i32)
                        } else {
                            Err(num_error(out_of_range_text()))
                        }
                    },
                }
            },
        },
{
    let serial_number = match serial {
        Ok(s) => {
            if s < 0 {
                return Err(
                    make_error(
                        ErrorCode::Num,
                        "Function EOMONTH parameter 1 value is negative. It should be positive or zero.",
                    ),
                );
            }
            s
        },
        Err(e) => {
            return Err(e);
        },
    };
    let date = match from_excel_date(serial_number) {
        Some(d) => d,
        None => {
            return Err(out_of_range());
        },
    };
    if serial_number > MAXIMUM_DATE_SERIAL_NUMBER as i64 {
        return Err(make_error(ErrorCode::Num, "Function DAY parameter 1 value is too large."));
    }
    let months = match months {
        Ok(k) => k,
        Err(e) => {
            return Err(e);
        },
    };
    let native_date = shift_date(date, months);
    let mut month = native_date.month + 1;
    let mut year = native_date.year;
    if month == 13 {
        month = 1;
        year = year + 1;
    }
    match day_number_of(year, month, 1) {
        Some(n) => Ok(n - EXCEL_DATE_BASE - 1),
        None => Err(out_of_range()),
    }
}

/// EDATE: serial number of the date `months` months after the date (the day clamped to
/// the target month's length).
pub fn fn_edate(serial: Result<i64, FormulaError>, months: Result<i32, FormulaError>) -> (r:
    Result<i32, FormulaError>)
    requires
        month_shift_in_range(serial, months),
    ensures
        outcome(r) == match serial {
            Err(e) => Err(e@),
            Ok(s) => if !serial_in_range(s as int) {
                Err(num_error(out_of_range_text()))
            } else {
                match months {
                    Err(e) => Err(e@),
                    Ok(k) => {
                        let t = shift_months(serial_date(s as int), k as int);
                        let n = day_number(t.0, t.1, t.2) - EXCEL_DATE_BASE;
                        if n < MINIMUM_DATE_SERIAL_NUMBER {
                            Err(num_error("EDATE out of bounds"@))
                        } else {
                            Ok(n as i32)
                        }
                    },
                }
            },
        },
{
    let serial_number = match serial {
        Ok(s) => s,
        Err(e) => {
            return Err(e);
        },
    };
    let date = match from_excel_date(serial_number) {
        Some(d) => d,
        None => {
            return Err(out_of_range());
        },
    };
    let months = match months {
        Ok(k) => k,
        Err(e) => {
            return Err(e);
        },
    };
    let native_date = shift_date(date, months);
    let n = match day_number_of(native_date.year, native_date.month, native_date.day) {
        Some(n) => n,
        None => {
            proof {
                assert(false);
            }
            0
        },
    };
    let serial_number = n - EXCEL_DATE_BASE;
    if serial_number < MINIMUM_DATE_SERIAL_NUMBER {
        return Err(make_error(ErrorCode::Num, "EDATE out of bounds"));
    }
    Ok(serial_number)
}

/// Serial number of year `y`, month `m`, day `d` read permissively: months beyond 12 or
/// below 1 move into later or earlier years, days beyond the month or below 1 move into
/// later or earlier months. The year must give a valid January 1 in range, and each
/// step (the year, then the month, then the day) must stay within serial numbers
/// 1 to 2,958,465.
pub open spec fn permissive_serial(y: i32, m: i32, d: i32) -> Option<int> {
    if !valid_date(y as int, 1, 1) {
        None
    } else if !serial_in_range(day_number(y as int, 1, 1) - EXCEL_DATE_BASE) {
        None
    } else {
        let t = shift_months(CivilDate { year: y, month: 1, day: 1 }, m - 1);
        if !(MIN_YEAR <= t.0 <= MAX_YEAR) {
            None
        } else {
            let s1 = day_number(t.0, t.1, t.2) - EXCEL_DATE_BASE;
            if !serial_in_range(s1) {
                None
            } else if !serial_in_range(s1 + d - 1) {
                None
            } else {
                Some(s1 + d - 1)
            }
        }
    }
}

/// Permissive serial number of a year, month and day (see [`permissive_serial`]).
pub fn permissive_date_to_serial_number(day: i32, month: i32, year: i32) -> (r: Result<i32, FormulaError>)
    ensures
        outcome(r) == match permissive_serial(year, month, day) {
            Some(s) => Ok(s as i32),
            None => Err(num_error(out_of_range_text())),
        },
{
    let first = match day_number_of(year, 1, 1) {
        Some(n) => n,
        None => {
            return Err(out_of_range());
        },
    };
    let start_serial = first - EXCEL_DATE_BASE;
    if start_serial < MINIMUM_DATE_SERIAL_NUMBER || start_serial > MAXIMUM_DATE_SERIAL_NUMBER {
        return Err(out_of_range());
    }
    let start = CivilDate { year, month: 1, day: 1 };
    let shifted = if month <= 0 {
        let back: u32 = ((-(month as i64)) + 1) as u32;
        sub_months(start, back)
    } else {
        add_months(start, (month - 1) as u32)
    };
    let date = match shifted {
        Some(c) => c,
        None => {
            return Err(out_of_range());
        },
    };
    proof {
        lemma_shift_valid(start, month - 1);
    }
    let n = match day_number_of(date.year, date.month, date.day) {
        Some(n) => n,
        None => {
            proof {
                assert(false);
            }
            0
        },
    };
    let month_serial = n - EXCEL_DATE_BASE;
    if month_serial < MINIMUM_DATE_SERIAL_NUMBER || month_serial > MAXIMUM_DATE_SERIAL_NUMBER {
        return Err(out_of_range());
    }
    let serial: i64 = month_serial as i64 + day as i64 - 1;
    if serial < MINIMUM_DATE_SERIAL_NUMBER as i64 || serial > MAXIMUM_DATE_SERIAL_NUMBER as i64 {
        return Err(out_of_range());
    }
    Ok(serial as i32)
}

/// DATE: serial number of a year, month and day, read permissively. A negative year is
/// out of range before the month and day are read.
pub fn fn_date(
    year: Result<i32, FormulaError>,
    month: Result<i32, FormulaError>,
    day: Result<i32, FormulaError>,
) -> (r: Result<i32, FormulaError>)
    ensures
        outcome(r) == match year {
            Err(e) => Err(e@),
            Ok(y) => if y < 0 {
                Err(num_error(out_of_range_text()))
            } else {
                match month {
                    Err(e) => Err(e@),
                    Ok(m) => match day {
                        Err(e) => Err(e@),
                        Ok(d) => match permissive_serial(y, m, d) {
                            Some(s) => Ok(s as i32),
                            None => Err(num_error(out_of_range_text())),
                        },
                    },
                }
            },
        },
{
    let year = match year {
        Ok(y) => {
            if y < 0 {
                return Err(out_of_range());
            }
            y
        },
        Err(e) => {
            return Err(e);
        },
    };
    let month = match month {
        Ok(m) => m,
        Err(e) => {
            return Err(e);
        },
    };
    let day = match day {
        Ok(d) => d,
        Err(e) => {
            return Err(e);
        },
    };
    permissive_date_to_serial_number(day, month, year)
}

/// TODAY: serial number of the local day whose day number (January 1 of year 1 being
/// day 1) is given.
pub fn fn_today(local_day_number: i32) -> (r: i32)
    requires
        local_day_number >= i32::MIN + EXCEL_DATE_BASE,
    ensures
        r == local_day_number - EXCEL_DATE_BASE,
{
    local_day_number - EXCEL_DATE_BASE
}

/// What `str::to_uppercase` returns for a string (Unicode upper-casing).
pub uninterp spec fn uppercase(s: Seq<char>) -> Seq<char>;

/// ASCII upper-casing of a character: 'a' to 'z' become 'A' to 'Z'.
pub open spec fn ascii_upper_char(c: char) -> char {
    if 'a' <= c && c <= 'z' {
        ((c as int) - 32) as char
    } else {
        c
    }
}

/// ASCII upper-casing of a string.
pub open spec fn ascii_upper(s: Seq<char>) -> Seq<char> {
    s.map_values(|c: char| ascii_upper_char(c))
}

/// The upper-cased form of a DATEDIF unit: ASCII upper-casing for an ASCII unit,
/// Unicode upper-casing otherwise.
pub open spec fn unit_key(u: Seq<char>) -> Seq<char> {
    if is_ascii_chars(u) {
        ascii_upper(u)
    } else {
        uppercase(u)
    }
}

/// Upper-cased copy of a string.
///
/// Calls `str::to_uppercase`; the result is named [`uppercase`] of the argument. On an
/// ASCII string it upper-cases as `str::to_ascii_uppercase` does ('a' to 'z' become 'A'
/// to 'Z', which std documents as the ASCII part of what `to_uppercase` does; no other
/// ASCII character has an upper-case form in Unicode).
#[verifier::external_body]
fn to_uppercase(s: &str) -> (r: String)
    ensures
        r@ == uppercase(s@),
        is_ascii_chars(s@) ==> r@ == ascii_upper(s@),
{
    s.to_uppercase()
}

/// Whether a string equals a literal.
fn text_is(s: &String, literal: &str) -> (r: bool)
    ensures
        r == (s@ == literal@),
{
    let t = String::from_str(literal);
    *s == t
}

/// Whether (m2, d2) comes before (m1, d1) within a year.
pub open spec fn earlier_in_year(m2: int, d2: int, m1: int, d1: int) -> bool {
    m2 < m1 || (m2 == m1 && d2 < d1)
}

/// Whole years from `c1` to `c2`.
pub open spec fn datedif_years(c1: CivilDate, c2: CivilDate) -> int {
    c2.year - c1.year - (if earlier_in_year(c2.month as int, c2.day as int, c1.month as int, c1.day as int) {
        1int
    } else {
        0int
    })
}

/// Whole months from `c1` to `c2`.
pub open spec fn datedif_months(c1: CivilDate, c2: CivilDate) -> int {
    (c2.year * 12 + c2.month) - (c1.year * 12 + c1.month) - (if c2.day < c1.day {
        1int
    } else {
        0int
    })
}

/// The month before month `m` of year `y`.
pub open spec fn previous_month(y: int, m: int) -> (int, int) {
    if m == 1 {
        (y - 1, 12)
    } else {
        (y, m - 1)
    }
}

/// Days from `c1` to `c2` ignoring months and years.
pub open spec fn datedif_month_days(c1: CivilDate, c2: CivilDate) -> int {
    let diff = c2.day - c1.day;
    if diff < 0 {
        let (py, pm) = previous_month(c2.year as int, c2.month as int);
        diff + days_in_month(py, pm)
    } else {
        diff
    }
}

/// Months from `c1` to `c2` ignoring years (0 to 11).
pub open spec fn datedif_year_months(c1: CivilDate, c2: CivilDate) -> int {
    (c2.month - c1.month - (if c2.day < c1.day {
        1int
    } else {
        0int
    })) % 12
}

/// Days from `c1` to `c2` ignoring years: from the last anniversary of `c1`'s month and
/// day on or before `c2` (February 29 read as February 28 in a common year).
pub open spec fn datedif_year_days(c1: CivilDate, c2: CivilDate) -> int {
    let ty = if earlier_in_year(c2.month as int, c2.day as int, c1.month as int, c1.day as int) {
        c2.year - 1
    } else {
        c2.year as int
    };
    let d = if valid_date(ty, c1.month as int, c1.day as int) {
        c1.day as int
    } else {
        28
    };
    date_number(c2) - day_number(ty, c1.month as int, d)
}

/// The DATEDIF result for serial numbers `s` and `e` (both dates, `s <= e`) and an
/// upper-cased unit.
pub open spec fn datedif_value(s: int, e: int, unit: Seq<char>) -> Result<int, FormulaErrorModel> {
    let c1 = serial_date(s);
    let c2 = serial_date(e);
    if unit == "Y"@ {
        Ok(datedif_years(c1, c2))
    } else if unit == "M"@ {
        Ok(datedif_months(c1, c2))
    } else if unit == "D"@ {
        Ok(e - s)
    } else if unit == "MD"@ {
        Ok(datedif_month_days(c1, c2))
    } else if unit == "YM"@ {
        Ok(datedif_year_months(c1, c2))
    } else if unit == "YD"@ {
        Ok(datedif_year_days(c1, c2))
    } else {
        Err(num_error("Function DATEDIF has invalid unit: "@ + unit))
    }
}

/// The day before the first of a month is the last day of the previous month.
proof fn lemma_previous_month_end(c2: CivilDate)
    requires
        valid_civil(c2),
        c2.year > MIN_YEAR,
    ensures
        ({
            let (py, pm) = previous_month(c2.year as int, c2.month as int);
            &&& valid_date(py, pm, days_in_month(py, pm))
            &&& day_number(py, pm, days_in_month(py, pm)) == day_number(
                c2.year as int,
                c2.month as int,
                1,
            ) - 1
        }),
{
    let y = c2.year as int;
    let m = c2.month as int;
    if m == 1 {
        lemma_year_length(y - 1);
    } else {
        lemma_date_in_month(y, m - 1, 1);
    }
}

/// DATEDIF: the difference between two dates in the given unit ("Y", "M", "D", "MD",
/// "YM" or "YD", in any case).
pub fn fn_datedif(
    start: Result<i64, FormulaError>,
    end: Result<i64, FormulaError>,
    unit: Result<String, FormulaError>,
) -> (r: Result<i64, FormulaError>)
    ensures
        outcome(r) == match start {
            Err(e) => Err(e@),
            Ok(s) => match end {
                Err(e) => Err(e@),
                Ok(e) => match unit {
                    Err(err) => Err(err@),
                    Ok(u) => if s > e {
                        Err(num_error("Function DATEDIF requires start_date <= end_date"@))
                    } else if !serial_in_range(s as int) {
                        Err(value_error("Function DATEDIF parameter 1 has incorrect date value"@))
                    } else if !serial_in_range(e as int) {
                        Err(value_error("Function DATEDIF parameter 2 has incorrect date value"@))
                    } else {
                        match datedif_value(s as int, e as int, unit_key(u@)) {
                            Ok(v) => Ok(v as i64),
                            Err(err) => Err(err),
                        }
                    },
                },
            },
        },
{
    let start_date_serial = match start {
        Ok(s) => s,
        Err(e) => {
            return Err(e);
        },
    };
    let end_date_serial = match end {
        Ok(s) => s,
        Err(e) => {
            return Err(e);
        },
    };
    let unit = match unit {
        Ok(u) => to_uppercase(u.as_str()),
        Err(e) => {
            return Err(e);
        },
    };
    if start_date_serial > end_date_serial {
        return Err(make_error(ErrorCode::Num, "Function DATEDIF requires start_date <= end_date"));
    }
    if start_date_serial < MINIMUM_DATE_SERIAL_NUMBER as i64 || start_date_serial
        > MAXIMUM_DATE_SERIAL_NUMBER as i64 {
        return Err(
            make_error(ErrorCode::Value, "Function DATEDIF parameter 1 has incorrect date value"),
        );
    }
    if end_date_serial < MINIMUM_DATE_SERIAL_NUMBER as i64 || end_date_serial
        > MAXIMUM_DATE_SERIAL_NUMBER as i64 {
        return Err(
            make_error(ErrorCode::Value, "Function DATEDIF parameter 2 has incorrect date value"),
        );
    }
    datedif_for_unit(start_date_serial, end_date_serial, &unit)
}

/// The DATEDIF result for the dates of two serial numbers (the first not after the
/// second) and an already upper-cased unit.
pub fn datedif_for_unit(start: i64, end: i64, unit: &String) -> (r: Result<i64, FormulaError>)
    requires
        start <= end,
        serial_in_range(start as int),
        serial_in_range(end as int),
    ensures
        outcome(r) == match datedif_value(start as int, end as int, unit@) {
            Ok(v) => Ok(v as i64),
            Err(err) => Err(err),
        },
{
    let start_date = match from_excel_date(start) {
        Some(d) => d,
        None => {
            proof {
                assert(false);
            }
            CivilDate { year: 0, month: 1, day: 1 }
        },
    };
    let end_date = match from_excel_date(end) {
        Some(d) => d,
        None => {
            proof {
                assert(false);
            }
            CivilDate { year: 0, month: 1, day: 1 }
        },
    };
    proof {
        lemma_date_of(start_date);
        lemma_date_of(end_date);
        lemma_serial_date_years(start_date);
        lemma_serial_date_years(end_date);
    }
    datedif_by_unit(start, end, start_date, end_date, unit)
}

/// The DATEDIF result for two dates, given with their serial numbers, and an
/// upper-cased unit.
fn datedif_by_unit(s: i64, e: i64, c1: CivilDate, c2: CivilDate, unit: &String) -> (r: Result<
    i64,
    FormulaError,
>)
    requires
        s <= e,
        serial_in_range(s as int),
        serial_in_range(e as int),
        c1 == serial_date(s as int),
        c2 == serial_date(e as int),
        valid_civil(c1),
        valid_civil(c2),
        date_serial(c2) == e,
        1899 <= c1.year <= 9999,
        1899 <= c2.year <= 9999,
    ensures
        outcome(r) == match datedif_value(s as int, e as int, unit@) {
            Ok(v) => Ok(v as i64),
            Err(err) => Err(err),
        },
{
    if text_is(unit, "Y") {
        Ok(datedif_years_of(c1, c2))
    } else if text_is(unit, "M") {
        Ok(datedif_months_of(c1, c2))
    } else if text_is(unit, "D") {
        Ok(e - s)
    } else if text_is(unit, "MD") {
        datedif_month_days_of(c1, c2)
    } else if text_is(unit, "YM") {
        Ok(datedif_year_months_of(c1, c2))
    } else if text_is(unit, "YD") {
        datedif_year_days_of(e, c1, c2)
    } else {
        let mut message = String::from_str("Function DATEDIF has invalid unit: ");
        message.append(unit.as_str());
        proof {
            reveal_strlit("Function DATEDIF has invalid unit: ");
        }
        Err(FormulaError { code: ErrorCode::Num, message })
    }
}

/// Whole years from `c1` to `c2`.
fn datedif_years_of(c1: CivilDate, c2: CivilDate) -> (r: i64)
    requires
        1899 <= c1.year <= 9999,
        1899 <= c2.year <= 9999,
    ensures
        r == datedif_years(c1, c2),
{
    let mut years = c2.year as i64 - c1.year as i64;
    if c2.month < c1.month || (c2.month == c1.month && c2.day < c1.day) {
        years = years - 1;
    }
    years
}

/// Whole months from `c1` to `c2`.
fn datedif_months_of(c1: CivilDate, c2: CivilDate) -> (r: i64)
    requires
        1899 <= c1.year <= 9999,
        1899 <= c2.year <= 9999,
        c1.month <= 12,
        c2.month <= 12,
    ensures
        r == datedif_months(c1, c2),
{
    let mut months = (c2.year as i64 * 12 + c2.month as i64) - (c1.year as i64 * 12
        + c1.month as i64);
    if c2.day < c1.day {
        months = months - 1;
    }
    months
}

/// Months from `c1` to `c2` ignoring years.
fn datedif_year_months_of(c1: CivilDate, c2: CivilDate) -> (r: i64)
    requires
        1 <= c1.month <= 12,
        1 <= c2.month <= 12,
    ensures
        r == datedif_year_months(c1, c2),
{
    let mut months = c2.month as i64 - c1.month as i64;
    if c2.day < c1.day {
        months = months - 1;
    }
    if months < 0 {
        months + 12
    } else {
        months
    }
}

/// Days from `c1` to `c2` ignoring months and years.
fn datedif_month_days_of(c1: CivilDate, c2: CivilDate) -> (r: Result<i64, FormulaError>)
    requires
        valid_civil(c1),
        valid_civil(c2),
        1899 <= c2.year <= 9999,
    ensures
        r == Ok::<i64, FormulaError>(datedif_month_days(c1, c2) as i64),
{
    let mut day_diff = c2.day as i64 - c1.day as i64;
    if day_diff < 0 {
        let first_of_month = match day_number_of(c2.year, c2.month, 1) {
            Some(n) => n,
            None => {
                return Err(make_error(ErrorCode::Value, "Internal error calculating MD in DATEDIF"));
            },
        };
        proof {
            lemma_previous_month_end(c2);
        }
        let previous = match date_from_day_number(first_of_month - 1) {
            Some(c) => c,
            None => {
                return Err(make_error(ErrorCode::Value, "Internal error calculating MD in DATEDIF"));
            },
        };
        proof {
            let (py, pm) = previous_month(c2.year as int, c2.month as int);
            let expected = CivilDate {
                year: py as i32,
                month: pm as u32,
                day: days_in_month(py, pm) as u32,
            };
            assert(valid_civil(expected));
            assert(date_number(expected) == date_number(previous));
            crate::calendar::lemma_day_number_injective(previous, expected);
        }
        day_diff = day_diff + previous.day as i64;
    }
    Ok(day_diff)
}

/// Days from `c1` to `c2` ignoring years.
fn datedif_year_days_of(e: i64, c1: CivilDate, c2: CivilDate) -> (r: Result<i64, FormulaError>)
    requires
        valid_civil(c1),
        valid_civil(c2),
        date_serial(c2) == e,
        1899 <= c2.year <= 9999,
    ensures
        r == Ok::<i64, FormulaError>(datedif_year_days(c1, c2) as i64),
{
    let target_year: i32 = if c1.month > c2.month || (c1.month == c2.month && c1.day > c2.day) {
        c2.year - 1
    } else {
        c2.year
    };
    let anniversary = match day_number_of(target_year, c1.month, c1.day) {
        Some(n) => n,
        None => {
            if c1.month == 2 && c1.day == 29 {
                match day_number_of(target_year, 2, 28) {
                    Some(n) => n,
                    None => {
                        return Err(
                            make_error(ErrorCode::Value, "Internal error adjusting Feb 29 in DATEDIF YD"),
                        );
                    },
                }
            } else {
                return Err(
                    make_error(ErrorCode::Value, "Internal error creating date in DATEDIF YD"),
                );
            }
        },
    };
    let end_number = EXCEL_DATE_BASE as i64 + e;
    Ok(end_number - anniversary as i64)
}

/// The date of a serial number in range lies between the years 1899 and 9999.
proof fn lemma_serial_date_years(c: CivilDate)
    requires
        valid_civil(c),
        serial_in_range(date_serial(c)),
    ensures
        1899 <= c.year <= 9999,
{
    let y = c.year as int;
    crate::calendar::lemma_date_in_year(y, c.month as int, c.day as int);
    if y < 1899 {
        crate::calendar::lemma_years_ordered(y + 1, 1899);
        assert(days_before_year(1899) == 693_229);
        assert(false);
    }
    if y > 9999 {
        crate::calendar::lemma_years_ordered(10000, y);
        assert(days_before_year(10000) == 3_652_059);
        assert(false);
    }
}

} // verus!
