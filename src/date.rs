//! Calendar dates as the archive gives them: three decimal fields, checked
//! against the proleptic Gregorian calendar.
use vstd::prelude::*;
use crate::text::{decimal_text, padded_text, parse_i32, parse_u32, signed_value, unsigned_value};

verus! {

/// The smallest and largest years that a calendar date may carry.
pub const MIN_YEAR: i32 = -262143;
pub const MAX_YEAR: i32 = 262142;

pub open spec fn is_leap_year(y: int) -> bool {
    (y % 4 == 0 && y % 100 != 0) || y % 400 == 0
}

pub open spec fn days_in_month(y: int, m: int) -> int {
    if m == 2 {
        if is_leap_year(y) { 29 } else { 28 }
    } else if m == 4 || m == 6 || m == 9 || m == 11 {
        30
    } else {
        31
    }
}

/// Whether (y, m, d) names a day of the proleptic Gregorian calendar within
/// the supported range of years.
pub open spec fn is_calendar_date(y: int, m: int, d: int) -> bool {
    MIN_YEAR <= y <= MAX_YEAR && 1 <= m <= 12 && 1 <= d <= days_in_month(y, m)
}

/// The year as `%Y` writes it: four digits inside 0..=9999, else signed.
pub open spec fn year_text(y: int) -> Seq<char> {
    if 0 <= y <= 9999 {
        padded_text(y as nat, 4)
    } else if y > 9999 {
        seq!['+'] + decimal_text(y as nat)
    } else {
        seq!['-'] + padded_text((-y) as nat, 4)
    }
}

/// A date written `DD/MM/YYYY`.
pub open spec fn dmy_text(y: int, m: int, d: int) -> Seq<char> {
    padded_text(d as nat, 2) + seq!['/'] + padded_text(m as nat, 2) + seq!['/'] + year_text(y)
}

/// What the day, month and year fields of a record denote, when each is a
/// base-10 integer (day and month unsigned, with an optional `+`; the year
/// with an optional sign) and together they name a calendar day.
pub open spec fn date_from_fields(day: Seq<char>, month: Seq<char>, year: Seq<char>) -> Option<
    (int, int, int),
> {
    match (signed_value(year), unsigned_value(month), unsigned_value(day)) {
        (Some(y), Some(m), Some(d)) => if is_calendar_date(y, m as int, d as int) {
            Some((y, m as int, d as int))
        } else {
            None
        },
        _ => None,
    }
}

/// Relies on chrono's `NaiveDate::from_ymd_opt`, which returns a date exactly
/// when the month and day exist in that year and the year lies in its range.
#[verifier::external_body]
fn chrono_accepts(year: i32, month: u32, day: u32) -> (r: bool)
    ensures
        r == is_calendar_date(year as int, month as int, day as int),
{
    chrono::NaiveDate::from_ymd_opt(year, month, day).is_some()
}

/// Relies on chrono's formatting of a `NaiveDate` with `%d/%m/%Y`: day and
/// month on two zero-padded digits, the year as `year_text` gives it.
#[verifier::external_body]
#[allow(deprecated)]
fn chrono_format_dmy(year: i32, month: u32, day: u32) -> (r: String)
    requires
        is_calendar_date(year as int, month as int, day as int),
    ensures
        r@ == dmy_text(year as int, month as int, day as int),
{
    chrono::NaiveDate::from_ymd(year, month, day).format("%d/%m/%Y").to_string()
}

/// A day of the calendar, in UTC.
#[derive(Clone, Copy, Debug, PartialEq, Eq, Structural)]
pub struct CalendarDate {
    pub year: i32,
    pub month: u32,
    pub day: u32,
}

impl CalendarDate {
    pub open spec fn wf(&self) -> bool {
        is_calendar_date(self.year as int, self.month as int, self.day as int)
    }

    pub open spec fn ymd(&self) -> (int, int, int) {
        (self.year as int, self.month as int, self.day as int)
    }

    /// The date of year `year`, month `month`, day `day`, if there is one.
    pub fn new(year: i32, month: u32, day: u32) -> (r: Option<CalendarDate>)
        ensures
            r is Some <==> is_calendar_date(year as int, month as int, day as int),
            r is Some ==> r->Some_0 == (CalendarDate { year, month, day }),
    {
        if chrono_accepts(year, month, day) {
            Some(CalendarDate { year, month, day })
        } else {
            None
        }
    }

    /// The date written `DD/MM/YYYY`.
    pub fn format_dmy(&self) -> (r: String)
        requires
            self.wf(),
        ensures
            r@ == dmy_text(self.year as int, self.month as int, self.day as int),
    {
        chrono_format_dmy(self.year, self.month, self.day)
    }
}

/// Builds a date from the three text fields of a record; any field that is
/// not a base-10 integer, or a day that the calendar lacks, gives `None`.
pub fn parse_date(day: &str, month: &str, year: &str) -> (r: Option<CalendarDate>)
    ensures
        r is Some <==> date_from_fields(day@, month@, year@) is Some,
        r is Some ==> r->Some_0.wf() && r->Some_0.ymd() == date_from_fields(
            day@,
            month@,
            year@,
        )->Some_0,
{
    let d = match parse_u32(day) {
        Some(v) => v,
        None => return None,
    };
    let m = match parse_u32(month) {
        Some(v) => v,
        None => return None,
    };
    let y = match parse_i32(year) {
        Some(v) => v,
        None => return None,
    };
    CalendarDate::new(y, m, d)
}

} // verus!
