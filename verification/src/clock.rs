//! The clock text: the current local wall-clock time rendered as
//! "weekday, month/day 12-hour:minute AM/PM". Reading the clock and rendering
//! the calendar names are the work of the `chrono` crate; the two calls stand
//! behind trusted declarations, and the text for given date-time values has a
//! name, `clock_text_of`, that the render step's callers can rely on. The
//! clock reads some moment, and the moment is always a representable
//! date-time, so producing the line never fails.

use vstd::prelude::*;
use chrono::Datelike;
use chrono::Timelike;

verus! {

/// The proleptic Gregorian leap-year rule: every fourth year, except every
/// hundredth, except every four-hundredth.
pub open spec fn is_leap_year(year: int) -> bool {
    (year % 4 == 0 && year % 100 != 0) || year % 400 == 0
}

/// How many days the month has in that year.
pub open spec fn days_in_month(year: int, month: int) -> int {
    if month == 2 {
        if is_leap_year(year) {
            29
        } else {
            28
        }
    } else if month == 4 || month == 6 || month == 9 || month == 11 {
        30
    } else {
        31
    }
}

/// A real day of the proleptic Gregorian calendar, within the year range
/// `chrono`'s dates can represent.
pub open spec fn valid_date(year: int, month: int, day: int) -> bool {
    &&& -262143 <= year <= 262142
    &&& 1 <= month <= 12
    &&& 1 <= day <= days_in_month(year, month)
}

/// The text `chrono` renders for the given local date-time values with the
/// format "%A, %B/%d %-I:%M %p": a function of the values alone.
pub uninterp spec fn clock_text_of(year: int, month: int, day: int, hour: int, minute: int) -> Seq<char>;

/// Relies on `chrono::Local::now` and the `Datelike`/`Timelike` accessors
/// `year`, `month`, `day`, `hour` and `minute`: the current local time as
/// plain values. The reading is always a representable calendar date, and the
/// accessors keep their documented ranges (a leap second surfaces in the
/// nanoseconds, never in the minute). The call reads the system clock and the
/// timezone database: a clock before 1970 or degenerate timezone data aborts
/// the process inside `chrono` — environment states, not inputs.
#[verifier::external_body]
fn now_local() -> (r: (i32, u32, u32, u32, u32))
    ensures
        valid_date(r.0 as int, r.1 as int, r.2 as int),
        r.3 <= 23,
        r.4 <= 59,
{
    let now = chrono::Local::now();
    (now.year(), now.month(), now.day(), now.hour(), now.minute())
}

/// Relies on `chrono::NaiveDate::from_ymd_opt`, `NaiveDate::and_hms_opt` and
/// the `format` renderer: a representable date with an in-range hour and
/// minute always renders, to `clock_text_of` of the values; values `chrono`
/// rejects give `None`.
#[verifier::external_body]
fn format_clock(year: i32, month: u32, day: u32, hour: u32, minute: u32) -> (r: Option<String>)
    ensures
        r matches Some(s) ==> s@ == clock_text_of(
            year as int, month as int, day as int, hour as int, minute as int),
        valid_date(year as int, month as int, day as int) && hour <= 23 && minute <= 59
            ==> r is Some,
{
    let date = match chrono::NaiveDate::from_ymd_opt(year, month, day) {
        Some(d) => d,
        None => return None,
    };
    let dt = match date.and_hms_opt(hour, minute, 0) {
        Some(d) => d,
        None => return None,
    };
    Some(dt.format("%A, %B/%d %-I:%M %p").to_string())
}

/// The clock line for the current local time: it always renders, and whatever
/// moment the clock reads, the text is the rendering of that moment's
/// date-time values.
pub fn clock_text() -> (r: Option<String>)
    ensures
        r is Some,
        r matches Some(s) ==> exists|year: int, month: int, day: int, hour: int, minute: int|
            valid_date(year, month, day) && 0 <= hour <= 23 && 0 <= minute <= 59
            && s@ == #[trigger] clock_text_of(year, month, day, hour, minute),
{
    let (year, month, day, hour, minute) = now_local();
    let r = format_clock(year, month, day, hour, minute);
    proof {
        assert(r->0@ == clock_text_of(
            year as int, month as int, day as int, hour as int, minute as int));
    }
    r
}

} // verus!
