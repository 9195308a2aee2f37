//! Steps through the calendar, as the `time` crate takes them, and the
//! months of the year.

use crate::clock::CivilDate;
use vstd::prelude::*;

verus! {

/// The first year of the calendar.
pub const MIN_YEAR: i32 = -9999;

/// The last year of the calendar.
pub const MAX_YEAR: i32 = 9999;

/// Whether a year has a 29th of February: every fourth year, but of the
/// years that end a century only every fourth.
pub open spec fn is_leap_year(year: int) -> bool {
    year % 4 == 0 && (year % 100 != 0 || year % 400 == 0)
}

/// The number of days of a month of a year.
pub open spec fn days_in_month(year: int, month: int) -> int {
    if month == 2 {
        if is_leap_year(year) {
            29
        } else {
            28
        }
    } else if month == 4 || month == 6 || month == 9 || month == 11 {
        30
    } else {
        31
    }
}

/// Whether a year, a month and a day are a date of the calendar: the year
/// from the first to the last, the month from 1 to 12, the day from 1 to the
/// days of the month.
pub open spec fn is_calendar_date(date: CivilDate) -> bool {
    &&& MIN_YEAR <= date.year <= MAX_YEAR
    &&& 1 <= date.month <= 12
    &&& 1 <= date.day <= days_in_month(date.year as int, date.month as int)
}

/// The day before a date of the calendar; none before its first day, and
/// none of what is no date.
pub open spec fn date_before(date: CivilDate) -> Option<CivilDate> {
    if !is_calendar_date(date) {
        None
    } else if date.day > 1 {
        Some(CivilDate { day: (date.day - 1) as u32, ..date })
    } else if date.month > 1 {
        Some(
            CivilDate {
                year: date.year,
                month: (date.month - 1) as u32,
                day: days_in_month(date.year as int, date.month - 1) as u32,
            },
        )
    } else if date.year > MIN_YEAR {
        Some(CivilDate { year: (date.year - 1) as i32, month: 12, day: 31 })
    } else {
        None
    }
}

/// The day after a date of the calendar; none after its last day, and none
/// of what is no date.
pub open spec fn date_after(date: CivilDate) -> Option<CivilDate> {
    if !is_calendar_date(date) {
        None
    } else if date.day < days_in_month(date.year as int, date.month as int) {
        Some(CivilDate { day: (date.day + 1) as u32, ..date })
    } else if date.month < 12 {
        Some(CivilDate { year: date.year, month: (date.month + 1) as u32, day: 1 })
    } else if date.year < MAX_YEAR {
        Some(CivilDate { year: (date.year + 1) as i32, month: 1, day: 1 })
    } else {
        None
    }
}

/// `time::Date::from_calendar_date`: whether it accepts the date. A month
/// or a day that does not fit `u8`, and a month that `Month::try_from`
/// refuses, are not accepted. The contract states what `time` accepts as it
/// is built here, without its feature for larger years: a year from -9999
/// to 9999, and a day that the month of that year has.
#[verifier::external_body]
pub(crate) fn exists_in_calendar(date: CivilDate) -> (b: bool)
    ensures
        b == is_calendar_date(date),
{
    match (u8::try_from(date.month), u8::try_from(date.day)) {
        (Ok(m), Ok(d)) => match time::Month::try_from(m) {
            Ok(month) => time::Date::from_calendar_date(date.year, month, d).is_ok(),
            Err(_) => false,
        },
        _ => false,
    }
}

/// `time::Date::previous_day` of the date that
/// `time::Date::from_calendar_date` makes, handed back as year, month and
/// day. The contract states the result: the day before in the same month,
/// else the last day of the month before, else the last day of the year
/// before; nothing for what is no date and for the first day that `time`
/// has.
#[verifier::external_body]
pub(crate) fn day_before(date: CivilDate) -> (r: Option<CivilDate>)
    ensures
        r == date_before(date),
{
    let month = time::Month::try_from(u8::try_from(date.month).ok()?).ok()?;
    let day = time::Date::from_calendar_date(date.year, month, u8::try_from(date.day).ok()?).ok()?;
    let d = day.previous_day()?;
    Some(CivilDate { year: d.year(), month: d.month() as u32, day: d.day() as u32 })
}

/// `time::Date::next_day` of the date that `time::Date::from_calendar_date`
/// makes, handed back as year, month and day. The contract states the
/// result: the day after in the same month, else the first day of the month
/// after, else the first day of the year after; nothing for what is no date
/// and for the last day that `time` has.
#[verifier::external_body]
pub(crate) fn day_after(date: CivilDate) -> (r: Option<CivilDate>)
    ensures
        r == date_after(date),
{
    let month = time::Month::try_from(u8::try_from(date.month).ok()?).ok()?;
    let day = time::Date::from_calendar_date(date.year, month, u8::try_from(date.day).ok()?).ok()?;
    let d = day.next_day()?;
    Some(CivilDate { year: d.year(), month: d.month() as u32, day: d.day() as u32 })
}

/// The month before a month; December before January and before whatever
/// is no month.
pub open spec fn month_before(month: u32) -> u32 {
    if 2 <= month <= 12 {
        (month - 1) as u32
    } else {
        12
    }
}

/// The month after a month; January after December and after whatever is
/// no month.
pub open spec fn month_after(month: u32) -> u32 {
    if 1 <= month <= 11 {
        (month + 1) as u32
    } else {
        1
    }
}

/// The first day of the month that follows a month of a year; `None` where
/// the year after cannot be written.
pub open spec fn first_of_next_month(year: i32, month: u32) -> Option<CivilDate> {
    if month == 12 {
        if year < i32::MAX {
            Some(CivilDate { year: (year + 1) as i32, month: 1, day: 1 })
        } else {
            None
        }
    } else {
        Some(CivilDate { year, month: month_after(month), day: 1 })
    }
}

/// The last day of a month of a year: the day before the first day of the
/// month that follows.
pub open spec fn last_day_of_month(year: i32, month: u32) -> Option<u32> {
    match first_of_next_month(year, month) {
        Some(first) => match date_before(first) {
            Some(d) => Some(d.day),
            None => None,
        },
        None => None,
    }
}

/// The month before a month.
pub fn previous_month(month: u32) -> (m: u32)
    ensures
        m == month_before(month),
        1 <= m <= 12,
{
    if 2 <= month && month <= 12 {
        month - 1
    } else {
        12
    }
}

/// The month after a month.
pub fn next_month(month: u32) -> (m: u32)
    ensures
        m == month_after(month),
        1 <= m <= 12,
{
    if 1 <= month && month <= 11 {
        month + 1
    } else {
        1
    }
}

/// Whether the calendar has a month of a year, and the month after it too.
pub open spec fn has_month(year: i32, month: u32) -> bool {
    MIN_YEAR <= year <= MAX_YEAR && 1 <= month <= 12 && !(year == MAX_YEAR && month == 12)
}

/// A month has 28 to 31 days, and the last day of a month that the calendar
/// has is the number of its days.
pub proof fn lemma_last_day_of_month(year: i32, month: u32)
    ensures
        28 <= days_in_month(year as int, month as int) <= 31,
        has_month(year, month) ==> last_day_of_month(year, month) == Some(
            days_in_month(year as int, month as int) as u32,
        ),
        last_day_of_month(year, month) matches Some(d) ==> 28 <= d <= 31,
{
}

/// The last day of a month of a year: the number of its days, from 28 to
/// 31, where the calendar has the month and the one after it.
pub fn get_last_day_of_month(year: i32, month: u32) -> (r: Option<u32>)
    ensures
        r == last_day_of_month(year, month),
        has_month(year, month) ==> r == Some(days_in_month(year as int, month as int) as u32),
        r matches Some(d) ==> 28 <= d <= 31,
{
    proof {
        lemma_last_day_of_month(year, month);
    }
    let first = if month == 12 {
        if year < i32::MAX {
            CivilDate { year: year + 1, month: 1, day: 1 }
        } else {
            return None;
        }
    } else {
        CivilDate { year, month: next_month(month), day: 1 }
    };
    match day_before(first) {
        Some(d) => Some(d.day),
        None => None,
    }
}

} // verus!
