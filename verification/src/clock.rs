//! Calendar dates and times of day as plain numbers, how they are written,
//! and what `chrono` reads from a text and computes from them.

use crate::text::{decimal, padded2, padded4, push_decimal, push_padded2, push_padded4};
use chrono::{Datelike, Timelike};
use vstd::prelude::*;
use vstd::string::StringExecFns;

verus! {

/// A calendar date. Nothing is said of whether the day exists.
#[derive(Clone, Copy, Debug, PartialEq, Eq, Structural)]
pub struct CivilDate {
    pub year: i32,
    pub month: u32,
    pub day: u32,
}

/// A time of day. Nothing is said of whether it is one of a real day.
#[derive(Clone, Copy, Debug, PartialEq, Eq, Structural)]
pub struct TimeOfDay {
    pub hour: u8,
    pub minute: u8,
    pub second: u8,
}

/// A year as it is written: in four digits from 0 to 9999, and with its
/// sign before at least four digits outside of that.
pub open spec fn year_text(year: int) -> Seq<char> {
    if year < 0 {
        seq!['-'] + padded4((-year) as nat)
    } else if year > 9999 {
        seq!['+'] + decimal(year as nat)
    } else {
        padded4(year as nat)
    }
}

/// A date as it is written: year, month and day with `-` between them.
pub open spec fn date_text(date: CivilDate) -> Seq<char> {
    year_text(date.year as int) + seq!['-'] + padded2(date.month as nat) + seq!['-'] + padded2(
        date.day as nat,
    )
}

/// A time of day as it is written: hour, minute and second in two digits
/// each, with `:` between them.
pub open spec fn time_text(time: TimeOfDay) -> Seq<char> {
    padded2(time.hour as nat) + seq![':'] + padded2(time.minute as nat) + seq![':'] + padded2(
        time.second as nat,
    )
}

/// Appends a date to `out`.
pub fn push_date(out: &mut String, date: CivilDate)
    ensures
        final(out)@ == old(out)@ + date_text(date),
{
    proof {
        reveal_strlit("-");
        reveal_strlit("+");
    }
    if date.year < 0 {
        out.append("-");
        push_padded4(out, (-(date.year as i64)) as u64);
    } else if date.year > 9999 {
        out.append("+");
        push_decimal(out, date.year as u64);
    } else {
        push_padded4(out, date.year as u64);
    }
    out.append("-");
    push_padded2(out, date.month as u64);
    out.append("-");
    push_padded2(out, date.day as u64);
    assert(final(out)@ =~= old(out)@ + date_text(date));
}

/// Appends a time of day to `out`.
pub fn push_time(out: &mut String, time: TimeOfDay)
    ensures
        final(out)@ == old(out)@ + time_text(time),
{
    proof {
        reveal_strlit(":");
    }
    push_padded2(out, time.hour as u64);
    out.append(":");
    push_padded2(out, time.minute as u64);
    out.append(":");
    push_padded2(out, time.second as u64);
    assert(final(out)@ =~= old(out)@ + time_text(time));
}

/// What `chrono::NaiveDate::parse_from_str` reads from `text` under
/// `format`: year, month and day, or `None` where it reports an error.
pub uninterp spec fn parsed_date(text: Seq<char>, format: Seq<char>) -> Option<CivilDate>;

/// What `chrono::NaiveTime::parse_from_str` reads from `text` under
/// `format`: hour, minute and second, or `None` where it reports an error.
pub uninterp spec fn parsed_time(text: Seq<char>, format: Seq<char>) -> Option<TimeOfDay>;

/// The seconds from 1970-01-01 00:00:00 to a date and time of day, as
/// `chrono` counts them without leap seconds and without a time zone; `None`
/// where `chrono` has no such date or no such time of day.
pub uninterp spec fn civil_seconds(date: CivilDate, time: TimeOfDay) -> Option<int>;

/// `chrono::NaiveDate::parse_from_str`, the date handed back as year, month
/// and day (`Datelike`). The contract only names the result: the same text
/// under the same format reads as the same date.
#[verifier::external_body]
pub(crate) fn read_date(text: &str, format: &str) -> (r: Option<CivilDate>)
    ensures
        r == parsed_date(text@, format@),
{
    match chrono::NaiveDate::parse_from_str(text, format) {
        Ok(d) => Some(CivilDate { year: d.year(), month: d.month(), day: d.day() }),
        Err(_) => None,
    }
}

/// `chrono::NaiveTime::parse_from_str`, the time handed back as hour, minute
/// and second (`Timelike`). The contract only names the result: the same
/// text under the same format reads as the same time.
#[verifier::external_body]
pub(crate) fn read_time(text: &str, format: &str) -> (r: Option<TimeOfDay>)
    ensures
        r == parsed_time(text@, format@),
{
    match chrono::NaiveTime::parse_from_str(text, format) {
        Ok(t) => Some(
            TimeOfDay { hour: t.hour() as u8, minute: t.minute() as u8, second: t.second() as u8 },
        ),
        Err(_) => None,
    }
}

/// `NaiveDate::from_ymd_opt`, `NaiveDate::and_hms_opt` and the timestamp of
/// the result taken as UTC. The contract only names the result.
#[verifier::external_body]
pub(crate) fn seconds_of(date: CivilDate, time: TimeOfDay) -> (r: Option<i64>)
    ensures
        r matches Some(s) ==> civil_seconds(date, time) == Some(s as int),
        r is None ==> civil_seconds(date, time) is None,
{
    let day = chrono::NaiveDate::from_ymd_opt(date.year, date.month, date.day)?;
    let at = day.and_hms_opt(time.hour as u32, time.minute as u32, time.second as u32)?;
    Some(at.and_utc().timestamp())
}

} // verus!
