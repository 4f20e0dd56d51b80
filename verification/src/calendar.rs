//! Days, times of day and instants, and the texts that chrono writes for them.
//!
//! A day is held as its number in the proleptic Gregorian calendar, counted
//! from 1 for January 1 of the year 1, and an instant as its number of seconds
//! since 1970-01-01 00:00:00 UTC. Both are plain integers here: chrono turns
//! them into calendar dates when it writes them.
//!
//! The four functions that call chrono have contracts that Verus takes on
//! trust. Two of the texts are only named: `written_day` and `written_instant`
//! stand for what chrono writes, and nothing here says which digits those are.

use chrono::Datelike;
use vstd::prelude::*;
use crate::text::{is_digit, two_digits};

verus! {

/// The number of the day 2000-01-01, the earliest date that is generated.
pub const FIRST_DAY: i32 = 730_120;

/// The number of the day 9999-12-31, the last whose year has four digits.
pub const LAST_PLAIN_DAY: i32 = 3_652_059;

/// The number of the day 262142-12-31, the last that chrono can hold.
pub const LAST_DAY: i32 = 95_745_399;

/// The instant 2000-01-01 00:00:00 UTC, the earliest that is generated.
pub const FIRST_INSTANT: i64 = 946_684_800;

/// The instant 2022-12-02 16:53:20 UTC, before which every generated instant lies.
pub const LAST_INSTANT: i64 = 1_670_000_000;

/// The pattern in which a date is written: year, month and day.
pub const DATE_PATTERN: &'static str = "%Y-%m-%d";

/// The pattern in which a time of day is written: hour, minute and second.
pub const TIME_PATTERN: &'static str = "%H:%M:%S";

/// The pattern in which an instant is written: its date, a space, its time of day.
pub const DATETIME_PATTERN: &'static str = "%Y-%m-%d %H:%M:%S";

/// The text that chrono writes for the day with number `day` under `pattern`.
pub uninterp spec fn written_day(day: int, pattern: Seq<char>) -> Seq<char>;

/// The text that chrono writes under `pattern` for the instant `seconds`
/// seconds after 1970-01-01 00:00:00 UTC, as a date and time in UTC.
pub uninterp spec fn written_instant(seconds: int, pattern: Seq<char>) -> Seq<char>;

/// The date with day number `day`, written as year, month and day.
pub open spec fn day_text(day: int) -> Seq<char> {
    written_day(day, DATE_PATTERN@)
}

/// The instant `seconds`, written as date and time of day in UTC.
pub open spec fn instant_text(seconds: int) -> Seq<char> {
    written_instant(seconds, DATETIME_PATTERN@)
}

/// The time of day written as `HH:MM:SS`, each part in two digits.
pub open spec fn time_text(hour: int, minute: int, second: int) -> Seq<char> {
    two_digits(hour) + seq![':'] + two_digits(minute) + seq![':'] + two_digits(second)
}

/// Whether `text` has the form `YYYY-MM-DD`: ten characters, digits but for the two hyphens.
pub open spec fn is_date_shape(text: Seq<char>) -> bool {
    &&& text.len() == 10
    &&& forall|i: int|
        0 <= i < 10 ==> if i == 4 || i == 7 {
            text[i] == '-'
        } else {
            is_digit(#[trigger] text[i])
        }
}

/// Whether `text` has the form `YYYY-MM-DD HH:MM:SS`: nineteen characters,
/// digits but for two hyphens, a space and two colons.
pub open spec fn is_datetime_shape(text: Seq<char>) -> bool {
    &&& text.len() == 19
    &&& forall|i: int|
        0 <= i < 19 ==> if i == 4 || i == 7 {
            text[i] == '-'
        } else if i == 10 {
            text[i] == ' '
        } else if i == 13 || i == 16 {
            text[i] == ':'
        } else {
            is_digit(#[trigger] text[i])
        }
}

/// `Local::now` of chrono, of which `date_naive` and `num_days_from_ce` give the
/// number of the day that the machine's clock shows in the local time zone.
/// Which day that is depends on the clock; it is a date that chrono can hold,
/// so no later than `LAST_DAY`.
#[verifier::external_body]
pub(crate) fn today() -> (day: i32)
    ensures
        day <= LAST_DAY,
{
    chrono::Local::now().date_naive().num_days_from_ce()
}

/// `NaiveDate::format` of chrono on the date that `from_num_days_from_ce_opt`
/// makes of `day`. The text is named, not spelled out: which year, month and
/// day a number falls on is chrono's reckoning. The year takes four digits or
/// more, month and day two each; through the year 9999 it takes exactly four.
#[verifier::external_body]
pub(crate) fn format_day(day: i32, pattern: &str) -> (text: String)
    requires
        FIRST_DAY <= day <= LAST_DAY,
        pattern@ == DATE_PATTERN@,
    ensures
        text@ == written_day(day as int, pattern@),
        text@.len() >= 10,
        day <= LAST_PLAIN_DAY ==> is_date_shape(text@),
{
    chrono::NaiveDate::from_num_days_from_ce_opt(day).unwrap().format(pattern).to_string()
}

/// `NaiveTime::format` of chrono on the time that `from_hms_opt` makes of hour,
/// minute and second: each of the three zero-padded to two digits, with a colon
/// between them.
#[verifier::external_body]
pub(crate) fn format_time(hour: u32, minute: u32, second: u32, pattern: &str) -> (text: String)
    requires
        hour < 24,
        minute < 60,
        second < 60,
        pattern@ == TIME_PATTERN@,
    ensures
        text@ == time_text(hour as int, minute as int, second as int),
{
    chrono::NaiveTime::from_hms_opt(hour, minute, second).unwrap().format(pattern).to_string()
}

/// `DateTime::format` of chrono on the instant in UTC that `from_timestamp`
/// makes of `seconds`. The text is named, not spelled out; between the two
/// bounds the year has four digits, so the text has the form
/// `YYYY-MM-DD HH:MM:SS`.
#[verifier::external_body]
pub(crate) fn format_instant(seconds: i64, pattern: &str) -> (text: String)
    requires
        FIRST_INSTANT <= seconds < LAST_INSTANT,
        pattern@ == DATETIME_PATTERN@,
    ensures
        text@ == written_instant(seconds as int, pattern@),
        is_datetime_shape(text@),
{
    chrono::DateTime::from_timestamp(seconds, 0).unwrap().format(pattern).to_string()
}

} // verus!
