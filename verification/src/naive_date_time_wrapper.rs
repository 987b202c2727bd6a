//! A date and time of day without a time zone, as the calendar library
//! `chrono` keeps it, held as plain numbers.

use chrono::{Datelike, Timelike};
use vstd::arithmetic::div_mod::lemma_mod_multiples_vanish;
use vstd::prelude::*;
use vstd::string::StringExecFns;

use crate::text::same_text;

verus! {

/// The first year that a date can have.
pub const MIN_YEAR: i32 = -262143;

/// The last year that a date can have.
pub const MAX_YEAR: i32 = 262142;

/// The format in which a due date is stored and shown again.
pub const CANONICAL_FORMAT: &'static str = "%Y-%m-%d %H:%M:%S";

/// The format in which a due date is typed in, once the seconds have been
/// put behind the minutes.
pub const ENTRY_FORMAT: &'static str = "%d.%m.%Y %H:%M:%S";

/// The format under which a date and time is shown: the stored form, and
/// behind it the fraction of the second where there is one.
pub const DISPLAY_FORMAT: &'static str = "%Y-%m-%d %H:%M:%S%.f";

/// What is put behind a due date as it was typed in: zero seconds.
pub const ENTRY_SECONDS: &'static str = ":00";

/// The numbers that make up a date and time. A leap second is the second 59
/// with a nanosecond of 1,000,000,000 or more.
pub struct DateTime {
    pub year: int,
    pub month: int,
    pub day: int,
    pub hour: int,
    pub minute: int,
    pub second: int,
    pub nanosecond: int,
}

/// Whether a year has a 29th of February in the proleptic Gregorian calendar.
pub open spec fn is_leap_year(year: int) -> bool {
    year % 4 == 0 && (year % 100 != 0 || year % 400 == 0)
}

/// The number of days of a month of a year.
pub open spec fn days_in_month(year: int, month: int) -> int {
    if month == 2 {
        if is_leap_year(year) {
            29
        } else {
            28
        }
    } else if month == 4 || month == 6 || month == 9 || month == 11 {
        30
    } else {
        31
    }
}

/// Whether the numbers name a day that the calendar has and a time that a
/// day has.
pub open spec fn is_valid(d: DateTime) -> bool {
    &&& MIN_YEAR <= d.year <= MAX_YEAR
    &&& 1 <= d.month <= 12
    &&& 1 <= d.day <= days_in_month(d.year, d.month)
    &&& 0 <= d.hour < 24
    &&& 0 <= d.minute < 60
    &&& 0 <= d.second < 60
    &&& 0 <= d.nanosecond < 2_000_000_000
    &&& (d.nanosecond >= 1_000_000_000 ==> d.second == 59)
}

/// Whether a format is one under which a date and time is read here: the
/// stored form, or the form in which a due date is typed in.
pub open spec fn is_parse_format(format: Seq<char>) -> bool {
    format == ENTRY_FORMAT@ || format == CANONICAL_FORMAT@
}

/// The date and time that `chrono::NaiveDateTime::parse_from_str` reads from
/// a text under a format, if it reads one.
pub uninterp spec fn parsed_date_time(text: Seq<char>, format: Seq<char>) -> Option<DateTime>;

/// The text that `chrono::NaiveDateTime::format` writes for a date and time
/// under a format, if the format can be written.
pub uninterp spec fn formatted_text(value: DateTime, format: Seq<char>) -> Option<Seq<char>>;

/// The date and time that a typed due date stands for: what `chrono` reads
/// under `ENTRY_FORMAT` from the text with zero seconds put behind it.
pub open spec fn entered_date_time(text: Seq<char>) -> Option<DateTime> {
    parsed_date_time(text + ENTRY_SECONDS@, ENTRY_FORMAT@)
}

/// The stored form of a date and time: what `chrono` writes for it under
/// `CANONICAL_FORMAT`.
pub open spec fn stored_form(value: DateTime) -> Seq<char> {
    formatted_text(value, CANONICAL_FORMAT@)->Some_0
}

/// A date and time of day without a time zone. Every value names a day that
/// the calendar has.
#[derive(Clone, Copy, Debug, PartialEq, Eq, Structural)]
pub struct NaiveDateTimeWrapper {
    year: i32,
    month: u32,
    day: u32,
    hour: u32,
    minute: u32,
    second: u32,
    nanosecond: u32,
}

impl View for NaiveDateTimeWrapper {
    type V = DateTime;

    closed spec fn view(&self) -> DateTime {
        DateTime {
            year: self.year as int,
            month: self.month as int,
            day: self.day as int,
            hour: self.hour as int,
            minute: self.minute as int,
            second: self.second as int,
            nanosecond: self.nanosecond as int,
        }
    }
}

/// The numbers of a date and time that may be there.
pub open spec fn optional_view(value: Option<NaiveDateTimeWrapper>) -> Option<DateTime> {
    match value {
        Some(value) => Some(value@),
        None => None,
    }
}

/// The characters of a text that may be there.
pub open spec fn optional_text(value: Option<String>) -> Option<Seq<char>> {
    match value {
        Some(value) => Some(value@),
        None => None,
    }
}

/// Calls `chrono::NaiveDateTime::parse_from_str` and hands out the numbers of
/// what it read. The result is a function of the two texts alone. What
/// `chrono` reads is a day of its calendar and a time of day: the fields of
/// its values keep to the ranges that `is_valid` states. The format is one
/// of the two that ask for year, month and day: under these `chrono` holds
/// the year to its range before it computes with it, which it does not
/// under every format that has a week in it.
#[verifier::external_body]
fn chrono_parse(text: &str, format: &str) -> (res: Option<NaiveDateTimeWrapper>)
    requires
        is_parse_format(format@),
    ensures
        optional_view(res) == parsed_date_time(text@, format@),
        res matches Some(value) ==> is_valid(value@),
{
    match chrono::NaiveDateTime::parse_from_str(text, format) {
        Ok(read) => Some(
            NaiveDateTimeWrapper {
                year: read.year(),
                month: read.month(),
                day: read.day(),
                hour: read.hour(),
                minute: read.minute(),
                second: read.second(),
                nanosecond: read.nanosecond(),
            },
        ),
        Err(_) => None,
    }
}

/// Makes the `chrono::NaiveDateTime` of the numbers and calls its
/// `to_string`. `chrono` makes a value of every date and time that
/// `is_valid` admits, and what it shows for a value is what its `format`
/// writes for it under `DISPLAY_FORMAT`.
#[verifier::external_body]
fn chrono_display(value: &NaiveDateTimeWrapper) -> (res: String)
    requires
        is_valid(value@),
    ensures
        formatted_text(value@, DISPLAY_FORMAT@) == Some(res@),
{
    let date = chrono::NaiveDate::from_ymd_opt(value.year, value.month, value.day).unwrap();
    let time = date.and_hms_nano_opt(value.hour, value.minute, value.second, value.nanosecond);
    time.unwrap().to_string()
}

/// Makes the `chrono::NaiveDateTime` of the numbers, calls its `format` and
/// writes what comes back to a text. `chrono` makes a value of every date and
/// time that `is_valid` admits. Where the format cannot be written there is
/// no text; else the text is a function of the numbers and the format alone.
/// `CANONICAL_FORMAT` can be written: it asks for the year, the month, the
/// day, the hour, the minute and the second, which every value has.
#[verifier::external_body]
fn chrono_format(value: &NaiveDateTimeWrapper, format: &str) -> (res: Option<String>)
    requires
        is_valid(value@),
    ensures
        optional_text(res) == formatted_text(value@, format@),
        format@ == CANONICAL_FORMAT@ ==> res is Some,
{
    let date = chrono::NaiveDate::from_ymd_opt(value.year, value.month, value.day).unwrap();
    let time = date.and_hms_nano_opt(value.hour, value.minute, value.second, value.nanosecond);
    let mut text = String::new();
    match time.unwrap().format(format).write_to(&mut text) {
        Ok(()) => Some(text),
        Err(_) => None,
    }
}

/// Whether a year that a date can have is a leap year.
fn leap_year(year: i32) -> (res: bool)
    requires
        MIN_YEAR <= year <= MAX_YEAR,
    ensures
        res == is_leap_year(year as int),
{
    // 262400 is a multiple of 400, so the shifted year is a leap year
    // exactly when the year is one.
    let shifted: u32 = (year + 262400) as u32;
    proof {
        lemma_mod_multiples_vanish(65600, year as int, 4);
        lemma_mod_multiples_vanish(2624, year as int, 100);
        lemma_mod_multiples_vanish(656, year as int, 400);
        assert(shifted as int == 4 * 65600 + year);
        assert(shifted as int == 100 * 2624 + year);
        assert(shifted as int == 400 * 656 + year);
    }
    shifted % 4 == 0 && (shifted % 100 != 0 || shifted % 400 == 0)
}

impl NaiveDateTimeWrapper {
    #[verifier::type_invariant]
    spec fn well_formed(self) -> bool {
        is_valid(self@)
    }

    /// The date and time of the given numbers, at the start of the second.
    /// There is none where the calendar has no such day or the day no such
    /// time.
    pub fn new(year: i32, month: u32, day: u32, hour: u32, minute: u32, second: u32) -> (res:
        Option<NaiveDateTimeWrapper>)
        ensures
            res is Some <==> is_valid(
                (DateTime {
                    year: year as int,
                    month: month as int,
                    day: day as int,
                    hour: hour as int,
                    minute: minute as int,
                    second: second as int,
                    nanosecond: 0,
                }),
            ),
            res matches Some(value) ==> value@ == (DateTime {
                year: year as int,
                month: month as int,
                day: day as int,
                hour: hour as int,
                minute: minute as int,
                second: second as int,
                nanosecond: 0,
            }),
    {
        if year < MIN_YEAR || year > MAX_YEAR || month < 1 || month > 12 || day < 1 {
            return None;
        }
        if hour >= 24 || minute >= 60 || second >= 60 {
            return None;
        }
        let leap = leap_year(year);
        let days: u32 = if month == 2 {
            if leap {
                29
            } else {
                28
            }
        } else if month == 4 || month == 6 || month == 9 || month == 11 {
            30
        } else {
            31
        };
        if day > days {
            return None;
        }
        Some(NaiveDateTimeWrapper { year, month, day, hour, minute, second, nanosecond: 0 })
    }

    /// Reads a date and time from a text under one of the two formats of
    /// this crate, `CANONICAL_FORMAT` and `ENTRY_FORMAT`. Any other format is
    /// refused, whatever the text. Under these two, a text that does not fit
    /// the format, or that names a day or a time that does not exist, is
    /// refused.
    pub fn parse_from_str(date_time: &str, fmt: &str) -> (res: Result<NaiveDateTimeWrapper, ()>)
        ensures
            match res {
                Ok(value) => is_parse_format(fmt@) && parsed_date_time(date_time@, fmt@) == Some(
                    value@,
                ) && is_valid(value@),
                Err(_) => !is_parse_format(fmt@) || parsed_date_time(date_time@, fmt@) is None,
            },
    {
        if !same_text(fmt, ENTRY_FORMAT) && !same_text(fmt, CANONICAL_FORMAT) {
            return Err(());
        }
        match chrono_parse(date_time, fmt) {
            Some(value) => Ok(value),
            None => Err(()),
        }
    }

    /// Reads a date and time from its stored form, `YYYY-MM-DD HH:MM:SS`.
    pub fn from_str(input: &str) -> (res: Result<NaiveDateTimeWrapper, ()>)
        ensures
            match res {
                Ok(value) => parsed_date_time(input@, CANONICAL_FORMAT@) == Some(value@)
                    && is_valid(value@),
                Err(_) => parsed_date_time(input@, CANONICAL_FORMAT@) is None,
            },
    {
        match chrono_parse(input, CANONICAL_FORMAT) {
            Some(value) => Ok(value),
            None => Err(()),
        }
    }

    /// Reads a due date as it is typed in, `dd.mm.YYYY HH:MM`: zero seconds
    /// are put behind the text, and the whole is read under `ENTRY_FORMAT`.
    pub fn parse_entry(input: &str) -> (res: Result<NaiveDateTimeWrapper, ()>)
        ensures
            match res {
                Ok(value) => entered_date_time(input@) == Some(value@) && is_valid(value@),
                Err(_) => entered_date_time(input@) is None,
            },
    {
        let completed = input.to_owned().concat(ENTRY_SECONDS);
        match chrono_parse(completed.as_str(), ENTRY_FORMAT) {
            Some(value) => Ok(value),
            None => Err(()),
        }
    }

    /// The text that shows this date and time: `YYYY-MM-DD HH:MM:SS`, and a
    /// fraction behind it where the second has one. It is what `format`
    /// writes under `DISPLAY_FORMAT`.
    pub fn to_string(&self) -> (res: String)
        ensures
            formatted_text(self@, DISPLAY_FORMAT@) == Some(res@),
    {
        proof {
            use_type_invariant(self);
        }
        chrono_display(self)
    }

    /// Writes this date and time under a `chrono` format. There is no text
    /// where the format cannot be written; `CANONICAL_FORMAT` can.
    pub fn format(&self, fmt: &str) -> (res: Option<String>)
        ensures
            optional_text(res) == formatted_text(self@, fmt@),
            fmt@ == CANONICAL_FORMAT@ ==> res is Some,
    {
        proof {
            use_type_invariant(self);
        }
        chrono_format(self, fmt)
    }

    /// The stored form of this date and time: `YYYY-MM-DD HH:MM:SS`, with no
    /// fraction of the second.
    pub fn to_stored_form(&self) -> (res: String)
        ensures
            res@ == stored_form(self@),
    {
        self.format(CANONICAL_FORMAT).unwrap()
    }

    /// The year.
    pub fn year(&self) -> (res: i32)
        ensures
            res == self@.year,
    {
        self.year
    }

    /// The month, from 1.
    pub fn month(&self) -> (res: u32)
        ensures
            res == self@.month,
    {
        self.month
    }

    /// The day of the month, from 1.
    pub fn day(&self) -> (res: u32)
        ensures
            res == self@.day,
    {
        self.day
    }

    /// The hour, from 0 to 23.
    pub fn hour(&self) -> (res: u32)
        ensures
            res == self@.hour,
    {
        self.hour
    }

    /// The minute, from 0 to 59.
    pub fn minute(&self) -> (res: u32)
        ensures
            res == self@.minute,
    {
        self.minute
    }

    /// The second, from 0 to 59: a leap second counts as second 59.
    pub fn second(&self) -> (res: u32)
        ensures
            res == self@.second,
    {
        self.second
    }

    /// The nanosecond of the second; 1,000,000,000 or more in a leap second.
    pub fn nanosecond(&self) -> (res: u32)
        ensures
            res == self@.nanosecond,
    {
        self.nanosecond
    }
}

} // verus!
