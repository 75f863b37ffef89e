//! Calendar dates and timestamps, as the store writes and reads them.
//!
//! The calendar itself is chrono's: this module holds the parts of a date as
//! plain numbers, keeps them valid, reads the system clock, and asks chrono
//! for the date of what the clock says, for the text of a date and for the
//! date that a text denotes.

use chrono::{Datelike, Timelike};
use vstd::prelude::*;

verus! {

/// Whether `year` has a 29th of February in the proleptic Gregorian calendar.
pub open spec fn is_leap_year(year: int) -> bool {
    year % 4 == 0 && (year % 100 != 0 || year % 400 == 0)
}

/// The number of days of `month` in `year`.
pub open spec fn days_in_month(year: int, month: int) -> int {
    if month == 2 {
        if is_leap_year(year) {
            29
        } else {
            28
        }
    } else if month == 4 || month == 6 || month == 9 || month == 11 {
        30
    } else {
        31
    }
}

/// The dates that can be represented: an existing day of the calendar, in a
/// year between -262143 and 262142.
pub open spec fn is_calendar_date(year: int, month: int, day: int) -> bool {
    &&& -262143 <= year <= 262142
    &&& 1 <= month <= 12
    &&& 1 <= day <= days_in_month(year, month)
}

/// The times of day that can be represented. A nanosecond count of a billion
/// or more stands for a leap second and goes with second 59 only.
pub open spec fn is_clock_time(hour: int, minute: int, second: int, nanosecond: int) -> bool {
    &&& 0 <= hour < 24
    &&& 0 <= minute < 60
    &&& 0 <= second < 60
    &&& 0 <= nanosecond < 2_000_000_000
    &&& nanosecond >= 1_000_000_000 ==> second == 59
}

/// The text of a calendar date as chrono's `Display` prints it.
pub uninterp spec fn spec_date_text(year: int, month: int, day: int) -> Seq<char>;

/// The calendar date chrono reads from a text, if it reads one.
pub uninterp spec fn spec_parse_date(text: Seq<char>) -> Option<(int, int, int)>;

/// The text chrono prints for a date and a time of day (`%F %T%.f`).
pub uninterp spec fn spec_timestamp_text(
    year: int,
    month: int,
    day: int,
    hour: int,
    minute: int,
    second: int,
    nanosecond: int,
) -> Seq<char>;

/// The date and time of day chrono reads from a text written as `%F %T%.f`,
/// if it reads one.
pub uninterp spec fn spec_parse_timestamp(text: Seq<char>) -> Option<
    (int, int, int, int, int, int, int),
>;

/// `NaiveDate::from_ymd_opt` followed by the date's `to_string`. Every
/// calendar date in range has a text, which is named, not spelled out.
#[verifier::external_body]
fn date_text(year: i32, month: u32, day: u32) -> (text: String)
    requires
        is_calendar_date(year as int, month as int, day as int),
    ensures
        text@ == spec_date_text(year as int, month as int, day as int),
{
    chrono::NaiveDate::from_ymd_opt(year, month, day).map(|d| d.to_string()).unwrap_or_default()
}

/// `NaiveDate::from_str`, with the year, month and day of what was read.
/// A date that chrono holds is a calendar date in range.
#[verifier::external_body]
fn parse_date_parts(text: &str) -> (parts: Option<(i32, u32, u32)>)
    ensures
        match parts {
            Some(p) => spec_parse_date(text@) == Some((p.0 as int, p.1 as int, p.2 as int))
                && is_calendar_date(p.0 as int, p.1 as int, p.2 as int),
            None => spec_parse_date(text@) is None,
        },
{
    text.parse::<chrono::NaiveDate>().ok().map(|d| (d.year(), d.month(), d.day()))
}

/// `NaiveDate::from_ymd_opt`, then `NaiveDate::and_hms_nano_opt`, then
/// `format` with `%F %T%.f`, the form in which rusqlite stores a timestamp.
/// Every time of day on every calendar date in range has a text, which is
/// named, not spelled out.
#[verifier::external_body]
fn timestamp_text(
    year: i32,
    month: u32,
    day: u32,
    hour: u32,
    minute: u32,
    second: u32,
    nanosecond: u32,
) -> (text: String)
    requires
        is_calendar_date(year as int, month as int, day as int),
        is_clock_time(hour as int, minute as int, second as int, nanosecond as int),
    ensures
        text@ == spec_timestamp_text(
            year as int,
            month as int,
            day as int,
            hour as int,
            minute as int,
            second as int,
            nanosecond as int,
        ),
{
    chrono::NaiveDate::from_ymd_opt(year, month, day)
        .and_then(|d| d.and_hms_nano_opt(hour, minute, second, nanosecond))
        .map(|t| t.format("%F %T%.f").to_string())
        .unwrap_or_default()
}

/// `NaiveDateTime::parse_from_str` with `%F %T%.f`, with the parts of what
/// was read. What chrono holds is a calendar date and a time of day.
#[verifier::external_body]
fn parse_timestamp_parts(text: &str) -> (parts: Option<(i32, u32, u32, u32, u32, u32, u32)>)
    ensures
        match parts {
            Some(p) => spec_parse_timestamp(text@) == Some(
                (
                    p.0 as int,
                    p.1 as int,
                    p.2 as int,
                    p.3 as int,
                    p.4 as int,
                    p.5 as int,
                    p.6 as int,
                ),
            ) && is_calendar_date(p.0 as int, p.1 as int, p.2 as int) && is_clock_time(
                p.3 as int,
                p.4 as int,
                p.5 as int,
                p.6 as int,
            ),
            None => spec_parse_timestamp(text@) is None,
        },
{
    chrono::NaiveDateTime::parse_from_str(text, "%F %T%.f").ok().map(
        |t| (t.year(), t.month(), t.day(), t.hour(), t.minute(), t.second(), t.nanosecond()),
    )
}

/// The date and time of day, in UTC, that lie a number of whole seconds and
/// nanoseconds after the start of 1970 (before it, for a negative number of
/// seconds), if chrono represents that instant.
pub uninterp spec fn spec_unix_parts(seconds: int, nanoseconds: int) -> Option<
    (int, int, int, int, int, int, int),
>;

/// `SystemTime::now` and `SystemTime::duration_since` the Unix epoch: the
/// whole seconds since the start of 1970 and the nanoseconds of the running
/// second, which are fewer than a billion. `None` when the clock stands
/// before 1970. Two calls may differ.
#[verifier::external_body]
fn clock() -> (reading: Option<(u64, u32)>)
    ensures
        reading matches Some(r) ==> r.1 < 1_000_000_000,
{
    let since = std::time::SystemTime::now().duration_since(std::time::UNIX_EPOCH).ok()?;
    Some((since.as_secs(), since.subsec_nanos()))
}

/// `DateTime::from_timestamp`, with the parts of the instant in UTC; `None`
/// where chrono does not represent it. The instant is a time of day on a
/// calendar date; it keeps the nanoseconds it was given; and from the start
/// of 1970 on, its year is 1970 or later.
#[verifier::external_body]
fn unix_parts(seconds: i64, nanoseconds: u32) -> (parts: Option<
    (i32, u32, u32, u32, u32, u32, u32),
>)
    ensures
        match parts {
            Some(p) => spec_unix_parts(seconds as int, nanoseconds as int) == Some(
                (
                    p.0 as int,
                    p.1 as int,
                    p.2 as int,
                    p.3 as int,
                    p.4 as int,
                    p.5 as int,
                    p.6 as int,
                ),
            ) && is_calendar_date(p.0 as int, p.1 as int, p.2 as int) && is_clock_time(
                p.3 as int,
                p.4 as int,
                p.5 as int,
                p.6 as int,
            ) && p.6 == nanoseconds && (seconds >= 0 ==> p.0 >= 1970),
            None => spec_unix_parts(seconds as int, nanoseconds as int) is None,
        },
{
    chrono::DateTime::from_timestamp(seconds, nanoseconds).map(
        |t| (t.year(), t.month(), t.day(), t.hour(), t.minute(), t.second(), t.nanosecond()),
    )
}

/// A day of the calendar.
#[derive(Clone, Copy, Debug, PartialEq, Eq)]
pub struct Date {
    year: i32,
    month: u32,
    day: u32,
}

impl View for Date {
    type V = (int, int, int);

    closed spec fn view(&self) -> (int, int, int) {
        (self.year as int, self.month as int, self.day as int)
    }
}

impl Date {
    #[verifier::type_invariant]
    spec fn well_formed(self) -> bool {
        is_calendar_date(self.year as int, self.month as int, self.day as int)
    }

    /// The given day, if the calendar has it.
    pub fn from_ymd(year: i32, month: u32, day: u32) -> (date: Option<Date>)
        ensures
            date is Some <==> is_calendar_date(year as int, month as int, day as int),
            date matches Some(d) ==> d@ == (year as int, month as int, day as int),
    {
        if year < -262143 || year > 262142 || month < 1 || month > 12 || day < 1 {
            return None;
        }
        let leap = year % 4 == 0 && (year % 100 != 0 || year % 400 == 0);
        let last: u32 = if month == 2 {
            if leap {
                29
            } else {
                28
            }
        } else if month == 4 || month == 6 || month == 9 || month == 11 {
            30
        } else {
            31
        };
        if day > last {
            None
        } else {
            Some(Date { year, month, day })
        }
    }

    /// The first day of 1970.
    pub fn epoch() -> (date: Date)
        ensures
            date@ == (1970int, 1int, 1int),
    {
        Date { year: 1970, month: 1, day: 1 }
    }

    /// The date a text denotes, if chrono reads one from it.
    pub fn parse(text: &str) -> (date: Option<Date>)
        ensures
            match spec_parse_date(text@) {
                Some(parts) => date matches Some(d) && d@ == parts,
                None => date is None,
            },
            date matches Some(d) ==> is_calendar_date(d@.0, d@.1, d@.2),
    {
        match parse_date_parts(text) {
            Some((year, month, day)) => Some(Date { year, month, day }),
            None => None,
        }
    }

    /// Today's date in UTC: the day of [`Timestamp::now`]. Which day comes
    /// back is the clock's to say: it is a day of the calendar, and none
    /// before 1970.
    pub fn today() -> (date: Date)
        ensures
            is_calendar_date(date@.0, date@.1, date@.2),
            date@.0 >= 1970,
    {
        Timestamp::now().date()
    }

    pub fn year(&self) -> (year: i32)
        ensures
            year as int == self@.0,
    {
        self.year
    }

    pub fn month(&self) -> (month: u32)
        ensures
            month as int == self@.1,
    {
        self.month
    }

    pub fn day(&self) -> (day: u32)
        ensures
            day as int == self@.2,
    {
        self.day
    }

    /// The text of this date.
    pub open spec fn spec_text(&self) -> Seq<char> {
        spec_date_text(self@.0, self@.1, self@.2)
    }

    /// The date as text, `1999-01-01` for the first day of 1999.
    pub fn to_string(&self) -> (text: String)
        ensures
            text@ == self.spec_text(),
    {
        proof {
            use_type_invariant(self);
        }
        date_text(self.year, self.month, self.day)
    }
}

/// A date with a time of day, to the nanosecond.
#[derive(Clone, Copy, Debug, PartialEq, Eq)]
pub struct Timestamp {
    date: Date,
    hour: u32,
    minute: u32,
    second: u32,
    nanosecond: u32,
}

impl View for Timestamp {
    type V = (int, int, int, int, int, int, int);

    closed spec fn view(&self) -> (int, int, int, int, int, int, int) {
        (
            self.date@.0,
            self.date@.1,
            self.date@.2,
            self.hour as int,
            self.minute as int,
            self.second as int,
            self.nanosecond as int,
        )
    }
}

impl Timestamp {
    #[verifier::type_invariant]
    spec fn well_formed(self) -> bool {
        is_clock_time(
            self.hour as int,
            self.minute as int,
            self.second as int,
            self.nanosecond as int,
        )
    }

    /// The given time of the given day, if the clock has it.
    pub fn from_parts(date: Date, hour: u32, minute: u32, second: u32, nanosecond: u32) -> (stamp:
        Option<Timestamp>)
        ensures
            stamp is Some <==> is_clock_time(
                hour as int,
                minute as int,
                second as int,
                nanosecond as int,
            ),
            stamp matches Some(t) ==> t@ == (
                date@.0,
                date@.1,
                date@.2,
                hour as int,
                minute as int,
                second as int,
                nanosecond as int,
            ),
    {
        if hour >= 24 || minute >= 60 || second >= 60 || nanosecond >= 2_000_000_000 {
            return None;
        }
        if nanosecond >= 1_000_000_000 && second != 59 {
            return None;
        }
        Some(Timestamp { date, hour, minute, second, nanosecond })
    }

    /// Midnight at the start of the given day.
    pub fn midnight(date: Date) -> (stamp: Timestamp)
        ensures
            stamp@ == (date@.0, date@.1, date@.2, 0int, 0int, 0int, 0int),
    {
        Timestamp { date, hour: 0, minute: 0, second: 0, nanosecond: 0 }
    }

    /// The timestamp a text denotes, if chrono reads one from it.
    pub fn parse(text: &str) -> (stamp: Option<Timestamp>)
        ensures
            match spec_parse_timestamp(text@) {
                Some(parts) => stamp matches Some(t) && t@ == parts,
                None => stamp is None,
            },
    {
        match parse_timestamp_parts(text) {
            Some((year, month, day, hour, minute, second, nanosecond)) => Some(
                Timestamp { date: Date { year, month, day }, hour, minute, second, nanosecond },
            ),
            None => None,
        }
    }

    /// The instant that lies `seconds` whole seconds and `nanoseconds`
    /// nanoseconds after the start of 1970, in UTC, if chrono represents it.
    pub fn from_unix(seconds: i64, nanoseconds: u32) -> (stamp: Option<Timestamp>)
        ensures
            match spec_unix_parts(seconds as int, nanoseconds as int) {
                Some(parts) => stamp matches Some(t) && t@ == parts,
                None => stamp is None,
            },
            stamp matches Some(t) ==> is_calendar_date(t@.0, t@.1, t@.2) && is_clock_time(
                t@.3,
                t@.4,
                t@.5,
                t@.6,
            ) && t@.6 == nanoseconds && (seconds >= 0 ==> t@.0 >= 1970),
    {
        match unix_parts(seconds, nanoseconds) {
            Some(p) => Some(
                Timestamp {
                    date: Date { year: p.0, month: p.1, day: p.2 },
                    hour: p.3,
                    minute: p.4,
                    second: p.5,
                    nanosecond: p.6,
                },
            ),
            None => None,
        }
    }

    /// The instant of a reading of the clock, where there is one and chrono
    /// represents it.
    pub open spec fn spec_of_clock(reading: Option<(u64, u32)>) -> Option<
        (int, int, int, int, int, int, int),
    > {
        match reading {
            Some(r) => if r.0 <= i64::MAX {
                spec_unix_parts(r.0 as int, r.1 as int)
            } else {
                None
            },
            None => None,
        }
    }

    /// The instant of a reading of the clock, given as whole seconds and
    /// nanoseconds since the start of 1970; the start of 1970 where there is
    /// no reading, or none that chrono represents.
    pub fn of_clock(reading: Option<(u64, u32)>) -> (stamp: Timestamp)
        ensures
            match Self::spec_of_clock(reading) {
                Some(parts) => stamp@ == parts,
                None => stamp@ == (1970int, 1int, 1int, 0int, 0int, 0int, 0int),
            },
            is_calendar_date(stamp@.0, stamp@.1, stamp@.2),
            is_clock_time(stamp@.3, stamp@.4, stamp@.5, stamp@.6),
            stamp@.0 >= 1970,
            stamp@.6 == 0 || (reading matches Some(r) && stamp@.6 == r.1),
    {
        let read = match reading {
            Some((seconds, nanoseconds)) => {
                if seconds <= i64::MAX as u64 {
                    Timestamp::from_unix(seconds as i64, nanoseconds)
                } else {
                    None
                }
            },
            None => None,
        };
        match read {
            Some(stamp) => stamp,
            None => Timestamp::midnight(Date::epoch()),
        }
    }

    /// The current time in UTC, as the system clock has it; the start of 1970
    /// where the clock cannot be read. Which instant comes back is the
    /// clock's to say: it is a time of day on a day of the calendar, none
    /// before 1970, and no leap second.
    pub fn now() -> (stamp: Timestamp)
        ensures
            is_calendar_date(stamp@.0, stamp@.1, stamp@.2),
            is_clock_time(stamp@.3, stamp@.4, stamp@.5, stamp@.6),
            stamp@.0 >= 1970,
            stamp@.6 < 1_000_000_000,
    {
        Timestamp::of_clock(clock())
    }

    /// The day this timestamp falls on.
    pub fn date(&self) -> (date: Date)
        ensures
            date@ == (self@.0, self@.1, self@.2),
    {
        self.date
    }

    /// The text of this timestamp.
    pub open spec fn spec_text(&self) -> Seq<char> {
        spec_timestamp_text(self@.0, self@.1, self@.2, self@.3, self@.4, self@.5, self@.6)
    }

    /// The timestamp as text, `2015-06-03 12:34:56.789` for a time of day
    /// with milliseconds.
    pub fn to_string(&self) -> (text: String)
        ensures
            text@ == self.spec_text(),
    {
        proof {
            use_type_invariant(self);
            use_type_invariant(&self.date);
        }
        timestamp_text(
            self.date.year,
            self.date.month,
            self.date.day,
            self.hour,
            self.minute,
            self.second,
            self.nanosecond,
        )
    }
}

} // verus!
