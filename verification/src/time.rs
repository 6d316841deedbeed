//! Instants in UTC, calendar dates and times of day, and the calls into
//! `chrono` that read the clock, parse dates and times and format instants.
//!
//! [`UtcDateTime`] stands for a `chrono::DateTime<Utc>`: the number of
//! non-leap seconds since 1970-01-01 00:00:00 UTC and the nanoseconds into
//! the second, which reach past one second only during a leap second.

use vstd::prelude::*;
use vstd::string::*;
use chrono::{Datelike, Timelike};

verus! {

broadcast use vstd::string::group_string_axioms;

/// The earliest timestamp that `chrono` represents (-262143-01-01T00:00:00Z).
pub const MIN_TIMESTAMP: i64 = -8334601228800i64;

/// The latest timestamp that `chrono` represents (+262142-12-31T23:59:59Z).
pub const MAX_TIMESTAMP: i64 = 8210266876799i64;

/// The earliest year of a `chrono::NaiveDate`.
pub const MIN_YEAR: i32 = -262143i32;

/// The latest year of a `chrono::NaiveDate`.
pub const MAX_YEAR: i32 = 262142i32;

/// Whether `(secs, nanos)` is an instant that `chrono::DateTime<Utc>`
/// represents: inside its range, with more than a second of nanoseconds
/// only in the last second of a minute (a leap second).
pub open spec fn valid_instant(secs: int, nanos: int) -> bool {
    &&& MIN_TIMESTAMP <= secs <= MAX_TIMESTAMP
    &&& 0 <= nanos < 2_000_000_000
    &&& nanos >= 1_000_000_000 ==> secs % 60 == 59
}

/// An instant in UTC.
#[derive(Debug, Clone, Copy)]
pub struct UtcDateTime {
    secs: i64,
    nanos: u32,
}

impl UtcDateTime {
    #[verifier::type_invariant]
    spec fn inv(self) -> bool {
        valid_instant(self.secs as int, self.nanos as int)
    }

    /// Seconds since 1970-01-01 00:00:00 UTC, leap seconds not counted.
    pub closed spec fn secs(self) -> i64 {
        self.secs
    }

    /// Nanoseconds into the second.
    pub closed spec fn nanos(self) -> u32 {
        self.nanos
    }

    /// The instant `secs` seconds and `nanos` nanoseconds after
    /// 1970-01-01 00:00:00 UTC, when `chrono` represents it.
    pub fn from_timestamp(secs: i64, nanos: u32) -> (r: Option<UtcDateTime>)
        ensures
            r is Some <==> valid_instant(secs as int, nanos as int),
            r matches Some(t) ==> t.secs() == secs && t.nanos() == nanos,
    {
        if secs < MIN_TIMESTAMP || secs > MAX_TIMESTAMP || nanos >= 2_000_000_000 {
            return None;
        }
        if nanos >= 1_000_000_000 {
            let shifted: u64 = (secs - MIN_TIMESTAMP) as u64;
            proof {
                assert(MIN_TIMESTAMP == 60 * (-138910020480int));
                vstd::arithmetic::div_mod::lemma_mod_multiples_vanish(
                    -138910020480int,
                    shifted as int,
                    60,
                );
            }
            if shifted % 60 != 59 {
                return None;
            }
        }
        Some(UtcDateTime { secs, nanos })
    }

    /// Seconds since 1970-01-01 00:00:00 UTC.
    pub fn timestamp(&self) -> (r: i64)
        ensures
            r == self.secs(),
            MIN_TIMESTAMP <= r <= MAX_TIMESTAMP,
    {
        proof {
            use_type_invariant(self);
        }
        self.secs
    }

    /// Nanoseconds into the second.
    pub fn timestamp_subsec_nanos(&self) -> (r: u32)
        ensures
            r == self.nanos(),
            valid_instant(self.secs() as int, r as int),
    {
        proof {
            use_type_invariant(self);
        }
        self.nanos
    }

    /// The current instant (`chrono::Utc::now`).
    pub fn now() -> (r: UtcDateTime)
        ensures
            r.secs() >= 0,
            r.nanos() < 1_000_000_000,
    {
        let (secs, nanos) = clock_now();
        UtcDateTime { secs, nanos }
    }

    /// The instant as `%Y-%m-%d %H:%M`, as `chrono` formats it.
    pub fn format_minute(&self) -> (r: String)
        ensures
            r@ == minute_text(self.secs() as int),
    {
        proof {
            use_type_invariant(self);
        }
        format_minute_of(self.secs, self.nanos)
    }

    /// The instant `minutes` minutes later (`DateTime + TimeDelta::minutes`).
    /// Leaving a leap second drops its extra second of nanoseconds.
    pub fn plus_minutes(&self, minutes: u32) -> (r: UtcDateTime)
        requires
            self.secs() + 60 * minutes <= MAX_TIMESTAMP,
        ensures
            r.secs() == self.secs() + 60 * minutes,
            r.nanos() == if self.nanos() >= 1_000_000_000 && minutes > 0 {
                self.nanos() - 1_000_000_000
            } else {
                self.nanos() as int
            },
    {
        proof {
            use_type_invariant(self);
        }
        let (secs, nanos) = add_minutes_to(self.secs, self.nanos, minutes);
        proof {
            if nanos >= 1_000_000_000 {
                assert(secs as int == self.secs as int);
            }
        }
        UtcDateTime { secs, nanos }
    }
}

/// `chrono::Utc::now()`, as its timestamp and its nanoseconds into the
/// second. `Utc::now` reads the system clock since the Unix epoch (it
/// panics on an earlier clock) and builds the instant with
/// `DateTime::from_timestamp(..).unwrap()` from a `Duration`, whose
/// sub-second nanoseconds stay below one second. Which instant it is, is
/// not stated.
#[verifier::external_body]
fn clock_now() -> (r: (i64, u32))
    ensures
        valid_instant(r.0 as int, r.1 as int),
        r.0 >= 0,
        r.1 < 1_000_000_000,
{
    let now = chrono::Utc::now();
    (now.timestamp(), now.timestamp_subsec_nanos())
}

/// The character of the decimal digit `d`.
pub open spec fn digit_char(d: int) -> char {
    (d + 48) as char
}

/// The decimal digits of `n`, without leading zeros.
pub open spec fn decimal(n: nat) -> Seq<char>
    decreases n,
{
    if n < 10 {
        seq![digit_char(n as int)]
    } else {
        decimal(n / 10).push(digit_char((n % 10) as int))
    }
}

/// The decimal digits of `n`, with zeros in front up to `width` characters.
pub open spec fn zero_padded(n: nat, width: nat) -> Seq<char> {
    let digits = decimal(n);
    if digits.len() < width {
        Seq::new((width - digits.len()) as nat, |i: int| '0') + digits
    } else {
        digits
    }
}

/// A year as `%Y` writes it: four digits at least, zero-padded, and a sign
/// before a year under 0 or over 9999.
pub open spec fn year_text(year: int) -> Seq<char> {
    if 0 <= year <= 9999 {
        zero_padded(year as nat, 4)
    } else if year > 9999 {
        seq!['+'] + decimal(year as nat)
    } else {
        seq!['-'] + zero_padded((-year) as nat, 4)
    }
}

/// The date `day` days after 1970-01-01 (before it, when negative).
pub open spec fn date_of_day(day: int) -> CalendarDate {
    choose|d: CalendarDate|
        valid_date(d) && days_from_civil(d.year as int, d.month as int, d.day as int) == day
}

/// The text of the instant `secs` seconds after 1970-01-01 00:00:00 UTC in
/// the format `%Y-%m-%d %H:%M`: the year as [`year_text`], then month,
/// day, hour and minute with two digits each. Nanoseconds, those of a leap
/// second among them, do not reach the minute.
#[verifier::opaque]
pub open spec fn minute_text(secs: int) -> Seq<char> {
    let d = date_of_day(secs / 86400);
    let second_of_day = secs % 86400;
    year_text(d.year as int) + seq!['-'] + zero_padded(d.month as nat, 2) + seq!['-']
        + zero_padded(d.day as nat, 2) + seq![' '] + zero_padded((second_of_day / 3600) as nat, 2)
        + seq![':'] + zero_padded((second_of_day % 3600 / 60) as nat, 2)
}

/// `DateTime::<Utc>::from_timestamp(secs, nanos)` formatted with
/// `format("%Y-%m-%d %H:%M").to_string()`: [`minute_text`] of `secs`, as
/// `chrono` documents the format and writes the year (`write_year`).
#[verifier::external_body]
fn format_minute_of(secs: i64, nanos: u32) -> (r: String)
    requires
        valid_instant(secs as int, nanos as int),
    ensures
        r@ == minute_text(secs as int),
{
    chrono::DateTime::from_timestamp(secs, nanos).unwrap().format("%Y-%m-%d %H:%M").to_string()
}

/// `DateTime::<Utc>::from_timestamp(secs, nanos).unwrap() + TimeDelta::minutes(minutes)`,
/// as timestamp and nanoseconds. The sum moves the timestamp by sixty
/// seconds a minute; a positive number of minutes takes an instant out of a
/// leap second, dropping one second of nanoseconds (`NaiveTime::overflowing_add_signed`).
#[verifier::external_body]
fn add_minutes_to(secs: i64, nanos: u32, minutes: u32) -> (r: (i64, u32))
    requires
        valid_instant(secs as int, nanos as int),
        secs + 60 * minutes <= MAX_TIMESTAMP,
    ensures
        r.0 == secs + 60 * minutes,
        r.1 == (if nanos >= 1_000_000_000 && minutes > 0 { nanos - 1_000_000_000 } else { nanos as int }),
        valid_instant(r.0 as int, r.1 as int),
{
    let t = chrono::DateTime::from_timestamp(secs, nanos).unwrap()
        + chrono::TimeDelta::minutes(i64::from(minutes));
    (t.timestamp(), t.timestamp_subsec_nanos())
}

/// A day of the proleptic Gregorian calendar.
#[derive(Debug, Clone, Copy, PartialEq, Eq)]
pub struct CalendarDate {
    pub year: i32,
    pub month: u32,
    pub day: u32,
}

/// A time of day to the minute.
#[derive(Debug, Clone, Copy, PartialEq, Eq)]
pub struct ClockTime {
    pub hour: u32,
    pub minute: u32,
}

/// Whether `year` is a leap year of the Gregorian calendar.
pub open spec fn is_leap_year(year: int) -> bool {
    year % 4 == 0 && (year % 100 != 0 || year % 400 == 0)
}

/// The number of days of a month.
pub open spec fn days_in_month(year: int, month: int) -> int {
    if month == 2 {
        if is_leap_year(year) {
            29
        } else {
            28
        }
    } else if month == 4 || month == 6 || month == 9 || month == 11 {
        30
    } else {
        31
    }
}

/// Whether `d` is a date that `chrono::NaiveDate` represents.
pub open spec fn valid_date(d: CalendarDate) -> bool {
    &&& MIN_YEAR <= d.year <= MAX_YEAR
    &&& 1 <= d.month <= 12
    &&& 1 <= d.day <= days_in_month(d.year as int, d.month as int)
}

/// Whether `t` is a time of day.
pub open spec fn valid_clock(t: ClockTime) -> bool {
    t.hour < 24 && t.minute < 60
}

/// The number of days from 1970-01-01 to the given day of the proleptic
/// Gregorian calendar (negative before it).
pub open spec fn days_from_civil(year: int, month: int, day: int) -> int {
    let y = if month <= 2 {
        year - 1
    } else {
        year
    };
    let era = y / 400;
    let yoe = y - era * 400;
    let mp = if month > 2 {
        month - 3
    } else {
        month + 9
    };
    let doy = (153 * mp + 2) / 5 + day - 1;
    let doe = yoe * 365 + yoe / 4 - yoe / 100 + doy;
    era * 146097 + doe - 719468
}

/// The timestamp of a date at a time of day, in UTC.
pub open spec fn timestamp_of(d: CalendarDate, t: ClockTime) -> int {
    days_from_civil(d.year as int, d.month as int, d.day as int) * 86400 + t.hour * 3600 + t.minute
        * 60
}

/// The date that `NaiveDate::parse_from_str(text, "%Y-%m-%d")` reads, or
/// `None` when it rejects the text.
pub uninterp spec fn parsed_date(text: Seq<char>) -> Option<CalendarDate>;

/// The time that `NaiveTime::parse_from_str(text, "%H:%M")` reads, or
/// `None` when it rejects the text.
pub uninterp spec fn parsed_clock(text: Seq<char>) -> Option<ClockTime>;

/// `chrono::NaiveDate::parse_from_str(text, "%Y-%m-%d")`, as year, month
/// and day. What text it accepts is named by [`parsed_date`]; a date it
/// gives is a date that `NaiveDate` represents.
#[verifier::external_body]
pub(crate) fn parse_date(text: &str) -> (r: Option<CalendarDate>)
    ensures
        r == parsed_date(text@),
        r matches Some(d) ==> valid_date(d),
{
    match chrono::NaiveDate::parse_from_str(text, "%Y-%m-%d") {
        Ok(d) => Some(CalendarDate { year: d.year(), month: d.month(), day: d.day() }),
        Err(_) => None,
    }
}

/// `chrono::NaiveTime::parse_from_str(text, "%H:%M")`, as hour and minute
/// (the format sets no seconds, and the parsed time has none). What text it
/// accepts is named by [`parsed_clock`]; a time it gives is a time of day.
#[verifier::external_body]
pub(crate) fn parse_clock(text: &str) -> (r: Option<ClockTime>)
    ensures
        r == parsed_clock(text@),
        r matches Some(t) ==> valid_clock(t),
{
    match chrono::NaiveTime::parse_from_str(text, "%H:%M") {
        Ok(t) => Some(ClockTime { hour: t.hour(), minute: t.minute() }),
        Err(_) => None,
    }
}

/// `NaiveDateTime::new(date, time).and_utc().timestamp()` for a date and a
/// time of day: the Unix timestamp of that minute in UTC, which lies in the
/// range of `DateTime<Utc>`.
#[verifier::external_body]
fn utc_timestamp_of(d: CalendarDate, t: ClockTime) -> (r: i64)
    requires
        valid_date(d),
        valid_clock(t),
    ensures
        r == timestamp_of(d, t),
        MIN_TIMESTAMP <= r <= MAX_TIMESTAMP,
{
    let date = chrono::NaiveDate::from_ymd_opt(d.year, d.month, d.day).unwrap();
    let time = chrono::NaiveTime::from_hms_opt(t.hour, t.minute, 0).unwrap();
    chrono::NaiveDateTime::new(date, time).and_utc().timestamp()
}

impl UtcDateTime {
    /// The instant at which the given date reaches the given time of day, in
    /// UTC (`NaiveDateTime::new(date, time).and_utc()`).
    pub fn from_date_and_clock(d: CalendarDate, t: ClockTime) -> (r: UtcDateTime)
        requires
            valid_date(d),
            valid_clock(t),
        ensures
            r.secs() == timestamp_of(d, t),
            r.nanos() == 0,
    {
        let secs = utc_timestamp_of(d, t);
        UtcDateTime { secs, nanos: 0 }
    }
}

} // verus!
