//! Moments in UTC as whole seconds since 1970-01-01 00:00:00, with the
//! calendar conversions taken from chrono.
use chrono::{Datelike, NaiveDate};
use vstd::prelude::*;

verus! {

pub const SECONDS_PER_DAY: i64 = 86_400;

/// Day number (days since 1970-01-01) of chrono's `NaiveDate::MIN`, January 1 of year -262143.
pub const MIN_EPOCH_DAY: i64 = -96_465_292;

/// Day number (days since 1970-01-01) of chrono's `NaiveDate::MAX`, December 31 of year 262142.
pub const MAX_EPOCH_DAY: i64 = 95_026_236;

/// Timestamp of the first second of `MIN_EPOCH_DAY`.
pub const MIN_TIMESTAMP: i64 = -8_334_601_228_800;

/// Timestamp of the last second of `MAX_EPOCH_DAY`.
pub const MAX_TIMESTAMP: i64 = 8_210_266_876_799;

/// Year of chrono's `NaiveDate::MIN`.
pub const MIN_YEAR: i32 = -262_143;

/// Year of chrono's `NaiveDate::MAX`.
pub const MAX_YEAR: i32 = 262_142;

/// A leap year of the proleptic Gregorian calendar.
pub open spec fn is_leap_year(year: int) -> bool {
    year % 4 == 0 && (year % 100 != 0 || year % 400 == 0)
}

/// Number of days of a month (1 to 12) of a year.
pub open spec fn days_in_month(year: int, month: int) -> int {
    if month == 2 {
        if is_leap_year(year) {
            29
        } else {
            28
        }
    } else if month == 4 || month == 6 || month == 9 || month == 11 {
        30
    } else {
        31
    }
}

/// The date exists in the proleptic Gregorian calendar and chrono can hold it.
pub open spec fn is_calendar_date(year: int, month: int, day: int) -> bool {
    &&& MIN_YEAR <= year <= MAX_YEAR
    &&& 1 <= month <= 12
    &&& 1 <= day <= days_in_month(year, month)
}

/// The calendar date `(year, month, day)` of a day number counted from 1970-01-01.
pub uninterp spec fn civil_date_of(epoch_day: int) -> (int, int, int);

/// The day number, counted from 1970-01-01, of an existing calendar date.
pub uninterp spec fn epoch_day_of(year: int, month: int, day: int) -> int;

/// Relies on chrono's `NaiveDate::from_epoch_days` with `year`, `month` and `day`:
/// every day number from `NaiveDate::MIN` to `NaiveDate::MAX` has a date, whose
/// month lies in 1..=12 and day in 1..=31.
#[verifier::external_body]
fn calendar_date(epoch_day: i32) -> (r: Option<(i32, u32, u32)>)
    requires
        MIN_EPOCH_DAY <= epoch_day <= MAX_EPOCH_DAY,
    ensures
        r is Some,
        r matches Some((y, m, d)) ==> (y as int, m as int, d as int) == civil_date_of(epoch_day as int),
        r matches Some((y, m, d)) ==> 1 <= m <= 12 && 1 <= d <= 31,
{
    match NaiveDate::from_epoch_days(epoch_day) {
        Some(date) => Some((date.year(), date.month(), date.day())),
        None => None,
    }
}

/// Relies on chrono's `NaiveDate::from_ymd_opt` and `to_epoch_days`: a date
/// exists when its year lies between those of `NaiveDate::MIN` and
/// `NaiveDate::MAX`, its month in 1..=12 and its day within the month (leap
/// years by the Gregorian rule); its day number lies between `NaiveDate::MIN`
/// and `NaiveDate::MAX`, and `from_epoch_days` gives the same date back.
#[verifier::external_body]
fn day_number_of_date(year: i32, month: u32, day: u32) -> (r: Option<i32>)
    ensures
        r is Some <==> is_calendar_date(year as int, month as int, day as int),
        r is Some ==> r->0 as int == epoch_day_of(year as int, month as int, day as int),
        r is Some ==> MIN_EPOCH_DAY <= r->0 <= MAX_EPOCH_DAY,
        r is Some ==> civil_date_of(r->0 as int) == (year as int, month as int, day as int),
{
    match NaiveDate::from_ymd_opt(year, month, day) {
        Some(date) => Some(date.to_epoch_days()),
        None => None,
    }
}

/// A moment in UTC, in whole seconds since 1970-01-01 00:00:00.
#[derive(Clone, Copy, Debug, PartialEq, Eq, Structural)]
pub struct Moment {
    pub secs: i64,
}

impl Moment {
    /// The moment lies within the dates that chrono can hold.
    pub open spec fn is_valid(self) -> bool {
        MIN_TIMESTAMP <= self.secs <= MAX_TIMESTAMP
    }

    /// Days since 1970-01-01 (negative before it).
    pub open spec fn epoch_day(self) -> int {
        self.secs as int / SECONDS_PER_DAY as int
    }

    /// Calendar date of the moment.
    pub open spec fn date_spec(self) -> (int, int, int) {
        civil_date_of(self.epoch_day())
    }

    /// Seconds since midnight of the moment's day.
    pub open spec fn second_of_day(self) -> int {
        self.secs as int % SECONDS_PER_DAY as int
    }

    /// The moment at a timestamp, if chrono can hold it.
    pub fn from_timestamp(secs: i64) -> (r: Option<Moment>)
        ensures
            r is Some <==> MIN_TIMESTAMP <= secs <= MAX_TIMESTAMP,
            r is Some ==> r->0.secs == secs,
    {
        if MIN_TIMESTAMP <= secs && secs <= MAX_TIMESTAMP {
            Some(Moment { secs })
        } else {
            None
        }
    }

    /// The moment at a calendar date and time of day in UTC. `None` exactly
    /// where the time of day is out of range (hour 24 or more, minute or second
    /// 60 or more) or the date does not exist.
    pub fn from_ymd_hms(year: i32, month: u32, day: u32, hour: u32, minute: u32, second: u32) -> (r:
        Option<Moment>)
        ensures
            r is Some ==> r->0.is_valid(),
            r is Some ==> r->0.secs == epoch_day_of(year as int, month as int, day as int)
                * SECONDS_PER_DAY + hour * 3600 + minute * 60 + second,
            r is Some <==> hour < 24 && minute < 60 && second < 60
                && is_calendar_date(year as int, month as int, day as int),
            r is Some ==> r->0.date_spec() == (year as int, month as int, day as int),
    {
        if hour >= 24 || minute >= 60 || second >= 60 {
            return None;
        }
        match day_number_of_date(year, month, day) {
            Some(epoch_day) => {
                let secs = epoch_day as i64 * SECONDS_PER_DAY + hour as i64 * 3600 + minute as i64 * 60
                    + second as i64;
                Some(Moment { secs })
            },
            None => None,
        }
    }

    /// Seconds since 1970-01-01 00:00:00 UTC.
    pub fn timestamp(&self) -> (r: i64)
        ensures
            r == self.secs,
    {
        self.secs
    }

    /// Whole seconds from `earlier` to this moment.
    pub fn seconds_since(&self, earlier: &Moment) -> (r: u64)
        requires
            self.is_valid(),
            earlier.is_valid(),
            earlier.secs <= self.secs,
        ensures
            r == self.secs - earlier.secs,
    {
        (self.secs - earlier.secs) as u64
    }

    /// Hour, minute and second of the moment's time of day.
    pub fn time_of_day(&self) -> (r: (u64, u64, u64))
        ensures
            r.0 == self.second_of_day() / 3600,
            r.1 == self.second_of_day() % 3600 / 60,
            r.2 == self.second_of_day() % 60,
            r.0 < 24 && r.1 < 60 && r.2 < 60,
    {
        let mut of_day = self.secs % SECONDS_PER_DAY;
        if of_day < 0 {
            of_day = of_day + SECONDS_PER_DAY;
        }
        assert(of_day == self.second_of_day());
        ((of_day / 3600) as u64, (of_day % 3600 / 60) as u64, (of_day % 60) as u64)
    }

    /// Year, month and day of the moment's calendar date.
    pub fn date(&self) -> (r: (i32, u32, u32))
        requires
            self.is_valid(),
        ensures
            (r.0 as int, r.1 as int, r.2 as int) == civil_date_of(self.epoch_day()),
            1 <= r.1 <= 12,
            1 <= r.2 <= 31,
    {
        let mut epoch_day = self.secs / SECONDS_PER_DAY;
        if self.secs % SECONDS_PER_DAY < 0 {
            epoch_day = epoch_day - 1;
        }
        assert(epoch_day == self.epoch_day());
        calendar_date(epoch_day as i32).unwrap()
    }
}

} // verus!
