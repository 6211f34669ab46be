use chrono::Datelike;
use chrono::Timelike;
use crate::text::two_digits;
use vstd::prelude::*;

verus! {

/// The first year that a timestamp can lie in.
pub const MIN_YEAR: i32 = -262_143;

/// The last year that a timestamp can lie in.
pub const MAX_YEAR: i32 = 262_142;

/// Leap years of the proleptic Gregorian calendar.
pub open spec fn is_leap_year(year: int) -> bool {
    year % 4 == 0 && (year % 100 != 0 || year % 400 == 0)
}

/// The number of days of a month, for `month` from 1 to 12.
pub open spec fn days_in_month(year: int, month: int) -> int {
    if month == 2 {
        if is_leap_year(year) {
            29
        } else {
            28
        }
    } else if month == 4 || month == 6 || month == 9 || month == 11 {
        30
    } else {
        31
    }
}

/// The date that follows the date given as year, month and day.
pub open spec fn next_day(year: int, month: int, day: int) -> (int, int, int) {
    if day < days_in_month(year, month) {
        (year, month, day + 1)
    } else if month < 12 {
        (year, month + 1, 1)
    } else {
        (year + 1, 1, 1)
    }
}

/// The date that lies `days` days after the date given as year, month and day.
pub open spec fn days_later(year: int, month: int, day: int, days: nat) -> (int, int, int)
    decreases days,
{
    if days == 0 {
        (year, month, day)
    } else {
        let next = next_day(year, month, day);
        days_later(next.0, next.1, next.2, (days - 1) as nat)
    }
}

/// Whether year, month and day name a date of the calendar.
pub open spec fn is_date(year: int, month: int, day: int) -> bool {
    1 <= month <= 12 && 1 <= day <= days_in_month(year, month)
}

/// Counting days forward from a date gives dates, in the same year or a later one.
pub proof fn lemma_days_later_is_date(year: int, month: int, day: int, days: nat)
    requires
        is_date(year, month, day),
    ensures
        is_date(
            days_later(year, month, day, days).0,
            days_later(year, month, day, days).1,
            days_later(year, month, day, days).2,
        ),
        days_later(year, month, day, days).0 >= year,
    decreases days,
{
    if days > 0 {
        let next = next_day(year, month, day);
        lemma_days_later_is_date(next.0, next.1, next.2, (days - 1) as nat);
    }
}

/// A point in time as a wall clock shows it: a calendar date, a time of day and the
/// distance of that clock from UTC.
#[derive(Clone, Copy, Debug, PartialEq, Eq, Structural)]
pub struct Timestamp {
    pub year: i32,
    /// 1 to 12.
    pub month: u32,
    /// 1 to the length of the month.
    pub day: u32,
    pub hour: u32,
    pub minute: u32,
    pub second: u32,
    /// Nanoseconds since the last full second. A leap second is second 59 with a
    /// value of 1,000,000,000 or more.
    pub nanosecond: u32,
    /// Seconds that the clock is ahead of UTC.
    pub offset_seconds: i32,
}

impl Timestamp {
    /// The date exists, the time of day is one of that day, and the offset is less than a day.
    pub open spec fn wf(&self) -> bool {
        &&& MIN_YEAR <= self.year <= MAX_YEAR
        &&& 1 <= self.month <= 12
        &&& 1 <= self.day <= days_in_month(self.year as int, self.month as int)
        &&& self.hour < 24
        &&& self.minute < 60
        &&& self.second < 60
        &&& self.nanosecond < 2_000_000_000
        &&& (self.nanosecond >= 1_000_000_000 ==> self.second == 59)
        &&& -86_400 < self.offset_seconds < 86_400
    }

    /// Whether the date of `self` is the date of `other` or an earlier one.
    pub open spec fn date_on_or_before(&self, other: &Timestamp) -> bool {
        ||| self.year < other.year
        ||| self.year == other.year && self.month < other.month
        ||| self.year == other.year && self.month == other.month && self.day <= other.day
    }

    /// Whether `self` and `other` lie on the same date.
    pub open spec fn same_date(&self, other: &Timestamp) -> bool {
        self.year == other.year && self.month == other.month && self.day == other.day
    }

    /// The same date at another time of day, on the same clock.
    pub open spec fn at(&self, hour: u32, minute: u32) -> Timestamp {
        Timestamp { hour, minute, second: 0, nanosecond: 0, ..*self }
    }

    /// The moment `days` days of 86,400 seconds after `self`, on the same clock: the same
    /// time of day on a later date. A moment within a leap second is taken for the second
    /// before it. No moment is given once the date passes the end of `MAX_YEAR`.
    pub open spec fn plus_days(&self, days: nat) -> Option<Timestamp> {
        let date = days_later(self.year as int, self.month as int, self.day as int, days);
        if date.0 > MAX_YEAR {
            None
        } else {
            Some(
                Timestamp {
                    year: date.0 as i32,
                    month: date.1 as u32,
                    day: date.2 as u32,
                    nanosecond: if days > 0 && self.nanosecond >= 1_000_000_000 {
                        (self.nanosecond - 1_000_000_000) as u32
                    } else {
                        self.nanosecond
                    },
                    ..*self
                },
            )
        }
    }

    /// How a deadline is shown: on a line of its own, as day and month, then hour and
    /// minute, each in two digits.
    pub open spec fn deadline_note(&self) -> Seq<char> {
        "\n\t Deadline: "@ + two_digits(self.day as int) + "-"@ + two_digits(self.month as int)
            + " "@ + two_digits(self.hour as int) + ":"@ + two_digits(self.minute as int)
    }

    /// Whether the fields name a date and a time of day that exist.
    pub fn is_valid(&self) -> (r: bool)
        ensures
            r == self.wf(),
    {
        let year_fits = MIN_YEAR <= self.year && self.year <= MAX_YEAR;
        let date_exists = 1 <= self.month && self.month <= 12 && 1 <= self.day && self.day
            <= month_length(self.year, self.month);
        let time_exists = self.hour < 24 && self.minute < 60 && self.second < 60;
        let fraction_fits = self.nanosecond < 1_000_000_000 || (self.nanosecond < 2_000_000_000
            && self.second == 59);
        let offset_fits = -86_400 < self.offset_seconds && self.offset_seconds < 86_400;
        year_fits && date_exists && time_exists && fraction_fits && offset_fits
    }

    /// Whether the date of `self` is the date of `other` or an earlier one.
    pub fn is_on_or_before(&self, other: &Timestamp) -> (r: bool)
        ensures
            r == self.date_on_or_before(other),
    {
        if self.year != other.year {
            self.year < other.year
        } else if self.month != other.month {
            self.month < other.month
        } else {
            self.day <= other.day
        }
    }

    /// The same time of day `days` days later.
    pub fn add_days(&self, days: u32) -> (r: Option<Timestamp>)
        requires
            self.wf(),
        ensures
            r == self.plus_days(days as nat),
            r matches Some(t) ==> t.wf(),
    {
        proof {
            lemma_days_later_is_date(
                self.year as int,
                self.month as int,
                self.day as int,
                days as nat,
            );
        }
        checked_add_days(self, days)
    }
}

/// The length of a month.
pub fn month_length(year: i32, month: u32) -> (r: u32)
    ensures
        r == days_in_month(year as int, month as int),
{
    if month == 2 {
        // The calendar repeats every 400 years: count from a year before all others.
        let y: i64 = year as i64 + 2_147_484_000;
        assert((y % 4 == 0) == (year as int % 4 == 0));
        assert((y % 100 == 0) == (year as int % 100 == 0));
        assert((y % 400 == 0) == (year as int % 400 == 0));
        if y % 4 == 0 && (y % 100 != 0 || y % 400 == 0) {
            29
        } else {
            28
        }
    } else if month == 4 || month == 6 || month == 9 || month == 11 {
        30
    } else {
        31
    }
}

/// chrono's `NaiveDateTime::checked_add_signed` with `TimeDelta::days(days)`, on the date
/// and time of day of `t` as `NaiveDate::from_ymd_opt` and `and_hms_nano_opt` build them:
/// the result is the same time of day `days` days later, out of a leap second if `t` was
/// in one and `days` is not 0, and there is none where the date would pass the last one
/// that chrono can hold, the end of `MAX_YEAR`. The offset is carried over.
#[verifier::external_body]
fn checked_add_days(t: &Timestamp, days: u32) -> (r: Option<Timestamp>)
    requires
        t.wf(),
    ensures
        r == t.plus_days(days as nat),
{
    let date = chrono::NaiveDate::from_ymd_opt(t.year, t.month, t.day).unwrap();
    let at = date.and_hms_nano_opt(t.hour, t.minute, t.second, t.nanosecond).unwrap();
    let later = at.checked_add_signed(chrono::TimeDelta::days(i64::from(days)))?;
    Some(Timestamp {
        year: later.year(),
        month: later.month(),
        day: later.day(),
        nanosecond: later.nanosecond(),
        ..*t
    })
}

/// chrono's `NaiveDateTime::format` on the date and time of day of `t`, and the text
/// that the result displays as. The contract speaks of one pattern only, the one that
/// shows a deadline: its text comes back as it stands, with `%d`, `%m`, `%H` and `%M`
/// replaced by day, month, hour and minute, each in two digits with a leading zero.
#[verifier::external_body]
pub(crate) fn format_deadline(t: &Timestamp, pattern: &str) -> (r: String)
    requires
        t.wf(),
        pattern@ == "\n\t Deadline: %d-%m %H:%M"@,
    ensures
        r@ == t.deadline_note(),
{
    let date = chrono::NaiveDate::from_ymd_opt(t.year, t.month, t.day).unwrap();
    let at = date.and_hms_nano_opt(t.hour, t.minute, t.second, t.nanosecond).unwrap();
    at.format(pattern).to_string()
}

/// chrono's `Local::now`, taken apart by `naive_local` and `offset` into the fields of
/// the local date and time of day and the seconds by which the local clock is ahead of
/// UTC. Which moment comes back depends on the machine's clock and time zone; the fields
/// are those of a date and a time of day that exist. chrono itself stops the program
/// where the clock is set before the year 1970.
#[verifier::external_body]
pub(crate) fn now_local() -> (r: Timestamp)
    ensures
        r.wf(),
{
    let now = chrono::Local::now();
    let local = now.naive_local();
    Timestamp {
        year: local.year(),
        month: local.month(),
        day: local.day(),
        hour: local.hour(),
        minute: local.minute(),
        second: local.second(),
        nanosecond: local.nanosecond(),
        offset_seconds: now.offset().local_minus_utc(),
    }
}

} // verus!
