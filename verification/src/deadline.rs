use crate::text::{digit_value, is_digit};
use crate::timestamp::{days_in_month, month_length, now_local, Timestamp};
use vstd::prelude::*;

verus! {

/// A deadline as the user words it, before it is tied to a date.
#[derive(Clone, Copy, Debug, PartialEq, Eq, Structural)]
pub enum VagueTime {
    Tomorrow,
    Today,
    Evening,
    NextWeek,
    /// A day of the current month.
    Day(u8),
}

/// The number that a run of digits writes; leading zeros count for nothing.
pub open spec fn digits_value(s: Seq<char>) -> nat
    decreases s.len(),
{
    if s.len() == 0 {
        0
    } else {
        (digits_value(s.drop_last()) * 10 + digit_value(s.last())) as nat
    }
}

/// Whether `s` holds digits only.
pub open spec fn all_digits(s: Seq<char>) -> bool {
    forall|i: int| 0 <= i < s.len() ==> is_digit(#[trigger] s[i])
}

/// `s` without the plus sign that may stand in front of a number.
pub open spec fn without_plus(s: Seq<char>) -> Seq<char> {
    if s.len() > 0 && s[0] == '+' {
        s.skip(1)
    } else {
        s
    }
}

/// The day number that `s` writes: digits, at least one, with or without a plus sign in
/// front, and nothing else; the number is at most 255.
pub open spec fn day_number(s: Seq<char>) -> Option<u8> {
    let digits = without_plus(s);
    if digits.len() > 0 && all_digits(digits) && digits_value(digits) <= 255 {
        Some(digits_value(digits) as u8)
    } else {
        None
    }
}

/// What a deadline argument means, if anything.
pub open spec fn vague_time_of(s: Seq<char>) -> Option<VagueTime> {
    if s == "tomorrow"@ {
        Some(VagueTime::Tomorrow)
    } else if s == "today"@ || s == "tonight"@ {
        Some(VagueTime::Today)
    } else if s == "evening"@ {
        Some(VagueTime::Evening)
    } else if s == "week"@ || s == "next week"@ {
        Some(VagueTime::NextWeek)
    } else {
        match day_number(s) {
            Some(d) => Some(VagueTime::Day(d)),
            None => None,
        }
    }
}

/// Reads a day number.
pub fn parse_day_number(s: &str) -> (r: Option<u8>)
    ensures
        r == day_number(s@),
{
    let len = s.unicode_len();
    let start: usize = if len > 0 && s.get_char(0) == '+' {
        1
    } else {
        0
    };
    if start == len {
        return None;
    }
    let ghost digits = without_plus(s@);
    assert(digits =~= s@.skip(start as int));
    // `value` is the number read so far, or 256 for any greater one.
    let mut value: u32 = 0;
    let mut i: usize = start;
    while i < len
        invariant
            start <= i <= len,
            len == s@.len(),
            digits == without_plus(s@),
            digits =~= s@.skip(start as int),
            all_digits(digits.take(i - start)),
            value <= 256,
            value == if digits_value(digits.take(i - start)) <= 255 {
                digits_value(digits.take(i - start))
            } else {
                256
            },
        decreases len - i,
    {
        let c = s.get_char(i);
        if c < '0' || c > '9' {
            assert(!is_digit(digits[i - start]));
            return None;
        }
        let d: u32 = c as u32 - 48;
        proof {
            let grown = digits.take(i - start + 1);
            assert(grown.drop_last() =~= digits.take(i - start));
            assert(grown.last() == c);
            assert(digits_value(grown) == digits_value(digits.take(i - start)) * 10 + d);
        }
        value = if value * 10 + d > 255 {
            256
        } else {
            value * 10 + d
        };
        i += 1;
    }
    assert(digits.take(len - start) =~= digits);
    if value <= 255 {
        Some(value as u8)
    } else {
        None
    }
}

impl VagueTime {
    /// Whether `s` is a deadline argument: one of the words `tomorrow`, `today`,
    /// `tonight`, `evening`, `week` and `next week`, or the number of a day of the month.
    pub fn understands(s: &str) -> (r: bool)
        ensures
            r == vague_time_of(s@) is Some,
    {
        s.eq("tomorrow") || s.eq("today") || s.eq("tonight") || s.eq("evening") || s.eq("week")
            || s.eq("next week") || parse_day_number(s).is_some()
    }

    /// Reads a deadline argument. Anything that is no deadline argument is left to the
    /// caller, who can ask `understands` first.
    pub fn from_str(s: &str) -> (r: Result<VagueTime, ()>)
        requires
            vague_time_of(s@) is Some,
        ensures
            r == Ok::<VagueTime, ()>(vague_time_of(s@)->0),
    {
        if s.eq("tomorrow") {
            Ok(VagueTime::Tomorrow)
        } else if s.eq("today") || s.eq("tonight") {
            Ok(VagueTime::Today)
        } else if s.eq("evening") {
            Ok(VagueTime::Evening)
        } else if s.eq("week") || s.eq("next week") {
            Ok(VagueTime::NextWeek)
        } else {
            Ok(VagueTime::Day(parse_day_number(s).unwrap()))
        }
    }

    /// The moment that the deadline names when the clock shows `now`.
    ///
    /// `Tomorrow` and `NextWeek` are one day and seven days after `now`. `Today` is 23:30
    /// and `Evening` 23:00 on the date of `now`. `Day(d)` is 15:00 on day `d` of the month
    /// of `now`, and no moment where that month has no such day.
    pub open spec fn deadline_at(&self, now: Timestamp) -> Option<Timestamp> {
        match *self {
            VagueTime::Tomorrow => now.plus_days(1),
            VagueTime::Today => Some(now.at(23, 30)),
            VagueTime::Evening => Some(now.at(23, 0)),
            VagueTime::NextWeek => now.plus_days(7),
            VagueTime::Day(d) => if 1 <= d <= days_in_month(now.year as int, now.month as int) {
                Some(Timestamp { day: d as u32, ..now.at(15, 0) })
            } else {
                None
            },
        }
    }

    /// Whether a day number names a day that the month of `now` has. The other wordings
    /// name no day of a month, and pass.
    pub open spec fn fits_month(&self, now: Timestamp) -> bool {
        *self matches VagueTime::Day(d) ==> 1 <= d <= days_in_month(
            now.year as int,
            now.month as int,
        )
    }

    /// Exec form of `fits_month`.
    pub fn is_in_month(&self, now: &Timestamp) -> (r: bool)
        ensures
            r == self.fits_month(*now),
    {
        match self {
            VagueTime::Day(d) => 1 <= *d && *d as u32 <= month_length(now.year, now.month),
            _ => true,
        }
    }

    /// Ties the deadline to a date, given what the clock shows. A day that the month of
    /// `now` lacks is left to the caller, who can ask `is_in_month` first. No moment comes
    /// back only where `Tomorrow` or `NextWeek` would pass the end of `MAX_YEAR`.
    pub fn concretise_at(&self, now: &Timestamp) -> (r: Option<Timestamp>)
        requires
            now.wf(),
            self.fits_month(*now),
        ensures
            r == self.deadline_at(*now),
            r matches Some(t) ==> t.wf(),
            *self == VagueTime::Today ==> (r matches Some(t) && t.same_date(now) && t.hour == 23
                && t.minute == 30 && t.second == 0 && t.nanosecond == 0),
    {
        match self {
            VagueTime::Tomorrow => now.add_days(1),
            VagueTime::Today => Some(
                Timestamp { hour: 23, minute: 30, second: 0, nanosecond: 0, ..*now },
            ),
            VagueTime::Evening => Some(
                Timestamp { hour: 23, minute: 0, second: 0, nanosecond: 0, ..*now },
            ),
            VagueTime::NextWeek => now.add_days(7),
            VagueTime::Day(d) => Some(
                Timestamp {
                    day: *d as u32,
                    hour: 15,
                    minute: 0,
                    second: 0,
                    nanosecond: 0,
                    ..*now
                },
            ),
        }
    }

    /// Ties the deadline to a date by this machine's clock. No moment comes back where
    /// the month that the clock shows lacks the day, or the date would pass the end of
    /// `MAX_YEAR`.
    pub fn concretise(&self) -> (r: Option<Timestamp>)
        ensures
            exists|now: Timestamp| now.wf() && r == #[trigger] self.deadline_at(now),
            r matches Some(t) ==> t.wf(),
            *self == VagueTime::Today ==> (r matches Some(t) && t.hour == 23 && t.minute == 30
                && t.second == 0 && t.nanosecond == 0),
    {
        let now = now_local();
        let r = if self.is_in_month(&now) {
            self.concretise_at(&now)
        } else {
            None
        };
        assert(r == self.deadline_at(now));
        r
    }
}

} // verus!
