//! The time model the scheduler computes with.
//!
//! An instant is a count of whole seconds since the Unix epoch
//! (1970-01-01 00:00:00 UTC). Calendar dates, weekdays and the time of
//! day are all derived from that count by exact integer arithmetic, so
//! every question the evaluator asks of a timestamp is answered here
//! with a proof.

use vstd::prelude::*;

verus! {

/// Seconds in one minute.
pub const SECONDS_PER_MINUTE: u64 = 60;

/// Seconds in one hour.
pub const SECONDS_PER_HOUR: u64 = 3600;

/// Seconds in one day.
pub const SECONDS_PER_DAY: u64 = 86400;

/// Seconds in one week.
pub const SECONDS_PER_WEEK: u64 = 604800;

/// An absolute UTC instant: whole seconds since the Unix epoch.
#[derive(Clone, Copy, Debug, PartialEq, Eq, Structural)]
pub struct Timestamp {
    pub secs: u64,
}

/// A day of the week.
#[derive(Clone, Copy, Debug, PartialEq, Eq, Structural)]
pub enum Weekday {
    Monday,
    Tuesday,
    Wednesday,
    Thursday,
    Friday,
    Saturday,
    Sunday,
}

/// A time of day with minute resolution, as a rule's `at_time` gate has.
#[derive(Clone, Copy, Debug, PartialEq, Eq, Structural)]
pub struct TimeOfDay {
    pub hour: u8,
    pub minute: u8,
}

/// A well-formed time of day: the hour and minute are in range.
pub open spec fn time_of_day_wf(t: TimeOfDay) -> bool {
    t.hour < 24 && t.minute < 60
}

/// The calendar date of an instant, as the number of whole days since
/// the epoch. Two instants fall on the same UTC calendar date exactly
/// when their day numbers are equal.
pub open spec fn spec_day_number(t: Timestamp) -> int {
    t.secs as int / (SECONDS_PER_DAY as int)
}

/// The second of the day an instant falls on, in `0 .. 86400`.
pub open spec fn spec_second_of_day(t: Timestamp) -> int {
    t.secs as int % (SECONDS_PER_DAY as int)
}

/// A time-of-day gate as a second of the day.
pub open spec fn spec_time_of_day_seconds(t: TimeOfDay) -> int {
    t.hour * (SECONDS_PER_HOUR as int) + t.minute * (SECONDS_PER_MINUTE as int)
}

/// The weekday an instant falls on, as an index with Monday 0 through
/// Sunday 6. The epoch day, 1970-01-01, was a Thursday, index 3; each
/// later day advances the index by one, modulo seven.
pub open spec fn spec_weekday_index(t: Timestamp) -> int {
    (spec_day_number(t) + 3) % 7
}

/// The index a weekday stands at, Monday 0 through Sunday 6.
pub open spec fn spec_weekday_number(w: Weekday) -> int {
    match w {
        Weekday::Monday => 0,
        Weekday::Tuesday => 1,
        Weekday::Wednesday => 2,
        Weekday::Thursday => 3,
        Weekday::Friday => 4,
        Weekday::Saturday => 5,
        Weekday::Sunday => 6,
    }
}

/// The weekday an instant falls on.
pub open spec fn spec_weekday_of(t: Timestamp) -> Weekday {
    if spec_weekday_index(t) == 0 {
        Weekday::Monday
    } else if spec_weekday_index(t) == 1 {
        Weekday::Tuesday
    } else if spec_weekday_index(t) == 2 {
        Weekday::Wednesday
    } else if spec_weekday_index(t) == 3 {
        Weekday::Thursday
    } else if spec_weekday_index(t) == 4 {
        Weekday::Friday
    } else if spec_weekday_index(t) == 5 {
        Weekday::Saturday
    } else {
        Weekday::Sunday
    }
}

/// Whether a character is a decimal digit.
pub open spec fn spec_is_digit(c: char) -> bool {
    48 <= c as u32 <= 57
}

/// The value of a decimal digit character.
pub open spec fn spec_digit_value(c: char) -> int
    recommends
        spec_is_digit(c),
{
    c as u32 - 48
}

/// What a time-of-day literal denotes: exactly five characters in the
/// shape `HH:MM`, two digits, a colon, two digits, with the hour below
/// 24 and the minute below 60. Anything else denotes nothing.
pub open spec fn spec_parse_time_of_day(s: Seq<char>) -> Option<TimeOfDay> {
    if s.len() == 5 && spec_is_digit(s[0]) && spec_is_digit(s[1]) && s[2] == ':'
        && spec_is_digit(s[3]) && spec_is_digit(s[4]) {
        let hour = spec_digit_value(s[0]) * 10 + spec_digit_value(s[1]);
        let minute = spec_digit_value(s[3]) * 10 + spec_digit_value(s[4]);
        if hour < 24 && minute < 60 {
            Some(TimeOfDay { hour: hour as u8, minute: minute as u8 })
        } else {
            None
        }
    } else {
        None
    }
}

/// The value of a decimal digit character, or `None` for any other
/// character.
fn digit_value(c: char) -> (v: Option<u8>)
    ensures
        match v {
            Some(d) => spec_is_digit(c) && d == spec_digit_value(c),
            None => !spec_is_digit(c),
        },
{
    let code: u32 = c as u32;
    if 48 <= code && code <= 57 {
        Some((code - 48) as u8)
    } else {
        None
    }
}

/// Parses a `HH:MM` time-of-day literal: the result is exactly what
/// the literal denotes, and `None` for every malformed literal.
pub fn parse_time_of_day(s: &str) -> (r: Option<TimeOfDay>)
    ensures
        r == spec_parse_time_of_day(s@),
        r matches Some(t) ==> time_of_day_wf(t),
{
    let len = s.unicode_len();
    if len != 5 {
        return None;
    }
    if s.get_char(2) != ':' {
        return None;
    }
    let d0 = match digit_value(s.get_char(0)) {
        Some(d) => d,
        None => {
            return None;
        },
    };
    let d1 = match digit_value(s.get_char(1)) {
        Some(d) => d,
        None => {
            return None;
        },
    };
    let d2 = match digit_value(s.get_char(3)) {
        Some(d) => d,
        None => {
            return None;
        },
    };
    let d3 = match digit_value(s.get_char(4)) {
        Some(d) => d,
        None => {
            return None;
        },
    };
    let hour: u8 = d0 * 10 + d1;
    let minute: u8 = d2 * 10 + d3;
    if hour < 24 && minute < 60 {
        Some(TimeOfDay { hour, minute })
    } else {
        None
    }
}

impl Timestamp {
    /// Wraps a count of whole seconds since the Unix epoch.
    pub fn from_unix_seconds(secs: u64) -> (t: Timestamp)
        ensures
            t.secs == secs,
    {
        Timestamp { secs }
    }

    /// The calendar date this instant falls on, as whole days since the
    /// epoch.
    pub fn day_number(&self) -> (d: u64)
        ensures
            d == spec_day_number(*self),
    {
        self.secs / SECONDS_PER_DAY
    }

    /// The second of the day this instant falls on.
    pub fn second_of_day(&self) -> (s: u64)
        ensures
            s == spec_second_of_day(*self),
    {
        self.secs % SECONDS_PER_DAY
    }

    /// The weekday this instant falls on.
    pub fn weekday(&self) -> (w: Weekday)
        ensures
            w == spec_weekday_of(*self),
    {
        let day: u64 = self.secs / SECONDS_PER_DAY;
        let idx: u64 = (day % 7 + 3) % 7;
        proof {
            assert(idx == spec_weekday_index(*self)) by {
                vstd::arithmetic::div_mod::lemma_add_mod_noop(spec_day_number(*self), 3, 7);
            };
        }
        if idx == 0 {
            Weekday::Monday
        } else if idx == 1 {
            Weekday::Tuesday
        } else if idx == 2 {
            Weekday::Wednesday
        } else if idx == 3 {
            Weekday::Thursday
        } else if idx == 4 {
            Weekday::Friday
        } else if idx == 5 {
            Weekday::Saturday
        } else {
            Weekday::Sunday
        }
    }
}

impl TimeOfDay {
    /// Builds a time of day from an in-range hour and minute.
    pub fn new(hour: u8, minute: u8) -> (t: TimeOfDay)
        requires
            hour < 24,
            minute < 60,
        ensures
            t.hour == hour,
            t.minute == minute,
            time_of_day_wf(t),
    {
        TimeOfDay { hour, minute }
    }

    /// This gate as a second of the day.
    pub fn seconds_into_day(&self) -> (s: u64)
        requires
            time_of_day_wf(*self),
        ensures
            s == spec_time_of_day_seconds(*self),
    {
        (self.hour as u64) * SECONDS_PER_HOUR + (self.minute as u64) * SECONDS_PER_MINUTE
    }
}

} // verus!
