//! Recurrence rules, run histories and the errors configuration can
//! raise.
//!
//! A rule is immutable once built: a positive count of time units
//! between firings, plus three independent optional gates (a time of
//! day, a weekday, a cap on the total number of firings). The run
//! history is the only mutable state a job carries: when it last fired,
//! and how many firings remain if the rule is capped.

use vstd::prelude::*;
use crate::time::{TimeOfDay, Timestamp, Weekday};
use crate::time::{
    time_of_day_wf, SECONDS_PER_DAY, SECONDS_PER_HOUR, SECONDS_PER_MINUTE, SECONDS_PER_WEEK,
};

verus! {

/// The unit a rule's interval is counted in.
#[derive(Clone, Copy, Debug, PartialEq, Eq, Structural)]
pub enum TimeUnit {
    Seconds,
    Minutes,
    Hours,
    Days,
    Weeks,
}

/// The length of one time unit in seconds. The mapping is exact and
/// calendar-agnostic: a day is always 86400 seconds, a week 604800.
pub open spec fn spec_unit_seconds(u: TimeUnit) -> int {
    match u {
        TimeUnit::Seconds => 1,
        TimeUnit::Minutes => SECONDS_PER_MINUTE as int,
        TimeUnit::Hours => SECONDS_PER_HOUR as int,
        TimeUnit::Days => SECONDS_PER_DAY as int,
        TimeUnit::Weeks => SECONDS_PER_WEEK as int,
    }
}

impl TimeUnit {
    /// The length of one unit in seconds.
    pub fn unit_seconds(&self) -> (s: u64)
        ensures
            s == spec_unit_seconds(*self),
            1 <= s <= SECONDS_PER_WEEK,
    {
        match self {
            TimeUnit::Seconds => 1,
            TimeUnit::Minutes => SECONDS_PER_MINUTE,
            TimeUnit::Hours => SECONDS_PER_HOUR,
            TimeUnit::Days => SECONDS_PER_DAY,
            TimeUnit::Weeks => SECONDS_PER_WEEK,
        }
    }
}

/// An immutable description of when a job should fire.
#[derive(Clone, Copy, Debug, PartialEq, Eq, Structural)]
pub struct RecurrenceRule {
    /// How many time units must elapse between firings.
    pub interval: u64,
    /// The unit `interval` is counted in.
    pub time_unit: TimeUnit,
    /// If set, the job fires only at or after this time of day.
    pub at_time: Option<TimeOfDay>,
    /// If set, the job fires only on this weekday.
    pub weekday: Option<Weekday>,
    /// If set, the job fires at most this many times ever.
    pub repeat_limit: Option<u32>,
}

/// A well-formed rule: its time-of-day gate, if set, is in range.
pub open spec fn rule_wf(r: RecurrenceRule) -> bool {
    match r.at_time {
        Some(t) => time_of_day_wf(t),
        None => true,
    }
}

/// A job's mutable execution state.
#[derive(Clone, Copy, Debug, PartialEq, Eq, Structural)]
pub struct RunHistory {
    /// When the job last fired; `None` until the first firing.
    pub last_run: Option<Timestamp>,
    /// How many firings remain; present exactly when the rule carries a
    /// repeat limit, and decremented on each firing. At zero the job is
    /// permanently inert.
    pub remaining_runs: Option<u32>,
}

impl RunHistory {
    /// The history of a job that has never fired: no last run, and the
    /// rule's repeat limit, if any, still whole.
    pub fn fresh(repeat_limit: Option<u32>) -> (h: RunHistory)
        ensures
            h == (RunHistory { last_run: None, remaining_runs: repeat_limit }),
    {
        RunHistory { last_run: None, remaining_runs: repeat_limit }
    }
}

/// A history that matches its rule: a remaining-run count is carried
/// exactly when the rule caps firings, and never exceeds the cap.
pub open spec fn history_matches_rule(h: RunHistory, r: RecurrenceRule) -> bool {
    match r.repeat_limit {
        Some(limit) => match h.remaining_runs {
            Some(n) => n <= limit,
            None => false,
        },
        None => h.remaining_runs is None,
    }
}

/// What can go wrong while a job is configured. Evaluation itself
/// never fails: everything malformed is rejected here, before a job
/// exists.
#[derive(Clone, Copy, Debug, PartialEq, Eq, Structural)]
pub enum ScheduleError {
    /// The builder was finalized without a time unit.
    Configuration,
    /// A time-of-day literal was not a well-formed `HH:MM`.
    Parse,
}

} // verus!
