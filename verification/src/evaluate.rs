//! The due-time evaluator: given a rule, a run history and one
//! injected "now", decide whether the job fires at this instant, and
//! say exactly how the history changes when it does.
//!
//! The decision is a cascade of gates, checked in a fixed order:
//!
//! 1. an exhausted job (no remaining runs) never fires again;
//! 2. a weekday-restricted job is inert on every other weekday,
//!    however much time has elapsed;
//! 3. a job that has fired before must wait out its full interval,
//!    compared non-strictly, so it is eligible exactly at the
//!    threshold instant; a job that has never fired passes this gate;
//! 4. a time-of-day gate defers firing until that time of day is
//!    reached, and, for day- or week-unit jobs only, suppresses a
//!    second firing on the calendar date of the previous one.
//!
//! A firing records "now" as the last run and spends one remaining run
//! if the rule is capped.

use vstd::prelude::*;
use crate::rule::{
    history_matches_rule, rule_wf, spec_unit_seconds, RecurrenceRule, RunHistory, TimeUnit,
};
use crate::time::{
    spec_day_number, spec_second_of_day, spec_time_of_day_seconds, spec_weekday_of, Timestamp,
};

verus! {

/// The elapsed time, in seconds, a rule demands between firings.
pub open spec fn spec_threshold_seconds(r: RecurrenceRule) -> int {
    r.interval * spec_unit_seconds(r.time_unit)
}

/// Whether the interval gate passes: a job that has never run always
/// passes; otherwise at least the rule's threshold must have elapsed
/// since the last run, compared non-strictly.
pub open spec fn spec_interval_elapsed(r: RecurrenceRule, h: RunHistory, now: Timestamp) -> bool {
    match h.last_run {
        None => true,
        Some(last) => now.secs - last.secs >= spec_threshold_seconds(r),
    }
}

/// Whether a firing now would repeat on the calendar date of the last
/// one. Only day- and week-unit jobs are held back by this; for finer
/// units the rule's own interval governs alone.
pub open spec fn spec_same_date_repeat(r: RecurrenceRule, h: RunHistory, now: Timestamp) -> bool {
    match h.last_run {
        None => false,
        Some(last) => (r.time_unit is Days || r.time_unit is Weeks)
            && spec_day_number(last) == spec_day_number(now),
    }
}

/// Whether the time-of-day gate passes: vacuously without an `at_time`;
/// with one, "now" must have reached that time of day, and a day- or
/// week-unit job must not already have fired on this calendar date.
pub open spec fn spec_time_gate_passes(r: RecurrenceRule, h: RunHistory, now: Timestamp) -> bool {
    match r.at_time {
        None => true,
        Some(t) => spec_second_of_day(now) >= spec_time_of_day_seconds(t)
            && !spec_same_date_repeat(r, h, now),
    }
}

/// The whole due-time decision: the job fires at `now` exactly when it
/// is not exhausted, the weekday matches if one is demanded, its
/// interval has elapsed, and the time-of-day gate passes.
pub open spec fn spec_due(r: RecurrenceRule, h: RunHistory, now: Timestamp) -> bool {
    &&& h.remaining_runs != Some(0u32)
    &&& match r.weekday {
        None => true,
        Some(w) => spec_weekday_of(now) == w,
    }
    &&& spec_interval_elapsed(r, h, now)
    &&& spec_time_gate_passes(r, h, now)
}

/// The history after a firing at `now`: the last run becomes `now`,
/// and a remaining-run count is decremented.
pub open spec fn spec_fired(h: RunHistory, now: Timestamp) -> RunHistory {
    RunHistory {
        last_run: Some(now),
        remaining_runs: match h.remaining_runs {
            None => None,
            Some(n) => if n == 0 {
                Some(0u32)
            } else {
                Some((n - 1) as u32)
            },
        },
    }
}

/// One evaluation tick of a single job: the history after a firing if
/// the job is due at `now`, unchanged otherwise.
pub open spec fn spec_step(r: RecurrenceRule, h: RunHistory, now: Timestamp) -> RunHistory {
    if spec_due(r, h, now) {
        spec_fired(h, now)
    } else {
        h
    }
}

/// The elapsed-time threshold of a rule, or `None` where the
/// mathematical threshold exceeds `u64::MAX` seconds (such a threshold
/// can never have elapsed between two representable instants).
fn threshold_seconds(r: &RecurrenceRule) -> (t: Option<u64>)
    ensures
        match t {
            Some(s) => s == spec_threshold_seconds(*r),
            None => spec_threshold_seconds(*r) > u64::MAX,
        },
{
    r.interval.checked_mul(r.time_unit.unit_seconds())
}

/// Decides whether a job with rule `r` and history `h` fires at `now`.
/// Pure: the decision is exactly `spec_due`, and nothing is mutated.
pub fn evaluate(r: &RecurrenceRule, h: &RunHistory, now: Timestamp) -> (due: bool)
    requires
        rule_wf(*r),
    ensures
        due == spec_due(*r, *h, now),
{
    if let Some(n) = h.remaining_runs {
        if n == 0 {
            return false;
        }
    }

    if let Some(wanted) = r.weekday {
        if now.weekday() != wanted {
            return false;
        }
    }

    let should_run: bool = match h.last_run {
        None => true,
        Some(last) => {
            if now.secs < last.secs {
                false
            } else {
                let elapsed: u64 = now.secs - last.secs;
                match threshold_seconds(r) {
                    Some(threshold) => elapsed >= threshold,
                    None => false,
                }
            }
        },
    };
    if !should_run {
        return false;
    }

    if let Some(at) = r.at_time {
        if now.second_of_day() < at.seconds_into_day() {
            return false;
        }
        if let Some(last) = h.last_run {
            match r.time_unit {
                TimeUnit::Days | TimeUnit::Weeks => {
                    if last.day_number() == now.day_number() {
                        return false;
                    }
                },
                _ => {},
            }
        }
    }

    true
}

/// Records a firing at `now` in a job's history. Callers fire a job
/// only when it is due; the last run then only ever moves forward, and
/// a remaining-run count, being nonzero when due, never wraps.
pub fn record_fire(h: &mut RunHistory, now: Timestamp)
    ensures
        *final(h) == spec_fired(*old(h), now),
{
    h.last_run = Some(now);
    if let Some(n) = h.remaining_runs {
        if n > 0 {
            h.remaining_runs = Some(n - 1);
        }
    }
}

/// A registered job: an immutable recurrence rule together with the
/// mutable run history the evaluator maintains for it. The payload the
/// job stands for is a capability of the embedding runtime; the core
/// only signals that it is to be invoked.
#[derive(Clone, Copy, Debug, PartialEq, Eq, Structural)]
pub struct Job {
    pub rule: RecurrenceRule,
    pub history: RunHistory,
}

/// A well-formed job: its rule is well formed and its history carries
/// a remaining-run count exactly as the rule demands.
pub open spec fn job_wf(j: Job) -> bool {
    rule_wf(j.rule) && history_matches_rule(j.history, j.rule)
}

/// Anything that can be asked, once per tick, whether it runs now.
pub trait Scheduler: Sized {
    /// Whether this scheduler's state is well formed.
    spec fn sched_wf(&self) -> bool;

    /// Whether it fires at `now`.
    spec fn due_at(&self, now: Timestamp) -> bool;

    /// Its state after one whole tick at `now`.
    spec fn after_tick(&self, now: Timestamp) -> Self;

    /// Evaluates against `now`, commits the state change of a firing,
    /// and reports whether the payload is to be invoked.
    fn run_if_due(&mut self, now: Timestamp) -> (fired: bool)
        requires
            old(self).sched_wf(),
        ensures
            fired == old(self).due_at(now),
            *final(self) == old(self).after_tick(now),
            final(self).sched_wf(),
    ;
}

impl Job {
    /// Builds a job from a rule, with the history of a job that has
    /// never fired.
    pub fn new(rule: RecurrenceRule) -> (j: Job)
        requires
            rule_wf(rule),
        ensures
            j.rule == rule,
            j.history == (RunHistory { last_run: None, remaining_runs: rule.repeat_limit }),
            job_wf(j),
    {
        Job { rule, history: RunHistory::fresh(rule.repeat_limit) }
    }

    /// Whether this job fires at `now`, without committing anything.
    pub fn is_due(&self, now: Timestamp) -> (due: bool)
        requires
            rule_wf(self.rule),
        ensures
            due == spec_due(self.rule, self.history, now),
    {
        evaluate(&self.rule, &self.history, now)
    }

    /// Commits the history change of a firing at `now`. The embedding
    /// runtime invokes the payload first and records only a firing
    /// that returned, so a payload that never returns is not recorded
    /// as having run.
    pub fn mark_fired(&mut self, now: Timestamp)
        requires
            spec_due(old(self).rule, old(self).history, now),
        ensures
            final(self).rule == old(self).rule,
            final(self).history == spec_fired(old(self).history, now),
    {
        record_fire(&mut self.history, now);
    }
}

impl Scheduler for Job {
    open spec fn sched_wf(&self) -> bool {
        job_wf(*self)
    }

    open spec fn due_at(&self, now: Timestamp) -> bool {
        spec_due(self.rule, self.history, now)
    }

    open spec fn after_tick(&self, now: Timestamp) -> Job {
        Job { rule: self.rule, history: spec_step(self.rule, self.history, now) }
    }

    /// One whole tick of this job: fires it exactly when it is due at
    /// `now`, and says so.
    fn run_if_due(&mut self, now: Timestamp) -> (fired: bool) {
        let due = self.is_due(now);
        if due {
            self.mark_fired(now);
        }
        due
    }
}

} // verus!
