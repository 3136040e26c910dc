//! The scheduler registry and the builder jobs are configured with.
//!
//! The registry owns the registered jobs in registration order. One
//! tick evaluates every job independently against a single injected
//! timestamp and reports, in registration order, which jobs fired; the
//! embedding runtime then invokes those jobs' payloads. No job is ever
//! removed: an exhausted job stays registered, permanently inert.
//!
//! A builder is a plain value: it accumulates the configuration of one
//! job and is consumed by its finalization, which validates it and
//! registers the job.

use vstd::prelude::*;
use crate::evaluate::{job_wf, spec_due, spec_fired, spec_step, Job, Scheduler};
use crate::rule::{rule_wf, RecurrenceRule, RunHistory, ScheduleError, TimeUnit};
use crate::time::{parse_time_of_day, spec_parse_time_of_day, TimeOfDay, Timestamp, Weekday};

verus! {

/// The registry: all registered jobs, in registration order.
pub struct JobRunner {
    jobs: Vec<Job>,
}

impl View for JobRunner {
    type V = Seq<Job>;

    closed spec fn view(&self) -> Seq<Job> {
        self.jobs@
    }
}

/// A well-formed registry: every registered job is well formed.
pub open spec fn runner_wf(r: JobRunner) -> bool {
    forall|i: int| 0 <= i < r@.len() ==> #[trigger] job_wf(r@[i])
}

/// The job registered against `now` in one tick: fired and updated if
/// due, untouched otherwise.
pub open spec fn spec_ticked(j: Job, now: Timestamp) -> Job {
    Job { rule: j.rule, history: spec_step(j.rule, j.history, now) }
}

impl JobRunner {
    /// An empty registry.
    pub fn new() -> (r: JobRunner)
        ensures
            r@ =~= Seq::<Job>::empty(),
            runner_wf(r),
    {
        JobRunner { jobs: Vec::new() }
    }

    /// Starts configuring a job that recurs every `interval` time
    /// units; the unit itself, and any gates, are chosen on the
    /// returned builder.
    pub fn every(interval: u64) -> (b: JobBuilder)
        ensures
            b == (JobBuilder {
                interval,
                time_unit: None,
                at_time: None,
                weekday: None,
                repeat: None,
            }),
    {
        JobBuilder { interval, time_unit: None, at_time: None, weekday: None, repeat: None }
    }

    /// Registers a job under `rule`, with the history of a job that
    /// has never fired, and hands back its handle: the job's position
    /// in registration order.
    pub fn register(&mut self, rule: RecurrenceRule) -> (handle: usize)
        requires
            rule_wf(rule),
        ensures
            handle == old(self)@.len(),
            final(self)@ =~= old(self)@.push(
                Job { rule, history: (RunHistory { last_run: None, remaining_runs: rule.repeat_limit }) },
            ),
            runner_wf(*old(self)) ==> runner_wf(*final(self)),
    {
        let handle = self.jobs.len();
        self.jobs.push(Job::new(rule));
        handle
    }

    /// How many jobs are registered.
    pub fn job_count(&self) -> (n: usize)
        ensures
            n == self@.len(),
    {
        self.jobs.len()
    }

    /// The job a handle stands for.
    pub fn job(&self, handle: usize) -> (j: Job)
        requires
            handle < self@.len(),
        ensures
            j == self@[handle as int],
    {
        self.jobs[handle]
    }

    /// Whether one job fires at `now`, committing nothing.
    pub fn is_due(&self, handle: usize, now: Timestamp) -> (due: bool)
        requires
            handle < self@.len(),
            runner_wf(*self),
        ensures
            due == spec_due(self@[handle as int].rule, self@[handle as int].history, now),
    {
        proof {
            assert(job_wf(self@[handle as int]));
        }
        self.jobs[handle].is_due(now)
    }

    /// Commits the history change of one job's firing at `now`. The
    /// embedding runtime invokes the job's payload first, and records
    /// here only a firing whose payload returned.
    pub fn mark_fired(&mut self, handle: usize, now: Timestamp)
        requires
            handle < old(self)@.len(),
            spec_due(old(self)@[handle as int].rule, old(self)@[handle as int].history, now),
        ensures
            final(self)@ =~= old(self)@.update(
                handle as int,
                Job {
                    rule: old(self)@[handle as int].rule,
                    history: spec_fired(old(self)@[handle as int].history, now),
                },
            ),
            runner_wf(*old(self)) ==> runner_wf(*final(self)),
    {
        let job = &mut self.jobs[handle];
        job.mark_fired(now);
        proof {
            assert forall|i: int| runner_wf(*old(self)) && 0 <= i < self@.len()
                implies job_wf(self@[i]) by {
                assert(job_wf(old(self)@[i]));
            }
        }
    }

    /// One evaluation tick: evaluates every job, in registration
    /// order, against the same `now`; commits each due job's firing;
    /// and reports the handles of exactly the jobs that fired, in
    /// increasing registration order. One job's outcome never affects
    /// another's: each is decided against its own state before the
    /// tick.
    pub fn tick(&mut self, now: Timestamp) -> (fired: Vec<usize>)
        requires
            runner_wf(*old(self)),
        ensures
            final(self)@.len() == old(self)@.len(),
            forall|i: int| 0 <= i < old(self)@.len()
                ==> #[trigger] final(self)@[i] == spec_ticked(old(self)@[i], now),
            forall|i: int| 0 <= i < fired@.len() ==> #[trigger] fired@[i] < old(self)@.len(),
            forall|i: int, j: int| 0 <= i < j < fired@.len() ==> fired@[i] < fired@[j],
            forall|k: int| 0 <= k < old(self)@.len()
                ==> (fired@.contains(k as usize) <==> spec_due(
                    old(self)@[k].rule,
                    old(self)@[k].history,
                    now,
                )),
            runner_wf(*final(self)),
    {
        let mut fired: Vec<usize> = Vec::new();
        let mut idx: usize = 0;
        let n = self.jobs.len();
        while idx < n
            invariant
                n == old(self)@.len(),
                idx <= n,
                self@.len() == n,
                runner_wf(*old(self)),
                forall|i: int| idx <= i < n ==> #[trigger] self@[i] == old(self)@[i],
                forall|i: int| 0 <= i < idx
                    ==> #[trigger] self@[i] == spec_ticked(old(self)@[i], now),
                forall|i: int| 0 <= i < fired@.len() ==> #[trigger] fired@[i] < idx,
                forall|i: int, j: int| 0 <= i < j < fired@.len() ==> fired@[i] < fired@[j],
                forall|k: int| 0 <= k < idx
                    ==> (fired@.contains(k as usize) <==> spec_due(
                        old(self)@[k].rule,
                        old(self)@[k].history,
                        now,
                    )),
            decreases n - idx,
        {
            let ghost prev_fired: Seq<usize> = fired@;
            let job = &mut self.jobs[idx];
            assert(job_wf(old(self)@[idx as int]));
            let did_fire = job.run_if_due(now);
            if did_fire {
                fired.push(idx);
            }
            proof {
                if did_fire {
                    assert(fired@ =~= prev_fired.push(idx));
                    assert(fired@.contains(idx)) by {
                        assert(fired@[prev_fired.len() as int] == idx);
                    };
                    assert forall|k: int| 0 <= k < idx implies (#[trigger] fired@.contains(
                        k as usize,
                    ) <==> prev_fired.contains(k as usize)) by {
                        if fired@.contains(k as usize) {
                            let w = choose|w: int|
                                0 <= w < fired@.len() && fired@[w] == k as usize;
                            assert(prev_fired[w] == k as usize);
                        }
                        if prev_fired.contains(k as usize) {
                            let w = choose|w: int|
                                0 <= w < prev_fired.len() && prev_fired[w] == k as usize;
                            assert(fired@[w] == k as usize);
                        }
                    };
                } else {
                    assert(!fired@.contains(idx)) by {
                        assert forall|w: int| 0 <= w < fired@.len() implies fired@[w] != idx by {
                            assert(fired@[w] < idx);
                        };
                    };
                }
            }
            idx += 1;
        }
        proof {
            assert forall|i: int| 0 <= i < self@.len() implies job_wf(self@[i]) by {
                assert(self@[i] == spec_ticked(old(self)@[i], now));
                assert(job_wf(old(self)@[i]));
            }
        }
        fired
    }
}

/// Accumulated configuration of one job, consumed by finalization.
#[derive(Clone, Copy, Debug, PartialEq, Eq, Structural)]
pub struct JobBuilder {
    /// How many time units must elapse between firings.
    pub interval: u64,
    /// The unit the interval is counted in; choosing one is the one
    /// obligation finalization enforces.
    pub time_unit: Option<TimeUnit>,
    /// An optional time-of-day gate.
    pub at_time: Option<TimeOfDay>,
    /// An optional weekday gate.
    pub weekday: Option<Weekday>,
    /// An optional cap on the total number of firings.
    pub repeat: Option<u32>,
}

/// A well-formed builder: its time-of-day gate, if set, is in range.
pub open spec fn builder_wf(b: JobBuilder) -> bool {
    match b.at_time {
        Some(t) => crate::time::time_of_day_wf(t),
        None => true,
    }
}

/// The builder with its unit chosen.
pub open spec fn spec_with_unit(b: JobBuilder, u: TimeUnit) -> JobBuilder {
    JobBuilder {
        interval: b.interval,
        time_unit: Some(u),
        at_time: b.at_time,
        weekday: b.weekday,
        repeat: b.repeat,
    }
}

/// The builder with its weekday gate chosen.
pub open spec fn spec_with_weekday(b: JobBuilder, w: Weekday) -> JobBuilder {
    JobBuilder {
        interval: b.interval,
        time_unit: b.time_unit,
        at_time: b.at_time,
        weekday: Some(w),
        repeat: b.repeat,
    }
}

/// The rule a finalized builder produces, once a unit is chosen.
pub open spec fn spec_built_rule(b: JobBuilder, u: TimeUnit) -> RecurrenceRule {
    RecurrenceRule {
        interval: b.interval,
        time_unit: u,
        at_time: b.at_time,
        weekday: b.weekday,
        repeat_limit: b.repeat,
    }
}

impl JobBuilder {
    /// Counts the interval in seconds.
    pub fn seconds(self) -> (b: Self)
        ensures
            b == spec_with_unit(self, TimeUnit::Seconds),
    {
        JobBuilder { time_unit: Some(TimeUnit::Seconds), ..self }
    }

    /// Counts the interval in minutes.
    pub fn minutes(self) -> (b: Self)
        ensures
            b == spec_with_unit(self, TimeUnit::Minutes),
    {
        JobBuilder { time_unit: Some(TimeUnit::Minutes), ..self }
    }

    /// Counts the interval in hours.
    pub fn hours(self) -> (b: Self)
        ensures
            b == spec_with_unit(self, TimeUnit::Hours),
    {
        JobBuilder { time_unit: Some(TimeUnit::Hours), ..self }
    }

    /// Counts the interval in days.
    pub fn days(self) -> (b: Self)
        ensures
            b == spec_with_unit(self, TimeUnit::Days),
    {
        JobBuilder { time_unit: Some(TimeUnit::Days), ..self }
    }

    /// Counts the interval in weeks.
    pub fn week(self) -> (b: Self)
        ensures
            b == spec_with_unit(self, TimeUnit::Weeks),
    {
        JobBuilder { time_unit: Some(TimeUnit::Weeks), ..self }
    }

    /// Gates firing on a `HH:MM` time of day. A malformed literal is
    /// rejected here, at configuration time, and the builder is lost:
    /// nothing malformed reaches evaluation.
    pub fn at(self, time_str: &str) -> (r: Result<Self, ScheduleError>)
        ensures
            match r {
                Ok(b) => spec_parse_time_of_day(time_str@) matches Some(t) && b == (JobBuilder {
                    interval: self.interval,
                    time_unit: self.time_unit,
                    at_time: Some(t),
                    weekday: self.weekday,
                    repeat: self.repeat,
                }),
                Err(e) => e == ScheduleError::Parse && spec_parse_time_of_day(time_str@) is None,
            },
            builder_wf(self) ==> (r matches Ok(b) ==> builder_wf(b)),
    {
        match parse_time_of_day(time_str) {
            Some(t) => Ok(JobBuilder { at_time: Some(t), ..self }),
            None => Err(ScheduleError::Parse),
        }
    }

    /// Fires only on Mondays.
    pub fn monday(self) -> (b: Self)
        ensures
            b == spec_with_weekday(self, Weekday::Monday),
    {
        JobBuilder { weekday: Some(Weekday::Monday), ..self }
    }

    /// Fires only on Tuesdays.
    pub fn tuesday(self) -> (b: Self)
        ensures
            b == spec_with_weekday(self, Weekday::Tuesday),
    {
        JobBuilder { weekday: Some(Weekday::Tuesday), ..self }
    }

    /// Fires only on Wednesdays.
    pub fn wednesday(self) -> (b: Self)
        ensures
            b == spec_with_weekday(self, Weekday::Wednesday),
    {
        JobBuilder { weekday: Some(Weekday::Wednesday), ..self }
    }

    /// Fires only on Thursdays.
    pub fn thursday(self) -> (b: Self)
        ensures
            b == spec_with_weekday(self, Weekday::Thursday),
    {
        JobBuilder { weekday: Some(Weekday::Thursday), ..self }
    }

    /// Fires only on Fridays.
    pub fn friday(self) -> (b: Self)
        ensures
            b == spec_with_weekday(self, Weekday::Friday),
    {
        JobBuilder { weekday: Some(Weekday::Friday), ..self }
    }

    /// Fires only on Saturdays.
    pub fn saturday(self) -> (b: Self)
        ensures
            b == spec_with_weekday(self, Weekday::Saturday),
    {
        JobBuilder { weekday: Some(Weekday::Saturday), ..self }
    }

    /// Fires only on Sundays.
    pub fn sunday(self) -> (b: Self)
        ensures
            b == spec_with_weekday(self, Weekday::Sunday),
    {
        JobBuilder { weekday: Some(Weekday::Sunday), ..self }
    }

    /// Caps the job at `count` firings ever.
    pub fn repeat(self, count: u32) -> (b: Self)
        ensures
            b == (JobBuilder {
                interval: self.interval,
                time_unit: self.time_unit,
                at_time: self.at_time,
                weekday: self.weekday,
                repeat: Some(count),
            }),
    {
        JobBuilder { repeat: Some(count), ..self }
    }

    /// Finalizes the builder: with a unit chosen, registers the job it
    /// describes and hands back the job's handle; without one, rejects
    /// the configuration and leaves the registry untouched.
    pub fn do_(self, runner: &mut JobRunner) -> (r: Result<usize, ScheduleError>)
        requires
            builder_wf(self),
            runner_wf(*old(runner)),
        ensures
            runner_wf(*final(runner)),
            match r {
                Ok(handle) => self.time_unit matches Some(u) && handle == old(runner)@.len()
                    && final(runner)@ =~= old(runner)@.push(
                    Job {
                        rule: spec_built_rule(self, u),
                        history: (RunHistory { last_run: None, remaining_runs: self.repeat }),
                    },
                ),
                Err(e) => e == ScheduleError::Configuration && self.time_unit is None
                    && final(runner)@ =~= old(runner)@,
            },
    {
        match self.time_unit {
            None => Err(ScheduleError::Configuration),
            Some(unit) => {
                let rule = RecurrenceRule {
                    interval: self.interval,
                    time_unit: unit,
                    at_time: self.at_time,
                    weekday: self.weekday,
                    repeat_limit: self.repeat,
                };
                Ok(runner.register(rule))
            },
        }
    }
}

} // verus!
