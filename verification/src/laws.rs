//! The guarantees the evaluator gives over whole runs.
//!
//! A run is a sequence of evaluation instants handed to one job, in
//! order; the trace model below folds the evaluator's one-tick step
//! over it. The laws proved here hold for every initial history and
//! every run, however long and however its instants are chosen.

use vstd::prelude::*;
use crate::evaluate::{
    spec_due, spec_step, spec_threshold_seconds, Job,
};
use crate::rule::{spec_unit_seconds, RecurrenceRule, RunHistory, TimeUnit};
use crate::time::{
    spec_day_number, spec_second_of_day, spec_time_of_day_seconds, spec_weekday_of, TimeOfDay,
    Timestamp, Weekday, SECONDS_PER_DAY,
};

verus! {

/// The history a job holds after being evaluated, in order, against
/// every instant of `ticks`, starting from `h`.
pub open spec fn spec_history_after(
    r: RecurrenceRule,
    h: RunHistory,
    ticks: Seq<Timestamp>,
) -> RunHistory
    decreases ticks.len(),
{
    if ticks.len() == 0 {
        h
    } else {
        spec_history_after(r, spec_step(r, h, ticks[0]), ticks.subrange(1, ticks.len() as int))
    }
}

/// Whether the job fires at position `i` of the run: it is due there,
/// against the history the earlier instants left behind.
pub open spec fn spec_fires_at(
    r: RecurrenceRule,
    h: RunHistory,
    ticks: Seq<Timestamp>,
    i: int,
) -> bool
    recommends
        0 <= i < ticks.len(),
{
    spec_due(r, spec_history_after(r, h, ticks.take(i)), ticks[i])
}

/// How many times the job fires over the run.
pub open spec fn spec_fire_count(r: RecurrenceRule, h: RunHistory, ticks: Seq<Timestamp>) -> nat
    decreases ticks.len(),
{
    if ticks.len() == 0 {
        0
    } else {
        (if spec_due(r, h, ticks[0]) {
            1nat
        } else {
            0nat
        }) + spec_fire_count(r, spec_step(r, h, ticks[0]), ticks.subrange(1, ticks.len() as int))
    }
}

/// Folding one more instant onto a run steps the history it leaves
/// behind once.
pub proof fn lemma_history_after_snoc(
    r: RecurrenceRule,
    h: RunHistory,
    ticks: Seq<Timestamp>,
    t: Timestamp,
)
    ensures
        spec_history_after(r, h, ticks.push(t)) == spec_step(r, spec_history_after(r, h, ticks), t),
    decreases ticks.len(),
{
    if ticks.len() == 0 {
        assert(ticks.push(t)[0] == t);
        assert(ticks.push(t).subrange(1, 1) =~= Seq::<Timestamp>::empty());
        assert(spec_history_after(r, h, ticks.push(t)) == spec_history_after(
            r,
            spec_step(r, h, t),
            Seq::<Timestamp>::empty(),
        ));
        assert(spec_history_after(r, spec_step(r, h, t), Seq::<Timestamp>::empty()) == spec_step(
            r,
            h,
            t,
        ));
        assert(spec_history_after(r, h, ticks) == h);
    } else {
        let rest = ticks.subrange(1, ticks.len() as int);
        assert(ticks.push(t)[0] == ticks[0]);
        assert(ticks.push(t).subrange(1, ticks.len() as int + 1) =~= rest.push(t));
        lemma_history_after_snoc(r, spec_step(r, h, ticks[0]), rest, t);
        assert(spec_history_after(r, h, ticks.push(t)) == spec_history_after(
            r,
            spec_step(r, h, ticks[0]),
            rest.push(t),
        ));
        assert(spec_history_after(r, h, ticks) == spec_history_after(
            r,
            spec_step(r, h, ticks[0]),
            rest,
        ));
    }
}

/// A rule's threshold is never negative, and at least one second once
/// the interval is positive.
pub proof fn lemma_threshold_bounds(r: RecurrenceRule)
    ensures
        spec_threshold_seconds(r) >= 0,
        r.interval >= 1 ==> spec_threshold_seconds(r) >= spec_unit_seconds(r.time_unit),
{
    vstd::arithmetic::mul::lemma_mul_nonnegative(r.interval as int, spec_unit_seconds(r.time_unit));
    if r.interval >= 1 {
        vstd::arithmetic::mul::lemma_mul_inequality(1, r.interval as int, spec_unit_seconds(r.time_unit));
    }
}

/// An exhausted job never fires again, at any instant, and its
/// history never changes again: reaching a remaining count of zero is
/// permanent.
pub proof fn lemma_exhausted_is_permanently_inert(
    r: RecurrenceRule,
    h: RunHistory,
    now: Timestamp,
)
    requires
        h.remaining_runs == Some(0u32),
    ensures
        !spec_due(r, h, now),
        spec_step(r, h, now) == h,
{
}

/// From any instant the job fires at, the last run recorded after any
/// longer prefix of the run is at or after that instant: the last run
/// only ever moves forward.
pub proof fn lemma_last_run_from_fire(
    r: RecurrenceRule,
    h: RunHistory,
    ticks: Seq<Timestamp>,
    i: int,
    k: int,
)
    requires
        0 <= i < ticks.len(),
        i < k <= ticks.len(),
        spec_fires_at(r, h, ticks, i),
    ensures
        spec_history_after(r, h, ticks.take(k)).last_run matches Some(t)
            && t.secs >= ticks[i].secs,
    decreases k,
{
    lemma_threshold_bounds(r);
    if k == i + 1 {
        assert(ticks.take(k) =~= ticks.take(i).push(ticks[i]));
        lemma_history_after_snoc(r, h, ticks.take(i), ticks[i]);
    } else {
        lemma_last_run_from_fire(r, h, ticks, i, k - 1);
        assert(ticks.take(k) =~= ticks.take(k - 1).push(ticks[k - 1]));
        lemma_history_after_snoc(r, h, ticks.take(k - 1), ticks[k - 1]);
    }
}

/// Minimum separation: over any run of a rule with no weekday, no
/// time-of-day gate and no repeat limit, any two firings lie at least
/// the rule's full threshold apart — the job never fires twice within
/// one interval.
pub proof fn lemma_minimum_separation(
    r: RecurrenceRule,
    h: RunHistory,
    ticks: Seq<Timestamp>,
    i: int,
    j: int,
)
    requires
        r.weekday is None,
        r.at_time is None,
        r.repeat_limit is None,
        0 <= i < j < ticks.len(),
        spec_fires_at(r, h, ticks, i),
        spec_fires_at(r, h, ticks, j),
    ensures
        ticks[j].secs - ticks[i].secs >= spec_threshold_seconds(r),
{
    lemma_last_run_from_fire(r, h, ticks, i, j);
}

/// Repeat limit: a job whose history carries `n` remaining runs fires
/// at most `n` times over any run, however long; and the remaining
/// count afterwards is exactly `n` less the number of firings.
pub proof fn lemma_repeat_limit(
    r: RecurrenceRule,
    h: RunHistory,
    ticks: Seq<Timestamp>,
    n: u32,
)
    requires
        h.remaining_runs == Some(n),
    ensures
        spec_fire_count(r, h, ticks) <= n,
        spec_history_after(r, h, ticks).remaining_runs == Some(
            (n - spec_fire_count(r, h, ticks)) as u32,
        ),
    decreases ticks.len(),
{
    if ticks.len() > 0 {
        let rest = ticks.subrange(1, ticks.len() as int);
        if spec_due(r, h, ticks[0]) {
            lemma_repeat_limit(r, spec_step(r, h, ticks[0]), rest, (n - 1) as u32);
        } else {
            lemma_repeat_limit(r, spec_step(r, h, ticks[0]), rest, n);
        }
    }
}

/// Once a capped job has spent its whole cap over a run, every later
/// evaluation skips, whatever its instant: the cap is permanent.
pub proof fn lemma_cap_spent_skips_forever(
    r: RecurrenceRule,
    h: RunHistory,
    ticks: Seq<Timestamp>,
    n: u32,
    now: Timestamp,
)
    requires
        h.remaining_runs == Some(n),
        spec_fire_count(r, h, ticks) == n,
    ensures
        !spec_due(r, spec_history_after(r, h, ticks), now),
{
    lemma_repeat_limit(r, h, ticks, n);
    lemma_exhausted_is_permanently_inert(r, spec_history_after(r, h, ticks), now);
}

/// The last run only ever moves forward: a job is due at `now` only
/// if `now` is not earlier than its recorded last run.
pub proof fn lemma_last_run_monotonic(
    r: RecurrenceRule,
    h: RunHistory,
    now: Timestamp,
    last: Timestamp,
)
    requires
        spec_due(r, h, now),
        h.last_run == Some(last),
    ensures
        now.secs >= last.secs,
{
    lemma_threshold_bounds(r);
}

/// Weekday gate: a job restricted to weekday `w` only ever fires at an
/// instant falling on `w`, regardless of how much time has elapsed.
pub proof fn lemma_weekday_gate(
    r: RecurrenceRule,
    h: RunHistory,
    ticks: Seq<Timestamp>,
    i: int,
    w: Weekday,
)
    requires
        r.weekday == Some(w),
        0 <= i < ticks.len(),
        spec_fires_at(r, h, ticks, i),
    ensures
        spec_weekday_of(ticks[i]) == w,
{
}

/// Time-of-day gate, first half: a job gated on time of day `t` never
/// fires at an instant earlier in its day than `t`.
pub proof fn lemma_at_time_not_before(
    r: RecurrenceRule,
    h: RunHistory,
    ticks: Seq<Timestamp>,
    i: int,
    t: TimeOfDay,
)
    requires
        r.at_time == Some(t),
        0 <= i < ticks.len(),
        spec_fires_at(r, h, ticks, i),
    ensures
        spec_second_of_day(ticks[i]) >= spec_time_of_day_seconds(t),
{
}

/// Time-of-day gate, second half: a day- or week-unit job with a
/// positive interval fires at most once per calendar date — any later
/// firing falls on a strictly later date.
pub proof fn lemma_at_most_once_per_date(
    r: RecurrenceRule,
    h: RunHistory,
    ticks: Seq<Timestamp>,
    i: int,
    j: int,
)
    requires
        r.at_time is Some,
        r.time_unit is Days || r.time_unit is Weeks,
        r.interval >= 1,
        0 <= i < j < ticks.len(),
        spec_fires_at(r, h, ticks, i),
        spec_fires_at(r, h, ticks, j),
    ensures
        spec_day_number(ticks[j]) > spec_day_number(ticks[i]),
{
    lemma_last_run_from_fire(r, h, ticks, i, j);
    lemma_threshold_bounds(r);
    let a = ticks[i].secs as int;
    let b = ticks[j].secs as int;
    assert(b >= a + SECONDS_PER_DAY);
    assert(1 + a / (SECONDS_PER_DAY as int) == (SECONDS_PER_DAY + a) / (SECONDS_PER_DAY as int))
        by {
        vstd::arithmetic::div_mod::lemma_div_plus_one(a, SECONDS_PER_DAY as int);
    };
    assert((SECONDS_PER_DAY + a) / (SECONDS_PER_DAY as int) <= b / (SECONDS_PER_DAY as int)) by {
        vstd::arithmetic::div_mod::lemma_div_is_ordered(
            SECONDS_PER_DAY + a,
            b,
            SECONDS_PER_DAY as int,
        );
    };
}

/// Same-instant determinism: one tick of a job with a positive
/// interval leaves it not due at the very instant it was just
/// evaluated against — re-evaluating an identical `now` skips every
/// job the first evaluation fired, and leaves every other unchanged.
pub proof fn lemma_same_instant_skips(r: RecurrenceRule, h: RunHistory, now: Timestamp)
    requires
        r.interval >= 1,
    ensures
        !spec_due(r, spec_step(r, h, now), now),
{
    lemma_threshold_bounds(r);
}

/// The registry-level reading of same-instant determinism: after one
/// tick at `now`, no job with a positive interval is due at `now`
/// again.
pub proof fn lemma_tick_twice_fires_nothing(j: Job, now: Timestamp)
    requires
        j.rule.interval >= 1,
    ensures
        !spec_due(j.rule, crate::registry::spec_ticked(j, now).history, now),
{
    lemma_same_instant_skips(j.rule, j.history, now);
}

} // verus!
