use jobsched::registry::JobRunner;
use jobsched::rule::{ScheduleError, TimeUnit};
use jobsched::time::{Timestamp, Weekday};

use chrono::TimeZone;

/// The instant of a UTC calendar date and time, through chrono, so the
/// tests speak the same clock as an embedding runtime would.
fn ts(y: i32, mo: u32, d: u32, h: u32, mi: u32, s: u32) -> Timestamp {
    let dt = chrono::Utc.with_ymd_and_hms(y, mo, d, h, mi, s).unwrap();
    Timestamp::from_unix_seconds(u64::try_from(dt.timestamp()).unwrap())
}

#[test]
fn seconds_job_with_repeat_limit() {
    // interval 3 seconds, at most 3 runs, no history: fires at t=0
    // (a first evaluation always passes the interval gate), then only
    // once the full interval has elapsed, and never after the third.
    let mut runner = JobRunner::new();
    let handle = JobRunner::every(3)
        .seconds()
        .repeat(3)
        .do_(&mut runner)
        .unwrap();
    assert_eq!(handle, 0);

    let fires: Vec<u64> = (0..=20)
        .filter(|&t| !runner.tick(Timestamp::from_unix_seconds(t)).is_empty())
        .collect();
    assert_eq!(fires, vec![0, 3, 6]);

    // Exhausted: still registered, permanently inert.
    assert_eq!(runner.job_count(), 1);
    assert_eq!(runner.job(0).history.remaining_runs, Some(0));
    assert!(runner.tick(Timestamp::from_unix_seconds(1000)).is_empty());
}

#[test]
fn daily_at_time_same_date_suppression() {
    // unit Days, interval 1, at 19:24; fired today 19:24. Evaluated
    // again today at 20:00: skip (same calendar date). Tomorrow at
    // 19:25: fire.
    let mut runner = JobRunner::new();
    JobRunner::every(1)
        .days()
        .at("19:24")
        .unwrap()
        .do_(&mut runner)
        .unwrap();

    // Never before the gated time of day, even on a fresh history.
    assert!(runner.tick(ts(2024, 3, 5, 19, 23, 59)).is_empty());
    assert_eq!(runner.tick(ts(2024, 3, 5, 19, 24, 0)), vec![0]);
    assert!(runner.tick(ts(2024, 3, 5, 20, 0, 0)).is_empty());
    assert_eq!(runner.tick(ts(2024, 3, 6, 19, 25, 0)), vec![0]);
}

#[test]
fn weekly_weekday_gate_blocks_other_days() {
    // unit Weeks, interval 1, Tuesdays at 19:24; any Wednesday
    // instant: skip, whatever the time of day or elapsed interval.
    let mut runner = JobRunner::new();
    JobRunner::every(1)
        .week()
        .tuesday()
        .at("19:24")
        .unwrap()
        .do_(&mut runner)
        .unwrap();

    // 2024-03-06 is a Wednesday.
    assert_eq!(ts(2024, 3, 6, 12, 0, 0).weekday(), Weekday::Wednesday);
    assert!(runner.tick(ts(2024, 3, 6, 0, 0, 0)).is_empty());
    assert!(runner.tick(ts(2024, 3, 6, 19, 24, 0)).is_empty());
    assert!(runner.tick(ts(2024, 3, 6, 23, 59, 59)).is_empty());

    // The following Tuesday at the gated time it fires.
    assert_eq!(ts(2024, 3, 12, 19, 24, 0).weekday(), Weekday::Tuesday);
    assert_eq!(runner.tick(ts(2024, 3, 12, 19, 24, 0)), vec![0]);
}

#[test]
fn hourly_interval_boundary_is_non_strict() {
    // interval 5 hours, last run exactly 5 hours ago: fire, the
    // comparison is non-strict.
    let mut runner = JobRunner::new();
    JobRunner::every(5).hours().do_(&mut runner).unwrap();

    let t0 = ts(2024, 3, 5, 6, 30, 0);
    assert_eq!(runner.tick(t0), vec![0]);
    let just_before = Timestamp::from_unix_seconds(t0.secs + 5 * 3600 - 1);
    assert!(runner.tick(just_before).is_empty());
    let boundary = Timestamp::from_unix_seconds(t0.secs + 5 * 3600);
    assert_eq!(runner.tick(boundary), vec![0]);
}

#[test]
fn second_tick_at_identical_instant_skips() {
    // A job that fired at `now` is not due at the same `now` again:
    // zero elapsed seconds is below any positive threshold.
    let mut runner = JobRunner::new();
    JobRunner::every(1).seconds().do_(&mut runner).unwrap();
    JobRunner::every(7).minutes().do_(&mut runner).unwrap();

    let now = ts(2024, 3, 5, 10, 0, 0);
    assert_eq!(runner.tick(now), vec![0, 1]);
    assert!(runner.tick(now).is_empty());
}

#[test]
fn jobs_fire_in_registration_order() {
    let mut runner = JobRunner::new();
    JobRunner::every(1).seconds().do_(&mut runner).unwrap();
    JobRunner::every(10).minutes().do_(&mut runner).unwrap();
    JobRunner::every(2).seconds().do_(&mut runner).unwrap();

    let fired = runner.tick(Timestamp::from_unix_seconds(500_000));
    assert_eq!(fired, vec![0, 1, 2]);
    assert_eq!(runner.job_count(), 3);
}

#[test]
fn finalizing_without_a_unit_is_a_configuration_error() {
    let mut runner = JobRunner::new();
    let r = JobRunner::every(3).repeat(2).do_(&mut runner);
    assert_eq!(r, Err(ScheduleError::Configuration));
    assert_eq!(runner.job_count(), 0);
}

#[test]
fn malformed_at_literal_is_a_parse_error() {
    let r = JobRunner::every(1).days().at("banana");
    assert_eq!(r.unwrap_err(), ScheduleError::Parse);
    let r = JobRunner::every(1).days().at("9:24");
    assert_eq!(r.unwrap_err(), ScheduleError::Parse);
}

#[test]
fn zero_interval_fires_on_identical_instants() {
    // With a zero threshold nothing separates two evaluations at the
    // same instant: the skip-on-re-evaluation guarantee holds only
    // for positive intervals.
    let mut runner = JobRunner::new();
    JobRunner::every(0).seconds().do_(&mut runner).unwrap();
    let now = Timestamp::from_unix_seconds(7);
    assert_eq!(runner.tick(now), vec![0]);
    assert_eq!(runner.tick(now), vec![0]);
}

#[test]
fn builder_records_the_chosen_configuration() {
    let mut runner = JobRunner::new();
    let handle = JobRunner::every(4)
        .minutes()
        .friday()
        .repeat(9)
        .do_(&mut runner)
        .unwrap();
    let job = runner.job(handle);
    assert_eq!(job.rule.interval, 4);
    assert_eq!(job.rule.time_unit, TimeUnit::Minutes);
    assert_eq!(job.rule.weekday, Some(Weekday::Friday));
    assert_eq!(job.rule.at_time, None);
    assert_eq!(job.rule.repeat_limit, Some(9));
    assert_eq!(job.history.last_run, None);
    assert_eq!(job.history.remaining_runs, Some(9));
}

#[test]
fn later_unit_choice_wins() {
    let mut runner = JobRunner::new();
    let handle = JobRunner::every(2).seconds().hours().do_(&mut runner).unwrap();
    assert_eq!(runner.job(handle).rule.time_unit, TimeUnit::Hours);
}

#[test]
fn firing_updates_last_run_and_remaining() {
    let mut runner = JobRunner::new();
    let h = JobRunner::every(2).seconds().repeat(5).do_(&mut runner).unwrap();
    let now = Timestamp::from_unix_seconds(42);
    assert_eq!(runner.tick(now), vec![0]);
    let job = runner.job(h);
    assert_eq!(job.history.last_run, Some(now));
    assert_eq!(job.history.remaining_runs, Some(4));
}

#[test]
fn two_phase_evaluation_matches_tick() {
    // `is_due` then `mark_fired` is the payload-before-commit path an
    // embedding runtime uses; it leaves the same state as `tick`.
    let mut a = JobRunner::new();
    let mut b = JobRunner::new();
    JobRunner::every(3).seconds().repeat(2).do_(&mut a).unwrap();
    JobRunner::every(3).seconds().repeat(2).do_(&mut b).unwrap();

    for t in 0..10u64 {
        let now = Timestamp::from_unix_seconds(t);
        let fired = a.tick(now);
        let due = b.is_due(0, now);
        if due {
            b.mark_fired(0, now);
        }
        assert_eq!(fired == vec![0], due);
        assert_eq!(a.job(0), b.job(0));
    }
}
