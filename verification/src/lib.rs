//! An in-process periodic task scheduler core.
//!
//! Callers describe when a job should fire with a recurrence rule
//! (interval, time unit, optional time of day, optional weekday,
//! optional run-count limit). The due-time evaluator decides, for a
//! given instant, whether a job fires now, and how its run history is
//! updated afterwards. The registry holds the registered jobs and
//! evaluates all of them against one injected timestamp per tick; the
//! caller invokes each fired job's payload.
//!
//! Timestamps are absolute UTC instants with second resolution,
//! counted from the Unix epoch; the scheduler never reads the wall
//! clock itself.

pub mod evaluate;
pub mod laws;
pub mod registry;
pub mod rule;
pub mod time;
