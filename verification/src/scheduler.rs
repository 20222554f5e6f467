//! The single-flight gate for periodic aggregation.
//!
//! A process asks once for the periodic aggregation task; every later
//! request is answered with an error that still carries a freshly built
//! task, so the caller keeps a handle but knows it was not first.

use vstd::prelude::*;

verus! {

/// The process-wide scheduling gate: `scheduled` is false until the first
/// request for the periodic aggregation task and true ever after.
pub struct SchedulerFlag {
    pub scheduled: bool,
}

/// Description of the periodic aggregation task: it first fires after
/// `initial_delay` time units, then repeats every `period` time units, and
/// on each firing the whole registry is aggregated. An execution context
/// turns this description into a running timer loop.
#[derive(Debug)]
pub struct ScheduledTask {
    pub initial_delay: u64,
    pub period: u64,
}

/// This error is returned to indicate that the stats scheduler was already
/// retrieved before and potentially is already running, but might be
/// retrieved again from this error.
#[derive(Debug)]
pub struct StatsScheduledErrorPreview(pub ScheduledTask);

impl SchedulerFlag {
    /// A fresh process has not scheduled aggregation yet.
    pub fn new() -> (flag: SchedulerFlag)
        ensures
            !flag.scheduled,
    {
        SchedulerFlag { scheduled: false }
    }
}

/// The effect of one scheduling request: whatever the answer, the flag is
/// set once the request returns, and the answer is a success exactly when
/// the flag was still clear beforehand.
pub open spec fn schedule_requested(pre: SchedulerFlag, post: SchedulerFlag, granted: bool) -> bool {
    &&& post.scheduled
    &&& granted <==> !pre.scheduled
}

/// Upon the first call on this gate it returns a task description that, once
/// driven by an execution context, periodically aggregates stats. On
/// subsequent calls it returns an error that contains such a task, so that
/// the caller might still use it, but knows that it was not the first call.
pub fn schedule_stats_aggregation_preview(flag: &mut SchedulerFlag) -> (r: Result<
    ScheduledTask,
    StatsScheduledErrorPreview,
>)
    ensures
        schedule_requested(*old(flag), *final(flag), r is Ok),
        (match r {
            Ok(task) => task.initial_delay == 1 && task.period == 1,
            Err(err) => err.0.initial_delay == 1 && err.0.period == 1,
        }),
{
    let task = ScheduledTask { initial_delay: 1, period: 1 };
    let first = !flag.scheduled;
    flag.scheduled = true;
    if first {
        Ok(task)
    } else {
        Err(StatsScheduledErrorPreview(task))
    }
}

/// Exclusivity: a request made after any earlier request is never granted,
/// and the first request of a fresh process always is.
pub proof fn lemma_schedule_exclusive(
    f0: SchedulerFlag,
    f1: SchedulerFlag,
    f2: SchedulerFlag,
    g1: bool,
    g2: bool,
)
    requires
        schedule_requested(f0, f1, g1),
        schedule_requested(f1, f2, g2),
    ensures
        !g2,
        !f0.scheduled ==> g1,
{
}

} // verus!
