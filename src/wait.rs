use vstd::prelude::*;
use crate::signal::Signal;

verus! {

/// How loudly an event is logged.
#[derive(Clone, Copy, Debug, PartialEq, Eq, Structural)]
pub enum LogLevel {
    Trace,
    Info,
    Warn,
}

/// What a service runner's own wait on its child gave back.
#[derive(Clone, Copy, Debug, PartialEq, Eq, Structural)]
pub enum ServiceWait {
    /// The child ended: its exit code, or `None` when a signal ended it.
    Exited(Option<i32>),
    /// No such child: the reaper claimed the exit status first.
    NoChild,
    /// The wait failed for another reason.
    Failed,
}

/// What a service runner does once its wait has returned.
#[derive(Clone, Copy, Debug, PartialEq, Eq, Structural)]
pub struct AfterWait {
    /// Level at which the wait's outcome is logged.
    pub level: LogLevel,
    /// The signal with which shutdown escalation starts, for an essential service.
    pub escalate: Option<Signal>,
}

pub open spec fn wait_level(w: ServiceWait) -> LogLevel {
    match w {
        ServiceWait::Exited(_) => LogLevel::Info,
        ServiceWait::NoChild => LogLevel::Trace,
        ServiceWait::Failed => LogLevel::Warn,
    }
}

/// Decides what follows a service's wait. A status claimed by the reaper is
/// no error; no wait outcome is fatal; the exit of an essential service, by
/// whichever path it was seen, starts shutdown with `Term`.
pub fn after_service_wait(essential: bool, w: ServiceWait) -> (r: AfterWait)
    ensures
        r.level == wait_level(w),
        r.escalate == (if essential {
            Some(Signal::Term)
        } else {
            None
        }),
{
    let level = match w {
        ServiceWait::Exited(_) => LogLevel::Info,
        ServiceWait::NoChild => LogLevel::Trace,
        ServiceWait::Failed => LogLevel::Warn,
    };
    let escalate = if essential {
        Some(Signal::Term)
    } else {
        None
    };
    AfterWait { level, escalate }
}

/// A state change of some descendant process, as a wait on any child reports it.
#[derive(Clone, Copy, Debug, PartialEq, Eq, Structural)]
pub enum ChildState {
    Exited { pid: i32, code: i32 },
    Signaled { pid: i32, signal: i32, core_dumped: bool },
    Stopped { pid: i32, signal: i32 },
    Continued { pid: i32 },
    StillAlive,
    PtraceEvent { pid: i32, signal: i32, event: i32 },
    PtraceSyscall { pid: i32 },
}

/// What one wait on any child gave back.
#[derive(Clone, Copy, Debug, PartialEq, Eq, Structural)]
pub enum ReapWait {
    Changed(ChildState),
    /// No descendant is left to wait for.
    NoChild,
    /// The wait failed for another reason.
    Failed,
}

/// Seconds the reaper waits before asking again when no child is left
/// while services may still be running.
pub const REAP_BACKOFF_SECS: u64 = 1;

/// What the reaper loop does after one wait.
#[derive(Clone, Copy, Debug, PartialEq, Eq, Structural)]
pub enum ReaperStep {
    /// Log the state change, then wait again.
    Report(ChildState),
    /// Nothing to log: wait again.
    Idle,
    /// Log a warning, then wait again.
    WarnAndRetry,
    /// No child is waiting to be reaped now, but descendants may still
    /// appear: wait the reaper's backoff interval, then wait again.
    Backoff,
    /// No descendant is left and every service runner has completed: the
    /// loop ends.
    Stop,
}

pub open spec fn reaper_step_of(w: ReapWait, run_over: bool) -> ReaperStep {
    match w {
        ReapWait::Changed(ChildState::StillAlive) => ReaperStep::Idle,
        ReapWait::Changed(c) => ReaperStep::Report(c),
        ReapWait::NoChild => if run_over {
            ReaperStep::Stop
        } else {
            ReaperStep::Backoff
        },
        ReapWait::Failed => ReaperStep::WarnAndRetry,
    }
}

/// Decides the reaper's next step after one wait, given whether every
/// service runner has completed. "No child" is a normal, quiet answer: it
/// ends the loop only once the run is over, and before that it calls for a
/// backoff, not an immediate retry. A failed wait is reported and waited past.
pub fn reaper_step(w: ReapWait, run_over: bool) -> (r: ReaperStep)
    ensures
        r == reaper_step_of(w, run_over),
        r == ReaperStep::Stop <==> (w == ReapWait::NoChild && run_over),
        r == ReaperStep::Backoff <==> (w == ReapWait::NoChild && !run_over),
{
    match w {
        ReapWait::Changed(ChildState::StillAlive) => ReaperStep::Idle,
        ReapWait::Changed(c) => ReaperStep::Report(c),
        ReapWait::NoChild => if run_over {
            ReaperStep::Stop
        } else {
            ReaperStep::Backoff
        },
        ReapWait::Failed => ReaperStep::WarnAndRetry,
    }
}

/// Number of waits the reaper loop performs when each of its waits is
/// answered by `ws`, in order, each paired with whether the run was over at
/// that moment: it stops after the first answer that ends it.
pub open spec fn reaper_waits(ws: Seq<(ReapWait, bool)>) -> nat
    decreases ws.len(),
{
    if ws.len() == 0 {
        0
    } else if reaper_step_of(ws[0].0, ws[0].1) == ReaperStep::Stop {
        1
    } else {
        1 + reaper_waits(ws.drop_first())
    }
}

/// Once no descendant is left and the run is over, the reaper performs no
/// further wait.
pub proof fn lemma_reaper_stops_when_run_over(ws: Seq<(ReapWait, bool)>, k: int)
    requires
        0 <= k < ws.len(),
        ws[k] == (ReapWait::NoChild, true),
    ensures
        reaper_waits(ws) <= k + 1,
    decreases k,
{
    if k > 0 && reaper_step_of(ws[0].0, ws[0].1) != ReaperStep::Stop {
        lemma_reaper_stops_when_run_over(ws.drop_first(), k - 1);
    }
}

/// While the run is not over, the reaper never ends, whatever its waits
/// answer: each of them is followed by another wait.
pub proof fn lemma_reaper_runs_while_services_run(ws: Seq<(ReapWait, bool)>)
    requires
        forall|k: int| 0 <= k < ws.len() ==> !(#[trigger] ws[k]).1,
    ensures
        reaper_waits(ws) == ws.len(),
    decreases ws.len(),
{
    if ws.len() > 0 {
        assert(!ws[0].1);
        let rest = ws.drop_first();
        assert forall|k: int| 0 <= k < rest.len() implies !(#[trigger] rest[k]).1 by {
            assert(rest[k] == ws[k + 1]);
        }
        lemma_reaper_runs_while_services_run(rest);
    }
}

} // verus!
