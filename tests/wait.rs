use whaleinit::signal::{forwarded_signals, Signal};
use whaleinit::wait::{
    after_service_wait, reaper_step, ChildState, LogLevel, ReapWait, ReaperStep, ServiceWait,
};

#[test]
fn essential_exit_starts_shutdown_with_term() {
    let r = after_service_wait(true, ServiceWait::Exited(Some(0)));
    assert_eq!(r.level, LogLevel::Info);
    assert_eq!(r.escalate, Some(Signal::Term));
}

#[test]
fn non_essential_exit_does_not_escalate() {
    let r = after_service_wait(false, ServiceWait::Exited(Some(1)));
    assert_eq!(r.level, LogLevel::Info);
    assert_eq!(r.escalate, None);
}

#[test]
fn status_claimed_by_reaper_is_not_an_error() {
    let r = after_service_wait(true, ServiceWait::NoChild);
    assert_eq!(r.level, LogLevel::Trace);
    assert_eq!(r.escalate, Some(Signal::Term));
}

#[test]
fn failed_wait_warns_and_still_escalates() {
    let r = after_service_wait(true, ServiceWait::Failed);
    assert_eq!(r.level, LogLevel::Warn);
    assert_eq!(r.escalate, Some(Signal::Term));
    assert_eq!(after_service_wait(false, ServiceWait::Exited(None)).escalate, None);
}

#[test]
fn reaper_stops_when_no_child_is_left_and_run_is_over() {
    assert_eq!(reaper_step(ReapWait::NoChild, true), ReaperStep::Stop);
}

#[test]
fn reaper_backs_off_on_no_child_while_services_run() {
    assert_eq!(reaper_step(ReapWait::NoChild, false), ReaperStep::Backoff);
    assert_eq!(reaper_step(ReapWait::NoChild, false), ReaperStep::Backoff);
    assert_ne!(reaper_step(ReapWait::Failed, false), ReaperStep::Stop);
}

#[test]
fn reaper_reports_state_changes() {
    let exited = ChildState::Exited { pid: 42, code: 3 };
    assert_eq!(reaper_step(ReapWait::Changed(exited), false), ReaperStep::Report(exited));
    assert_eq!(reaper_step(ReapWait::Changed(exited), true), ReaperStep::Report(exited));
    let signaled = ChildState::Signaled { pid: 7, signal: 15, core_dumped: false };
    assert_eq!(reaper_step(ReapWait::Changed(signaled), false), ReaperStep::Report(signaled));
    let stopped = ChildState::Stopped { pid: 8, signal: 19 };
    assert_eq!(reaper_step(ReapWait::Changed(stopped), false), ReaperStep::Report(stopped));
    let cont = ChildState::Continued { pid: 8 };
    assert_eq!(reaper_step(ReapWait::Changed(cont), false), ReaperStep::Report(cont));
}

#[test]
fn reaper_keeps_going_after_failure_or_still_alive() {
    assert_eq!(reaper_step(ReapWait::Failed, true), ReaperStep::WarnAndRetry);
    assert_eq!(reaper_step(ReapWait::Changed(ChildState::StillAlive), true), ReaperStep::Idle);
}

#[test]
fn interrupt_and_terminate_are_forwarded() {
    assert_eq!(forwarded_signals(), vec![Signal::Int, Signal::Term]);
}
