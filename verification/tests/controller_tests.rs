use smssh::controller::{ControlAction, ControlEvent, Controller};
use smssh::errors::{ExitStatusKind, SessionError};

#[test]
fn normal_session_runs_to_completion() {
    let mut c = Controller::new();
    assert_eq!(c.current_action(), ControlAction::SpawnChild);
    c.observe(ControlEvent::Spawned { pgid: 4242 });
    assert_eq!(c.child_pgid, 4242);
    assert_eq!(c.current_action(), ControlAction::SuppressBackgroundWriteSignal);
    c.observe(ControlEvent::SignalSuppressed);
    assert_eq!(c.current_action(), ControlAction::HandOffTerminal);
    c.observe(ControlEvent::TerminalHandedOff);
    assert!(c.foreground_child);
    assert_eq!(c.current_action(), ControlAction::PollChild);
    c.observe(ControlEvent::ChildStillRunning { termination_requested: false });
    assert_eq!(c.current_action(), ControlAction::PollChild);
    c.observe(ControlEvent::ChildExited { status: ExitStatusKind::Exited { code: 0 } });
    assert_eq!(c.current_action(), ControlAction::RestoreTerminal);
    c.observe(ControlEvent::TerminalRestored);
    assert_eq!(c.current_action(), ControlAction::RestoreSignalDisposition);
    c.observe(ControlEvent::DispositionRestored);
    assert!(c.is_done());
    assert_eq!(c.outcome, Some(Ok(ExitStatusKind::Exited { code: 0 })));
    assert!(!c.child_running);
    assert!(!c.foreground_child);
    assert!(!c.suppressed);
}

#[test]
fn termination_request_stops_the_child_before_returning() {
    let mut c = Controller::new();
    c.observe(ControlEvent::Spawned { pgid: 77 });
    c.observe(ControlEvent::SignalSuppressed);
    c.observe(ControlEvent::TerminalHandedOff);
    // A termination request is delivered while the child is running.
    c.observe(ControlEvent::ChildStillRunning { termination_requested: true });
    assert_eq!(c.current_action(), ControlAction::SignalChildGroup);
    c.observe(ControlEvent::ChildSignaled);
    assert_eq!(c.current_action(), ControlAction::AwaitChild);
    c.observe(ControlEvent::ChildExited { status: ExitStatusKind::Signaled { signal: 15 } });
    c.observe(ControlEvent::TerminalRestored);
    c.observe(ControlEvent::DispositionRestored);
    assert!(c.is_done());
    // The child is no longer running, and the terminal belongs to the
    // supervisor's group again.
    assert!(!c.child_running);
    assert!(!c.foreground_child);
    assert_eq!(c.outcome, Some(Ok(ExitStatusKind::Signaled { signal: 15 })));
}

#[test]
fn spawn_failure_ends_the_session_immediately() {
    let mut c = Controller::new();
    c.observe(ControlEvent::SpawnFailed);
    assert!(c.is_done());
    assert_eq!(c.outcome, Some(Err(SessionError::ChildSpawnFailed)));
    assert!(!c.child_running);
    assert!(!c.suppressed);
}

#[test]
fn handoff_failure_still_restores_the_terminal() {
    let mut c = Controller::new();
    c.observe(ControlEvent::Spawned { pgid: 9 });
    c.observe(ControlEvent::SignalSuppressed);
    c.observe(ControlEvent::HandoffFailed);
    // The failure skips supervision and goes straight to restoration.
    assert_eq!(c.current_action(), ControlAction::RestoreTerminal);
    c.observe(ControlEvent::TerminalRestored);
    c.observe(ControlEvent::DispositionRestored);
    assert!(c.is_done());
    assert_eq!(c.outcome, Some(Err(SessionError::TerminalHandoffFailed)));
    assert!(!c.suppressed);
}

#[test]
fn restore_failure_after_success_is_reported() {
    let mut c = Controller::new();
    c.observe(ControlEvent::Spawned { pgid: 9 });
    c.observe(ControlEvent::SignalSuppressed);
    c.observe(ControlEvent::TerminalHandedOff);
    c.observe(ControlEvent::ChildExited { status: ExitStatusKind::Exited { code: 0 } });
    c.observe(ControlEvent::TerminalRestoreFailed);
    c.observe(ControlEvent::DispositionRestored);
    assert!(c.is_done());
    assert_eq!(c.outcome, Some(Err(SessionError::TerminalRestoreFailed)));
}

#[test]
fn restore_failure_never_masks_the_primary_error() {
    let mut c = Controller::new();
    c.observe(ControlEvent::Spawned { pgid: 9 });
    c.observe(ControlEvent::SignalSuppressed);
    c.observe(ControlEvent::HandoffFailed);
    c.observe(ControlEvent::TerminalRestoreFailed);
    c.observe(ControlEvent::DispositionRestored);
    assert!(c.is_done());
    // The original hand-off error stands; the restore failure is not put in
    // its place.
    assert_eq!(c.outcome, Some(Err(SessionError::TerminalHandoffFailed)));
}

#[test]
fn lost_child_status_is_a_distinct_outcome() {
    let mut c = Controller::new();
    c.observe(ControlEvent::Spawned { pgid: 9 });
    c.observe(ControlEvent::SignalSuppressed);
    c.observe(ControlEvent::TerminalHandedOff);
    c.observe(ControlEvent::ChildStatusLost);
    c.observe(ControlEvent::TerminalRestored);
    c.observe(ControlEvent::DispositionRestored);
    assert!(c.is_done());
    assert_eq!(c.outcome, Some(Err(SessionError::ChildTerminatedWithoutStatus)));
}

#[test]
fn failed_signal_delivery_is_a_process_group_error() {
    let mut c = Controller::new();
    c.observe(ControlEvent::Spawned { pgid: 9 });
    c.observe(ControlEvent::SignalSuppressed);
    c.observe(ControlEvent::TerminalHandedOff);
    c.observe(ControlEvent::ChildStillRunning { termination_requested: true });
    c.observe(ControlEvent::SignalDeliveryFailed);
    c.observe(ControlEvent::TerminalRestored);
    c.observe(ControlEvent::DispositionRestored);
    assert!(c.is_done());
    assert_eq!(c.outcome, Some(Err(SessionError::ProcessGroupChangeFailed)));
}
