//! Foreground process controller.
//!
//! The controller decides every step of supervising an interactive child:
//! spawning it detached into its own process group, handing the controlling
//! terminal to that group, polling for exit while watching for a termination
//! request aimed at the supervisor, forwarding termination to the child's
//! group, and restoring the terminal and the saved signal disposition on
//! every path out.
//!
//! The controller itself performs no operating-system call. The surrounding
//! program repeatedly asks [`Controller::current_action`] what to do,
//! performs exactly that action, and reports what happened through
//! [`Controller::observe`]. The `child_running`, `foreground_child` and
//! `suppressed` fields model the supervised world as the reported events
//! describe it; the controller's invariant ties the model down on every
//! path, which is how the cleanup guarantees below are stated.

use vstd::prelude::*;

use crate::errors::{ExitStatusKind, SessionError};

verus! {

/// Where the controller stands between two actions.
#[derive(Clone, Copy, Debug, PartialEq, Eq, Structural)]
pub enum ControlPhase {
    /// The child has not been spawned yet.
    Spawning,
    /// The child runs in its own process group; the background-write signal
    /// is not yet suppressed.
    Detached,
    /// The background-write signal is suppressed; the terminal still belongs
    /// to the supervisor.
    ForegroundHandoff,
    /// The child owns the terminal; the supervisor polls for its exit.
    Supervising,
    /// A termination request was observed; the child's group is to be
    /// signalled.
    Terminating,
    /// Termination was delivered; the supervisor waits for the child to
    /// actually exit.
    AwaitingExit,
    /// The session is over; the terminal is to be returned to the
    /// supervisor's group.
    RestoringTerminal,
    /// The terminal restoration was attempted; the saved signal disposition
    /// is to be put back.
    RestoringDisposition,
    /// Nothing is left to do; the outcome is available.
    Done,
}

/// The one operating-system step the surrounding program must perform next.
#[derive(Clone, Copy, Debug, PartialEq, Eq, Structural)]
pub enum ControlAction {
    /// Spawn the child with inherited stdio; before executing the target
    /// program, the child must place itself into a new process group whose
    /// id equals its own process id (in the child's own execution context,
    /// so the group exists before any terminal change references it).
    SpawnChild,
    /// Save the current disposition of the background-write signal (the
    /// signal that stops a background process touching the terminal) and
    /// install an ignore disposition, so that terminal hand-off and
    /// restoration can be made from a background group.
    SuppressBackgroundWriteSignal,
    /// Make the child's process group the foreground group of the
    /// controlling terminal.
    HandOffTerminal,
    /// Check whether a termination request has been delivered to the
    /// supervisor; then check the child's status without blocking, sleeping
    /// a bounded interval if it still runs.
    PollChild,
    /// Send the graceful termination signal to the child's process group,
    /// falling back to a forceful kill of the child if delivery fails.
    SignalChildGroup,
    /// Block until the child has actually exited.
    AwaitChild,
    /// Make the supervisor's own process group the foreground group of the
    /// controlling terminal again.
    RestoreTerminal,
    /// Put the saved disposition of the background-write signal back.
    RestoreSignalDisposition,
    /// Nothing: the session is over and the outcome is recorded.
    Finish,
}

/// What happened when the surrounding program performed the current action.
#[derive(Clone, Copy, Debug, PartialEq, Eq, Structural)]
pub enum ControlEvent {
    /// The child was spawned and sits in its own process group of this id.
    Spawned { pgid: i32 },
    /// The child could not be spawned; no process exists.
    SpawnFailed,
    /// The background-write signal's disposition was saved and replaced by
    /// ignore.
    SignalSuppressed,
    /// The disposition could not be changed; nothing was altered.
    SuppressFailed,
    /// The terminal's foreground group is now the child's group.
    TerminalHandedOff,
    /// The terminal's foreground group could not be changed.
    HandoffFailed,
    /// The child still runs; the flag reports whether a termination request
    /// has been delivered to the supervisor.
    ChildStillRunning { termination_requested: bool },
    /// The child exited with this status.
    ChildExited { status: ExitStatusKind },
    /// Waiting on the child failed; whether it still runs is unknown.
    ChildStatusLost,
    /// The termination signal was delivered to the child's group (or the
    /// fallback kill succeeded).
    ChildSignaled,
    /// Neither the group signal nor the fallback kill could be delivered.
    SignalDeliveryFailed,
    /// The terminal's foreground group is the supervisor's group again.
    TerminalRestored,
    /// The terminal's foreground group could not be restored.
    TerminalRestoreFailed,
    /// The saved signal disposition was put back.
    DispositionRestored,
    /// The saved signal disposition could not be put back.
    DispositionRestoreFailed,
}

/// The controller's state, together with its model of the supervised world.
#[derive(Clone, Copy, Debug, PartialEq, Eq)]
pub struct Controller {
    /// Where the controller stands.
    pub phase: ControlPhase,
    /// The child's process group id, once spawned.
    pub child_pgid: i32,
    /// The session's outcome, once decided. A failure recorded here is the
    /// primary error: later restoration failures never replace it.
    pub outcome: Option<Result<ExitStatusKind, SessionError>>,
    /// Whether the child process is running, as reported.
    pub child_running: bool,
    /// Whether a wait or signal failure left the child's state unknown.
    pub child_uncertain: bool,
    /// Whether the terminal's foreground group is the child's group.
    pub foreground_child: bool,
    /// Whether the background-write signal is currently ignored.
    pub suppressed: bool,
    /// Whether a termination request was observed while supervising.
    pub term_observed: bool,
    /// Whether restoring the terminal or the signal disposition failed.
    pub restore_failed: bool,
}

/// The action pending in each phase.
pub open spec fn action_for(phase: ControlPhase) -> ControlAction {
    match phase {
        ControlPhase::Spawning => ControlAction::SpawnChild,
        ControlPhase::Detached => ControlAction::SuppressBackgroundWriteSignal,
        ControlPhase::ForegroundHandoff => ControlAction::HandOffTerminal,
        ControlPhase::Supervising => ControlAction::PollChild,
        ControlPhase::Terminating => ControlAction::SignalChildGroup,
        ControlPhase::AwaitingExit => ControlAction::AwaitChild,
        ControlPhase::RestoringTerminal => ControlAction::RestoreTerminal,
        ControlPhase::RestoringDisposition => ControlAction::RestoreSignalDisposition,
        ControlPhase::Done => ControlAction::Finish,
    }
}

/// A success outcome is demoted to a terminal-restoration error; an already
/// recorded failure is kept, so that a restoration failure never masks the
/// primary error.
pub open spec fn demote_outcome(outcome: Option<Result<ExitStatusKind, SessionError>>) -> Option<
    Result<ExitStatusKind, SessionError>,
> {
    match outcome {
        Some(Ok(_)) => Some(Err(SessionError::TerminalRestoreFailed)),
        _ => outcome,
    }
}

/// The controller's transition relation: the state after `event` is
/// reported in state `s`. An event that does not belong to the current
/// phase changes nothing.
pub open spec fn control_step(s: Controller, event: ControlEvent) -> Controller {
    match (s.phase, event) {
        (ControlPhase::Spawning, ControlEvent::Spawned { pgid }) => Controller {
            phase: ControlPhase::Detached,
            child_pgid: pgid,
            child_running: true,
            ..s
        },
        (ControlPhase::Spawning, ControlEvent::SpawnFailed) => Controller {
            phase: ControlPhase::Done,
            outcome: Some(Err(SessionError::ChildSpawnFailed)),
            ..s
        },
        (ControlPhase::Detached, ControlEvent::SignalSuppressed) => Controller {
            phase: ControlPhase::ForegroundHandoff,
            suppressed: true,
            ..s
        },
        (ControlPhase::Detached, ControlEvent::SuppressFailed) => Controller {
            phase: ControlPhase::Done,
            outcome: Some(Err(SessionError::TerminalHandoffFailed)),
            ..s
        },
        (ControlPhase::ForegroundHandoff, ControlEvent::TerminalHandedOff) => Controller {
            phase: ControlPhase::Supervising,
            foreground_child: true,
            ..s
        },
        (ControlPhase::ForegroundHandoff, ControlEvent::HandoffFailed) => Controller {
            phase: ControlPhase::RestoringTerminal,
            outcome: Some(Err(SessionError::TerminalHandoffFailed)),
            ..s
        },
        (
            ControlPhase::Supervising,
            ControlEvent::ChildStillRunning { termination_requested },
        ) => if termination_requested {
            Controller { phase: ControlPhase::Terminating, term_observed: true, ..s }
        } else {
            s
        },
        (ControlPhase::Supervising, ControlEvent::ChildExited { status }) => Controller {
            phase: ControlPhase::RestoringTerminal,
            child_running: false,
            outcome: Some(Ok(status)),
            ..s
        },
        (ControlPhase::Supervising, ControlEvent::ChildStatusLost) => Controller {
            phase: ControlPhase::RestoringTerminal,
            child_uncertain: true,
            outcome: Some(Err(SessionError::ChildTerminatedWithoutStatus)),
            ..s
        },
        (ControlPhase::Terminating, ControlEvent::ChildSignaled) => Controller {
            phase: ControlPhase::AwaitingExit,
            ..s
        },
        (ControlPhase::Terminating, ControlEvent::SignalDeliveryFailed) => Controller {
            phase: ControlPhase::RestoringTerminal,
            child_uncertain: true,
            outcome: Some(Err(SessionError::ProcessGroupChangeFailed)),
            ..s
        },
        (ControlPhase::AwaitingExit, ControlEvent::ChildExited { status }) => Controller {
            phase: ControlPhase::RestoringTerminal,
            child_running: false,
            outcome: Some(Ok(status)),
            ..s
        },
        (ControlPhase::AwaitingExit, ControlEvent::ChildStatusLost) => Controller {
            phase: ControlPhase::RestoringTerminal,
            child_uncertain: true,
            outcome: Some(Err(SessionError::ChildTerminatedWithoutStatus)),
            ..s
        },
        (ControlPhase::RestoringTerminal, ControlEvent::TerminalRestored) => Controller {
            phase: ControlPhase::RestoringDisposition,
            foreground_child: false,
            ..s
        },
        (ControlPhase::RestoringTerminal, ControlEvent::TerminalRestoreFailed) => Controller {
            phase: ControlPhase::RestoringDisposition,
            restore_failed: true,
            outcome: demote_outcome(s.outcome),
            ..s
        },
        (ControlPhase::RestoringDisposition, ControlEvent::DispositionRestored) => Controller {
            phase: ControlPhase::Done,
            suppressed: false,
            ..s
        },
        (ControlPhase::RestoringDisposition, ControlEvent::DispositionRestoreFailed) => Controller {
            phase: ControlPhase::Done,
            restore_failed: true,
            outcome: demote_outcome(s.outcome),
            ..s
        },
        _ => s,
    }
}

impl Controller {
    /// The controller before any step was taken.
    pub open spec fn initial() -> Controller {
        Controller {
            phase: ControlPhase::Spawning,
            child_pgid: 0,
            outcome: None,
            child_running: false,
            child_uncertain: false,
            foreground_child: false,
            suppressed: false,
            term_observed: false,
            restore_failed: false,
        }
    }

    /// What each phase guarantees of the model. In particular: once `Done`
    /// is reached, an outcome is recorded; an observed termination request
    /// means the child no longer runs (unless its state was lost); and
    /// unless a restoration step failed, the terminal belongs to the
    /// supervisor again and the signal disposition is back.
    pub open spec fn inv(&self) -> bool {
        match self.phase {
            ControlPhase::Spawning => !self.child_running && !self.child_uncertain
                && !self.foreground_child && !self.suppressed && !self.term_observed
                && !self.restore_failed && self.outcome is None,
            ControlPhase::Detached => self.child_running && !self.child_uncertain
                && !self.foreground_child && !self.suppressed && !self.term_observed
                && !self.restore_failed && self.outcome is None,
            ControlPhase::ForegroundHandoff => self.child_running && !self.child_uncertain
                && self.suppressed && !self.foreground_child && !self.term_observed
                && !self.restore_failed && self.outcome is None,
            ControlPhase::Supervising => self.child_running && !self.child_uncertain
                && self.suppressed && self.foreground_child && !self.term_observed
                && !self.restore_failed && self.outcome is None,
            ControlPhase::Terminating => self.child_running && !self.child_uncertain
                && self.suppressed && self.foreground_child && self.term_observed
                && !self.restore_failed && self.outcome is None,
            ControlPhase::AwaitingExit => self.child_running && !self.child_uncertain
                && self.suppressed && self.foreground_child && self.term_observed
                && !self.restore_failed && self.outcome is None,
            ControlPhase::RestoringTerminal => self.suppressed && !self.restore_failed
                && self.outcome is Some && (self.term_observed && !self.child_uncertain
                ==> !self.child_running),
            ControlPhase::RestoringDisposition => self.suppressed && self.outcome is Some && (
            self.term_observed && !self.child_uncertain ==> !self.child_running) && (
            !self.restore_failed ==> !self.foreground_child),
            ControlPhase::Done => self.outcome is Some && (self.term_observed
                && !self.child_uncertain ==> !self.child_running) && (!self.restore_failed
                ==> !self.foreground_child && !self.suppressed),
        }
    }

    /// A fresh controller, ready to spawn.
    pub fn new() -> (c: Controller)
        ensures
            c == Controller::initial(),
            c.inv(),
    {
        Controller {
            phase: ControlPhase::Spawning,
            child_pgid: 0,
            outcome: None,
            child_running: false,
            child_uncertain: false,
            foreground_child: false,
            suppressed: false,
            term_observed: false,
            restore_failed: false,
        }
    }

    /// The action the surrounding program must perform next.
    pub fn current_action(&self) -> (a: ControlAction)
        ensures
            a == action_for(self.phase),
    {
        match self.phase {
            ControlPhase::Spawning => ControlAction::SpawnChild,
            ControlPhase::Detached => ControlAction::SuppressBackgroundWriteSignal,
            ControlPhase::ForegroundHandoff => ControlAction::HandOffTerminal,
            ControlPhase::Supervising => ControlAction::PollChild,
            ControlPhase::Terminating => ControlAction::SignalChildGroup,
            ControlPhase::AwaitingExit => ControlAction::AwaitChild,
            ControlPhase::RestoringTerminal => ControlAction::RestoreTerminal,
            ControlPhase::RestoringDisposition => ControlAction::RestoreSignalDisposition,
            ControlPhase::Done => ControlAction::Finish,
        }
    }

    /// Report what happened when the current action was performed; the
    /// controller advances exactly as [`control_step`] describes.
    pub fn observe(&mut self, event: ControlEvent)
        requires
            old(self).inv(),
        ensures
            *final(self) == control_step(*old(self), event),
            final(self).inv(),
    {
        proof {
            lemma_control_step_preserves_inv(*old(self), event);
        }
        match (self.phase, event) {
            (ControlPhase::Spawning, ControlEvent::Spawned { pgid }) => {
                self.phase = ControlPhase::Detached;
                self.child_pgid = pgid;
                self.child_running = true;
            },
            (ControlPhase::Spawning, ControlEvent::SpawnFailed) => {
                self.phase = ControlPhase::Done;
                self.outcome = Some(Err(SessionError::ChildSpawnFailed));
            },
            (ControlPhase::Detached, ControlEvent::SignalSuppressed) => {
                self.phase = ControlPhase::ForegroundHandoff;
                self.suppressed = true;
            },
            (ControlPhase::Detached, ControlEvent::SuppressFailed) => {
                self.phase = ControlPhase::Done;
                self.outcome = Some(Err(SessionError::TerminalHandoffFailed));
            },
            (ControlPhase::ForegroundHandoff, ControlEvent::TerminalHandedOff) => {
                self.phase = ControlPhase::Supervising;
                self.foreground_child = true;
            },
            (ControlPhase::ForegroundHandoff, ControlEvent::HandoffFailed) => {
                self.phase = ControlPhase::RestoringTerminal;
                self.outcome = Some(Err(SessionError::TerminalHandoffFailed));
            },
            (ControlPhase::Supervising, ControlEvent::ChildStillRunning { termination_requested }) => {
                if termination_requested {
                    self.phase = ControlPhase::Terminating;
                    self.term_observed = true;
                }
            },
            (ControlPhase::Supervising, ControlEvent::ChildExited { status }) => {
                self.phase = ControlPhase::RestoringTerminal;
                self.child_running = false;
                self.outcome = Some(Ok(status));
            },
            (ControlPhase::Supervising, ControlEvent::ChildStatusLost) => {
                self.phase = ControlPhase::RestoringTerminal;
                self.child_uncertain = true;
                self.outcome = Some(Err(SessionError::ChildTerminatedWithoutStatus));
            },
            (ControlPhase::Terminating, ControlEvent::ChildSignaled) => {
                self.phase = ControlPhase::AwaitingExit;
            },
            (ControlPhase::Terminating, ControlEvent::SignalDeliveryFailed) => {
                self.phase = ControlPhase::RestoringTerminal;
                self.child_uncertain = true;
                self.outcome = Some(Err(SessionError::ProcessGroupChangeFailed));
            },
            (ControlPhase::AwaitingExit, ControlEvent::ChildExited { status }) => {
                self.phase = ControlPhase::RestoringTerminal;
                self.child_running = false;
                self.outcome = Some(Ok(status));
            },
            (ControlPhase::AwaitingExit, ControlEvent::ChildStatusLost) => {
                self.phase = ControlPhase::RestoringTerminal;
                self.child_uncertain = true;
                self.outcome = Some(Err(SessionError::ChildTerminatedWithoutStatus));
            },
            (ControlPhase::RestoringTerminal, ControlEvent::TerminalRestored) => {
                self.phase = ControlPhase::RestoringDisposition;
                self.foreground_child = false;
            },
            (ControlPhase::RestoringTerminal, ControlEvent::TerminalRestoreFailed) => {
                self.phase = ControlPhase::RestoringDisposition;
                self.restore_failed = true;
                self.demote();
            },
            (ControlPhase::RestoringDisposition, ControlEvent::DispositionRestored) => {
                self.phase = ControlPhase::Done;
                self.suppressed = false;
            },
            (ControlPhase::RestoringDisposition, ControlEvent::DispositionRestoreFailed) => {
                self.phase = ControlPhase::Done;
                self.restore_failed = true;
                self.demote();
            },
            _ => {},
        }
    }

    /// Replace a success outcome by a terminal-restoration error, keeping an
    /// already recorded failure as the primary error.
    fn demote(&mut self)
        ensures
            *final(self) == (Controller { outcome: demote_outcome(old(self).outcome), ..*old(self) }),
    {
        match self.outcome {
            Some(Ok(_)) => {
                self.outcome = Some(Err(SessionError::TerminalRestoreFailed));
            },
            _ => {},
        }
    }

    /// The session is over exactly when no action is pending.
    pub fn is_done(&self) -> (b: bool)
        ensures
            b == (self.phase is Done),
    {
        match self.phase {
            ControlPhase::Done => true,
            _ => false,
        }
    }
}

/// Every reported event keeps the controller's invariant.
pub proof fn lemma_control_step_preserves_inv(s: Controller, event: ControlEvent)
    requires
        s.inv(),
    ensures
        control_step(s, event).inv(),
{
}

/// A termination request observed while the child was running is honored:
/// when the controller is done and no wait or signal failure left the
/// child's state unknown, the child is no longer running.
pub proof fn lemma_termination_request_honored(s: Controller)
    requires
        s.inv(),
        s.phase is Done,
        s.term_observed,
        !s.child_uncertain,
    ensures
        !s.child_running,
{
}

/// Restoration is reached on every path: when the controller is done and no
/// restoration step failed, the terminal's foreground group is the
/// supervisor's own again and the saved signal disposition is back.
pub proof fn lemma_terminal_restored(s: Controller)
    requires
        s.inv(),
        s.phase is Done,
        !s.restore_failed,
    ensures
        !s.foreground_child,
        !s.suppressed,
{
}

/// A restoration step never replaces a recorded failure: whatever the
/// restoration events report, the primary error stands. (Only a success
/// outcome can be demoted, to a terminal-restoration error.)
pub proof fn lemma_restoration_keeps_primary_error(s: Controller, event: ControlEvent)
    requires
        s.phase is RestoringTerminal || s.phase is RestoringDisposition,
        s.outcome matches Some(r) && r is Err,
    ensures
        control_step(s, event).outcome == s.outcome,
{
}

/// The controller never finishes without recording an outcome.
pub proof fn lemma_done_has_outcome(s: Controller)
    requires
        s.inv(),
        s.phase is Done,
    ensures
        s.outcome is Some,
{
}

} // verus!
