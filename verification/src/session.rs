//! Session orchestration: ephemeral key staging around a supervised child.
//!
//! The machine sequences one connect session after resolution: fetch the
//! secret bytes, create a private staging directory and a stricter-permission
//! key file inside it, write the exact secret bytes, narrow the file to
//! owner-read-only, run the interactive child (under
//! [`crate::controller::Controller`]), and remove the file and the directory
//! again on every path out, success or failure.
//!
//! As in [`crate::controller`], the machine performs no operating-system
//! call itself: the surrounding program performs the action named by
//! [`SessionMachine::current_action`] and reports what happened through
//! [`SessionMachine::observe`]. The `dir_exists`, `file_exists`, `file_mode`
//! and `file_content` fields model the filesystem as the reported events
//! describe it.

use vstd::prelude::*;

use crate::errors::{ExitStatusKind, SessionError};

verus! {

/// Permission bits of the staging directory: owner read, write and search
/// only.
pub const STAGING_DIR_MODE: u32 = 0o700;

/// Permission bits of the key file while it is being written: owner read
/// and write only.
pub const KEY_FILE_CREATE_MODE: u32 = 0o600;

/// Permission bits of the key file once populated: owner read only.
pub const KEY_FILE_LOCKED_MODE: u32 = 0o400;

/// Where the session stands between two actions.
#[derive(Clone, Copy, Debug, PartialEq, Eq, Structural)]
pub enum StagePhase {
    /// The secret bytes are to be fetched from the credential store.
    FetchingSecret,
    /// The staging directory is to be created.
    CreatingDirectory,
    /// The key file is to be created inside the staging directory.
    CreatingFile,
    /// The secret bytes are to be written to the key file.
    WritingKey,
    /// The key file is to be narrowed to owner-read-only.
    RestrictingFile,
    /// The interactive child is to be run in the foreground.
    RunningChild,
    /// The key file is to be removed.
    RemovingFile,
    /// The staging directory is to be removed.
    RemovingDirectory,
    /// Nothing is left to do; the outcome is available.
    Done,
}

/// The step the surrounding program must perform next.
#[derive(Clone, Copy, Debug, PartialEq, Eq, Structural)]
pub enum StageAction {
    /// Resolve the credential reference to the raw secret bytes through the
    /// credential store client.
    FetchSecret,
    /// Create a directory with mode [`STAGING_DIR_MODE`], preferring
    /// volatile storage and falling back to the default temporary location.
    CreateStagingDirectory,
    /// Create a file inside the staging directory with mode
    /// [`KEY_FILE_CREATE_MODE`].
    CreateKeyFile,
    /// Write exactly [`SessionMachine::secret_bytes`] to the key file, with
    /// nothing added and nothing stripped.
    WriteKeyBytes,
    /// Narrow the key file to mode [`KEY_FILE_LOCKED_MODE`].
    RestrictKeyFile,
    /// Run the interactive child under the foreground process controller
    /// and collect its outcome.
    RunChildSession,
    /// Remove the key file.
    RemoveKeyFile,
    /// Remove the staging directory.
    RemoveStagingDirectory,
    /// Nothing: the session is over and the outcome is recorded.
    Finish,
}

/// What happened when the surrounding program performed the current action.
#[derive(Debug)]
pub enum StageEvent {
    /// The credential store delivered these secret bytes.
    SecretFetched { secret: Vec<u8> },
    /// The credential store could not deliver the secret.
    FetchFailed,
    /// The staging directory exists with mode [`STAGING_DIR_MODE`].
    DirectoryCreated,
    /// The staging directory could not be created.
    DirectoryFailed,
    /// The key file exists with mode [`KEY_FILE_CREATE_MODE`].
    FileCreated,
    /// The key file could not be created.
    FileFailed,
    /// The secret bytes were written to the key file, exactly and entirely.
    KeyWritten,
    /// Writing the key file failed.
    WriteFailed,
    /// The key file's mode is now [`KEY_FILE_LOCKED_MODE`].
    FileRestricted,
    /// Narrowing the key file's mode failed.
    RestrictFailed,
    /// The child session finished with this outcome.
    ChildCompleted { result: Result<ExitStatusKind, SessionError> },
    /// The key file was removed.
    FileRemoved,
    /// The key file could not be removed; it may remain.
    FileRemoveFailed,
    /// The staging directory was removed.
    DirectoryRemoved,
    /// The staging directory could not be removed; it may remain.
    DirectoryRemoveFailed,
}

/// The session machine's state, together with its model of the filesystem.
pub struct SessionMachine {
    /// Where the session stands.
    pub phase: StagePhase,
    /// The fetched secret bytes; meaningful once `have_secret` holds.
    pub secret: Vec<u8>,
    /// Whether the secret has been fetched.
    pub have_secret: bool,
    /// The session's outcome, once decided. A failure recorded here is the
    /// primary error: cleanup failures never replace it.
    pub outcome: Option<Result<ExitStatusKind, SessionError>>,
    /// Whether the staging directory exists, as reported.
    pub dir_exists: bool,
    /// The staging directory's permission bits, while it exists.
    pub dir_mode: u32,
    /// Whether the key file exists, as reported.
    pub file_exists: bool,
    /// The key file's permission bits, while it exists.
    pub file_mode: u32,
    /// Whether the secret bytes have been written to the key file.
    pub file_written: bool,
    /// The bytes the key file holds, once written.
    pub file_content: Ghost<Seq<u8>>,
    /// Whether removing the file or the directory failed, leaving staged
    /// material behind; contained, never escalated.
    pub cleanup_incomplete: bool,
}

/// The action pending in each phase.
pub open spec fn stage_action_for(phase: StagePhase) -> StageAction {
    match phase {
        StagePhase::FetchingSecret => StageAction::FetchSecret,
        StagePhase::CreatingDirectory => StageAction::CreateStagingDirectory,
        StagePhase::CreatingFile => StageAction::CreateKeyFile,
        StagePhase::WritingKey => StageAction::WriteKeyBytes,
        StagePhase::RestrictingFile => StageAction::RestrictKeyFile,
        StagePhase::RunningChild => StageAction::RunChildSession,
        StagePhase::RemovingFile => StageAction::RemoveKeyFile,
        StagePhase::RemovingDirectory => StageAction::RemoveStagingDirectory,
        StagePhase::Done => StageAction::Finish,
    }
}

/// The session machine's transition relation: the state after `event` is
/// reported in state `s`. An event that does not belong to the current
/// phase changes nothing.
pub open spec fn stage_step(s: SessionMachine, event: StageEvent) -> SessionMachine {
    match (s.phase, event) {
        (StagePhase::FetchingSecret, StageEvent::SecretFetched { secret }) => SessionMachine {
            phase: StagePhase::CreatingDirectory,
            secret,
            have_secret: true,
            ..s
        },
        (StagePhase::FetchingSecret, StageEvent::FetchFailed) => SessionMachine {
            phase: StagePhase::Done,
            outcome: Some(Err(SessionError::SecretFetchFailed)),
            ..s
        },
        (StagePhase::CreatingDirectory, StageEvent::DirectoryCreated) => SessionMachine {
            phase: StagePhase::CreatingFile,
            dir_exists: true,
            dir_mode: STAGING_DIR_MODE,
            ..s
        },
        (StagePhase::CreatingDirectory, StageEvent::DirectoryFailed) => SessionMachine {
            phase: StagePhase::Done,
            outcome: Some(Err(SessionError::KeyStagingFailed)),
            ..s
        },
        (StagePhase::CreatingFile, StageEvent::FileCreated) => SessionMachine {
            phase: StagePhase::WritingKey,
            file_exists: true,
            file_mode: KEY_FILE_CREATE_MODE,
            ..s
        },
        (StagePhase::CreatingFile, StageEvent::FileFailed) => SessionMachine {
            phase: StagePhase::RemovingDirectory,
            outcome: Some(Err(SessionError::KeyStagingFailed)),
            ..s
        },
        (StagePhase::WritingKey, StageEvent::KeyWritten) => SessionMachine {
            phase: StagePhase::RestrictingFile,
            file_written: true,
            file_content: Ghost(s.secret@),
            ..s
        },
        (StagePhase::WritingKey, StageEvent::WriteFailed) => SessionMachine {
            phase: StagePhase::RemovingFile,
            outcome: Some(Err(SessionError::KeyStagingFailed)),
            ..s
        },
        (StagePhase::RestrictingFile, StageEvent::FileRestricted) => SessionMachine {
            phase: StagePhase::RunningChild,
            file_mode: KEY_FILE_LOCKED_MODE,
            ..s
        },
        (StagePhase::RestrictingFile, StageEvent::RestrictFailed) => SessionMachine {
            phase: StagePhase::RemovingFile,
            outcome: Some(Err(SessionError::KeyStagingFailed)),
            ..s
        },
        (StagePhase::RunningChild, StageEvent::ChildCompleted { result }) => SessionMachine {
            phase: StagePhase::RemovingFile,
            outcome: Some(result),
            ..s
        },
        (StagePhase::RemovingFile, StageEvent::FileRemoved) => SessionMachine {
            phase: StagePhase::RemovingDirectory,
            file_exists: false,
            file_written: false,
            ..s
        },
        (StagePhase::RemovingFile, StageEvent::FileRemoveFailed) => SessionMachine {
            phase: StagePhase::RemovingDirectory,
            cleanup_incomplete: true,
            ..s
        },
        (StagePhase::RemovingDirectory, StageEvent::DirectoryRemoved) => SessionMachine {
            phase: StagePhase::Done,
            dir_exists: false,
            ..s
        },
        (StagePhase::RemovingDirectory, StageEvent::DirectoryRemoveFailed) => SessionMachine {
            phase: StagePhase::Done,
            cleanup_incomplete: true,
            ..s
        },
        _ => s,
    }
}

impl SessionMachine {
    /// The machine before any step was taken: nothing fetched, nothing
    /// staged, no outcome.
    pub open spec fn is_initial(&self) -> bool {
        &&& self.phase is FetchingSecret
        &&& !self.have_secret
        &&& self.outcome is None
        &&& !self.dir_exists
        &&& !self.file_exists
        &&& !self.file_written
        &&& !self.cleanup_incomplete
        &&& self.secret@ == Seq::<u8>::empty()
    }

    /// What each phase guarantees of the model. In particular: the staging
    /// directory only ever carries mode [`STAGING_DIR_MODE`] and the key
    /// file only ever [`KEY_FILE_CREATE_MODE`] or [`KEY_FILE_LOCKED_MODE`];
    /// once written, the file holds exactly the fetched secret bytes; while
    /// the child runs the file is locked to owner-read-only; and once
    /// `Done` is reached an outcome is recorded and, unless a removal
    /// itself failed, neither the file nor the directory exists.
    pub open spec fn inv(&self) -> bool {
        &&& (self.dir_exists ==> self.dir_mode == STAGING_DIR_MODE)
        &&& (self.file_exists ==> self.file_mode == KEY_FILE_CREATE_MODE || self.file_mode
            == KEY_FILE_LOCKED_MODE)
        &&& (self.file_written ==> self.file_exists && self.have_secret && self.file_content@
            == self.secret@)
        &&& match self.phase {
            StagePhase::FetchingSecret => !self.have_secret && !self.dir_exists
                && !self.file_exists && !self.file_written && !self.cleanup_incomplete
                && self.outcome is None,
            StagePhase::CreatingDirectory => self.have_secret && !self.dir_exists
                && !self.file_exists && !self.file_written && !self.cleanup_incomplete
                && self.outcome is None,
            StagePhase::CreatingFile => self.have_secret && self.dir_exists && !self.file_exists
                && !self.file_written && !self.cleanup_incomplete && self.outcome is None,
            StagePhase::WritingKey => self.have_secret && self.dir_exists && self.file_exists
                && self.file_mode == KEY_FILE_CREATE_MODE && !self.file_written
                && !self.cleanup_incomplete && self.outcome is None,
            StagePhase::RestrictingFile => self.dir_exists && self.file_written && self.file_mode
                == KEY_FILE_CREATE_MODE && !self.cleanup_incomplete && self.outcome is None,
            StagePhase::RunningChild => self.dir_exists && self.file_written && self.file_mode
                == KEY_FILE_LOCKED_MODE && !self.cleanup_incomplete && self.outcome is None,
            StagePhase::RemovingFile => self.dir_exists && self.file_exists
                && !self.cleanup_incomplete && self.outcome is Some,
            StagePhase::RemovingDirectory => self.dir_exists && (self.file_exists
                ==> self.cleanup_incomplete) && self.outcome is Some,
            StagePhase::Done => self.outcome is Some && (!self.cleanup_incomplete
                ==> !self.file_exists && !self.dir_exists),
        }
    }

    /// A fresh session machine, ready to fetch the secret.
    pub fn new() -> (m: SessionMachine)
        ensures
            m.is_initial(),
            m.inv(),
    {
        SessionMachine {
            phase: StagePhase::FetchingSecret,
            secret: Vec::new(),
            have_secret: false,
            outcome: None,
            dir_exists: false,
            dir_mode: 0,
            file_exists: false,
            file_mode: 0,
            file_written: false,
            file_content: Ghost(Seq::empty()),
            cleanup_incomplete: false,
        }
    }

    /// The action the surrounding program must perform next.
    pub fn current_action(&self) -> (a: StageAction)
        ensures
            a == stage_action_for(self.phase),
    {
        match self.phase {
            StagePhase::FetchingSecret => StageAction::FetchSecret,
            StagePhase::CreatingDirectory => StageAction::CreateStagingDirectory,
            StagePhase::CreatingFile => StageAction::CreateKeyFile,
            StagePhase::WritingKey => StageAction::WriteKeyBytes,
            StagePhase::RestrictingFile => StageAction::RestrictKeyFile,
            StagePhase::RunningChild => StageAction::RunChildSession,
            StagePhase::RemovingFile => StageAction::RemoveKeyFile,
            StagePhase::RemovingDirectory => StageAction::RemoveStagingDirectory,
            StagePhase::Done => StageAction::Finish,
        }
    }

    /// The bytes to write to the key file: exactly the fetched secret, with
    /// no terminator added and nothing stripped.
    pub fn secret_bytes(&self) -> (b: &Vec<u8>)
        requires
            self.have_secret,
        ensures
            b@ == self.secret@,
    {
        &self.secret
    }

    /// Report what happened when the current action was performed; the
    /// machine advances exactly as [`stage_step`] describes.
    pub fn observe(&mut self, event: StageEvent)
        requires
            old(self).inv(),
        ensures
            *final(self) == stage_step(*old(self), event),
            final(self).inv(),
    {
        proof {
            lemma_stage_step_preserves_inv(*old(self), event);
        }
        match (self.phase, event) {
            (StagePhase::FetchingSecret, StageEvent::SecretFetched { secret }) => {
                self.phase = StagePhase::CreatingDirectory;
                self.secret = secret;
                self.have_secret = true;
            },
            (StagePhase::FetchingSecret, StageEvent::FetchFailed) => {
                self.phase = StagePhase::Done;
                self.outcome = Some(Err(SessionError::SecretFetchFailed));
            },
            (StagePhase::CreatingDirectory, StageEvent::DirectoryCreated) => {
                self.phase = StagePhase::CreatingFile;
                self.dir_exists = true;
                self.dir_mode = STAGING_DIR_MODE;
            },
            (StagePhase::CreatingDirectory, StageEvent::DirectoryFailed) => {
                self.phase = StagePhase::Done;
                self.outcome = Some(Err(SessionError::KeyStagingFailed));
            },
            (StagePhase::CreatingFile, StageEvent::FileCreated) => {
                self.phase = StagePhase::WritingKey;
                self.file_exists = true;
                self.file_mode = KEY_FILE_CREATE_MODE;
            },
            (StagePhase::CreatingFile, StageEvent::FileFailed) => {
                self.phase = StagePhase::RemovingDirectory;
                self.outcome = Some(Err(SessionError::KeyStagingFailed));
            },
            (StagePhase::WritingKey, StageEvent::KeyWritten) => {
                self.phase = StagePhase::RestrictingFile;
                self.file_written = true;
                self.file_content = Ghost(self.secret@);
            },
            (StagePhase::WritingKey, StageEvent::WriteFailed) => {
                self.phase = StagePhase::RemovingFile;
                self.outcome = Some(Err(SessionError::KeyStagingFailed));
            },
            (StagePhase::RestrictingFile, StageEvent::FileRestricted) => {
                self.phase = StagePhase::RunningChild;
                self.file_mode = KEY_FILE_LOCKED_MODE;
            },
            (StagePhase::RestrictingFile, StageEvent::RestrictFailed) => {
                self.phase = StagePhase::RemovingFile;
                self.outcome = Some(Err(SessionError::KeyStagingFailed));
            },
            (StagePhase::RunningChild, StageEvent::ChildCompleted { result }) => {
                self.phase = StagePhase::RemovingFile;
                self.outcome = Some(result);
            },
            (StagePhase::RemovingFile, StageEvent::FileRemoved) => {
                self.phase = StagePhase::RemovingDirectory;
                self.file_exists = false;
                self.file_written = false;
            },
            (StagePhase::RemovingFile, StageEvent::FileRemoveFailed) => {
                self.phase = StagePhase::RemovingDirectory;
                self.cleanup_incomplete = true;
            },
            (StagePhase::RemovingDirectory, StageEvent::DirectoryRemoved) => {
                self.phase = StagePhase::Done;
                self.dir_exists = false;
            },
            (StagePhase::RemovingDirectory, StageEvent::DirectoryRemoveFailed) => {
                self.phase = StagePhase::Done;
                self.cleanup_incomplete = true;
            },
            _ => {},
        }
    }

    /// The session is over exactly when no action is pending.
    pub fn is_done(&self) -> (b: bool)
        ensures
            b == (self.phase is Done),
    {
        match self.phase {
            StagePhase::Done => true,
            _ => false,
        }
    }
}

/// Every reported event keeps the session machine's invariant.
pub proof fn lemma_stage_step_preserves_inv(s: SessionMachine, event: StageEvent)
    requires
        s.inv(),
    ensures
        stage_step(s, event).inv(),
{
}

/// The staged material never carries group or other permission bits: at
/// every observable instant, the staging directory's and the key file's
/// modes grant access to the owner alone.
pub proof fn lemma_staging_modes_owner_only(s: SessionMachine)
    requires
        s.inv(),
    ensures
        s.dir_exists ==> s.dir_mode & 0o077 == 0,
        s.file_exists ==> s.file_mode & 0o077 == 0,
{
    assert((0o700u32 & 0o077u32) == 0) by (bit_vector);
    assert((0o600u32 & 0o077u32) == 0) by (bit_vector);
    assert((0o400u32 & 0o077u32) == 0) by (bit_vector);
}

/// Once populated, the key file is never writable: while the child session
/// runs, the file's mode is owner-read-only.
pub proof fn lemma_file_locked_while_child_runs(s: SessionMachine)
    requires
        s.inv(),
        s.phase is RunningChild,
    ensures
        s.file_mode == KEY_FILE_LOCKED_MODE,
{
}

/// Round-trip: once the secret has been written, the key file holds exactly
/// the fetched bytes, with no terminator added and nothing stripped.
pub proof fn lemma_staged_bytes_exact(s: SessionMachine)
    requires
        s.inv(),
        s.file_written,
    ensures
        s.file_content@ == s.secret@,
        s.file_content@.len() == s.secret@.len(),
{
}

/// The staging directory and file are gone once the session is over, on
/// every path — normal child exit, forced termination, or a staging or
/// spawn failure — unless a removal itself failed, which is contained and
/// never escalated.
pub proof fn lemma_staging_cleaned_up(s: SessionMachine)
    requires
        s.inv(),
        s.phase is Done,
        !s.cleanup_incomplete,
    ensures
        !s.file_exists,
        !s.dir_exists,
{
}

/// A cleanup event never replaces the primary outcome: whatever the removal
/// steps report, the recorded outcome stands.
pub proof fn lemma_cleanup_preserves_outcome(s: SessionMachine, event: StageEvent)
    requires
        s.phase is RemovingFile || s.phase is RemovingDirectory,
    ensures
        stage_step(s, event).outcome == s.outcome,
{
}

/// The session never finishes without recording an outcome.
pub proof fn lemma_session_done_has_outcome(s: SessionMachine)
    requires
        s.inv(),
        s.phase is Done,
    ensures
        s.outcome is Some,
{
}

} // verus!
