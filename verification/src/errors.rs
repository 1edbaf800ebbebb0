//! Error kinds surfaced by the session orchestrator and the configuration
//! editing commands.

use vstd::prelude::*;

verus! {

/// A failure of one distinct step of a connect session.
///
/// Configuration-resolution and fetch errors arise before any process or
/// terminal state has been touched; the later kinds identify which
/// operating-system step failed once a session is under way.
#[derive(Clone, Copy, Debug, PartialEq, Eq, Structural)]
pub enum SessionError {
    /// The requested key alias is not configured.
    AliasNotFound,
    /// The requested host profile is not configured.
    HostNotFound,
    /// A host profile references a key alias that no longer exists.
    DanglingAliasReference,
    /// The secret store could not deliver the key bytes.
    SecretFetchFailed,
    /// Creating the staging directory or file, or narrowing its permissions,
    /// failed.
    KeyStagingFailed,
    /// The interactive child process could not be spawned.
    ChildSpawnFailed,
    /// A signal could not be delivered to the child's process group.
    ProcessGroupChangeFailed,
    /// Handing the controlling terminal to the child's group failed.
    TerminalHandoffFailed,
    /// Returning the controlling terminal to the supervisor failed after the
    /// session ended.
    TerminalRestoreFailed,
    /// The child's exit status could not be observed.
    ChildTerminatedWithoutStatus,
}

impl SessionError {
    /// A one-line description of the failing step, for the surrounding
    /// program to print before exiting nonzero.
    pub fn describe(&self) -> (s: String)
        ensures
            *self is AliasNotFound ==> s@ == "key alias not found"@,
            *self is HostNotFound ==> s@ == "host not found"@,
            *self is DanglingAliasReference ==> s@ == "host references a key alias that no longer exists"@,
            *self is SecretFetchFailed ==> s@ == "fetching the secret failed"@,
            *self is KeyStagingFailed ==> s@ == "staging the key material failed"@,
            *self is ChildSpawnFailed ==> s@ == "spawning the child process failed"@,
            *self is ProcessGroupChangeFailed ==> s@ == "signalling the child process group failed"@,
            *self is TerminalHandoffFailed ==> s@ == "handing the terminal to the child failed"@,
            *self is TerminalRestoreFailed ==> s@ == "restoring the terminal failed"@,
            *self is ChildTerminatedWithoutStatus ==> s@ == "the child exit status could not be observed"@,
    {
        match self {
            SessionError::AliasNotFound => String::from_str("key alias not found"),
            SessionError::HostNotFound => String::from_str("host not found"),
            SessionError::DanglingAliasReference => String::from_str(
                "host references a key alias that no longer exists",
            ),
            SessionError::SecretFetchFailed => String::from_str("fetching the secret failed"),
            SessionError::KeyStagingFailed => String::from_str("staging the key material failed"),
            SessionError::ChildSpawnFailed => String::from_str("spawning the child process failed"),
            SessionError::ProcessGroupChangeFailed => String::from_str(
                "signalling the child process group failed",
            ),
            SessionError::TerminalHandoffFailed => String::from_str(
                "handing the terminal to the child failed",
            ),
            SessionError::TerminalRestoreFailed => String::from_str("restoring the terminal failed"),
            SessionError::ChildTerminatedWithoutStatus => String::from_str(
                "the child exit status could not be observed",
            ),
        }
    }
}

/// A failure of a configuration editing command.
#[derive(Clone, Debug, PartialEq, Eq)]
pub enum ConfigError {
    /// The named key alias is not configured.
    AliasNotFound,
    /// The named host profile is not configured.
    HostNotFound,
    /// The key alias is referenced by host profiles and may not be removed;
    /// the names of those hosts are carried along.
    AliasInUse { hosts: Vec<String> },
}

/// How the supervised child ended: a normal exit code, or death by an
/// uncaught signal. The two are kept distinct so that callers can tell
/// "exited 1" from "killed by signal 15".
#[derive(Clone, Copy, Debug, PartialEq, Eq, Structural)]
pub enum ExitStatusKind {
    /// The child exited on its own with this code.
    Exited { code: i32 },
    /// The child was terminated by this signal.
    Signaled { signal: i32 },
}

} // verus!
