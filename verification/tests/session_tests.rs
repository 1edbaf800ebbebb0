use smssh::config::{add_config, resolve_alias, Config, KeyAliasConfig};
use smssh::cli::{AliasKind, SetConfigSection};
use smssh::errors::{ExitStatusKind, SessionError};
use smssh::invocation::process_exit_code;
use smssh::session::{
    SessionMachine, StageAction, StageEvent, KEY_FILE_CREATE_MODE, KEY_FILE_LOCKED_MODE,
    STAGING_DIR_MODE,
};

fn secret_of_len(n: usize) -> Vec<u8> {
    let mut v = Vec::new();
    for i in 0..n {
        v.push((i % 251) as u8);
    }
    v
}

#[test]
fn staging_modes_are_owner_only() {
    assert_eq!(STAGING_DIR_MODE, 0o700);
    assert_eq!(KEY_FILE_CREATE_MODE, 0o600);
    assert_eq!(KEY_FILE_LOCKED_MODE, 0o400);
    assert_eq!(STAGING_DIR_MODE & 0o077, 0);
    assert_eq!(KEY_FILE_CREATE_MODE & 0o077, 0);
    assert_eq!(KEY_FILE_LOCKED_MODE & 0o077, 0);
}

#[test]
fn staged_bytes_round_trip_exactly() {
    let secret = secret_of_len(100);
    let mut m = SessionMachine::new();
    m.observe(StageEvent::SecretFetched { secret: secret.clone() });
    m.observe(StageEvent::DirectoryCreated);
    m.observe(StageEvent::FileCreated);
    assert_eq!(m.current_action(), StageAction::WriteKeyBytes);
    // The bytes handed to the write step are exactly the fetched secret:
    // same length, same contents, no terminator added.
    assert_eq!(m.secret_bytes(), &secret);
    assert_eq!(m.secret_bytes().len(), 100);
    m.observe(StageEvent::KeyWritten);
    assert!(m.file_written);
    assert_eq!(m.secret_bytes(), &secret);
}

#[test]
fn file_is_locked_before_the_child_runs() {
    let mut m = SessionMachine::new();
    m.observe(StageEvent::SecretFetched { secret: secret_of_len(32) });
    m.observe(StageEvent::DirectoryCreated);
    assert_eq!(m.dir_mode, 0o700);
    m.observe(StageEvent::FileCreated);
    assert_eq!(m.file_mode, 0o600);
    m.observe(StageEvent::KeyWritten);
    m.observe(StageEvent::FileRestricted);
    assert_eq!(m.current_action(), StageAction::RunChildSession);
    assert_eq!(m.file_mode, 0o400);
    assert_eq!(m.file_mode & 0o077, 0);
}

#[test]
fn normal_exit_leaves_no_staging_behind() {
    let mut m = SessionMachine::new();
    m.observe(StageEvent::SecretFetched { secret: secret_of_len(32) });
    m.observe(StageEvent::DirectoryCreated);
    m.observe(StageEvent::FileCreated);
    m.observe(StageEvent::KeyWritten);
    m.observe(StageEvent::FileRestricted);
    m.observe(StageEvent::ChildCompleted { result: Ok(ExitStatusKind::Exited { code: 0 }) });
    assert_eq!(m.current_action(), StageAction::RemoveKeyFile);
    m.observe(StageEvent::FileRemoved);
    assert_eq!(m.current_action(), StageAction::RemoveStagingDirectory);
    m.observe(StageEvent::DirectoryRemoved);
    assert!(m.is_done());
    assert_eq!(m.outcome, Some(Ok(ExitStatusKind::Exited { code: 0 })));
    assert!(!m.file_exists);
    assert!(!m.dir_exists);
}

#[test]
fn forced_termination_leaves_no_staging_behind() {
    let mut m = SessionMachine::new();
    m.observe(StageEvent::SecretFetched { secret: secret_of_len(32) });
    m.observe(StageEvent::DirectoryCreated);
    m.observe(StageEvent::FileCreated);
    m.observe(StageEvent::KeyWritten);
    m.observe(StageEvent::FileRestricted);
    // The child was killed by the forwarded termination signal.
    m.observe(StageEvent::ChildCompleted { result: Ok(ExitStatusKind::Signaled { signal: 15 }) });
    m.observe(StageEvent::FileRemoved);
    m.observe(StageEvent::DirectoryRemoved);
    assert!(m.is_done());
    assert_eq!(m.outcome, Some(Ok(ExitStatusKind::Signaled { signal: 15 })));
    assert!(!m.file_exists);
    assert!(!m.dir_exists);
}

#[test]
fn staging_failure_before_a_child_exists_cleans_up() {
    let mut m = SessionMachine::new();
    m.observe(StageEvent::SecretFetched { secret: secret_of_len(32) });
    m.observe(StageEvent::DirectoryCreated);
    m.observe(StageEvent::FileCreated);
    m.observe(StageEvent::WriteFailed);
    assert_eq!(m.current_action(), StageAction::RemoveKeyFile);
    m.observe(StageEvent::FileRemoved);
    m.observe(StageEvent::DirectoryRemoved);
    assert!(m.is_done());
    assert_eq!(m.outcome, Some(Err(SessionError::KeyStagingFailed)));
    assert!(!m.file_exists);
    assert!(!m.dir_exists);
}

#[test]
fn fetch_failure_never_creates_staging() {
    let mut m = SessionMachine::new();
    m.observe(StageEvent::FetchFailed);
    assert!(m.is_done());
    assert_eq!(m.outcome, Some(Err(SessionError::SecretFetchFailed)));
    assert!(!m.dir_exists);
    assert!(!m.file_exists);
}

#[test]
fn cleanup_failure_is_contained_and_keeps_the_primary_outcome() {
    let mut m = SessionMachine::new();
    m.observe(StageEvent::SecretFetched { secret: secret_of_len(32) });
    m.observe(StageEvent::DirectoryCreated);
    m.observe(StageEvent::FileCreated);
    m.observe(StageEvent::KeyWritten);
    m.observe(StageEvent::FileRestricted);
    m.observe(StageEvent::ChildCompleted { result: Ok(ExitStatusKind::Exited { code: 3 }) });
    m.observe(StageEvent::FileRemoveFailed);
    m.observe(StageEvent::DirectoryRemoveFailed);
    assert!(m.is_done());
    assert!(m.cleanup_incomplete);
    // The removal failures did not replace the child's outcome.
    assert_eq!(m.outcome, Some(Ok(ExitStatusKind::Exited { code: 3 })));
}

#[test]
fn connect_by_alias_end_to_end() {
    // The alias resolves to a secret-store reference.
    let mut config = Config::new();
    add_config(
        &mut config,
        SetConfigSection::Alias {
            kind: AliasKind::SecretsManager {
                name: "prod-key".to_string(),
                secret_arn: "arn:store:prod".to_string(),
            },
        },
    )
    .unwrap();
    let target = resolve_alias(&config, &"prod-key".to_string()).unwrap();
    match &target.alias {
        KeyAliasConfig::SecretsManager { secret_arn } => {
            assert_eq!(secret_arn, &"arn:store:prod".to_string());
        }
    }

    // The fetch returns 32 bytes; staging succeeds; the child exits 0.
    let mut m = SessionMachine::new();
    m.observe(StageEvent::SecretFetched { secret: secret_of_len(32) });
    m.observe(StageEvent::DirectoryCreated);
    m.observe(StageEvent::FileCreated);
    assert_eq!(m.secret_bytes().len(), 32);
    m.observe(StageEvent::KeyWritten);
    m.observe(StageEvent::FileRestricted);
    m.observe(StageEvent::ChildCompleted { result: Ok(ExitStatusKind::Exited { code: 0 }) });
    m.observe(StageEvent::FileRemoved);
    m.observe(StageEvent::DirectoryRemoved);
    assert!(m.is_done());

    // The orchestrator reports exit code 0 and the staging directory no
    // longer exists.
    match m.outcome {
        Some(Ok(status)) => assert_eq!(process_exit_code(&status), 0),
        other => panic!("unexpected outcome: {:?}", other),
    }
    assert!(!m.dir_exists);
}
