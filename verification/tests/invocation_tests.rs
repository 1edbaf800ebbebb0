use smssh::errors::{ExitStatusKind, SessionError};
use smssh::invocation::{build_invocation, interactive_program, process_exit_code, termination_signals};

#[test]
fn invocation_orders_key_extras_trailing_destination() {
    let argv = build_invocation(
        &"/run/stage/key".to_string(),
        &vec!["-p".to_string(), "2222".to_string()],
        &vec!["-v".to_string()],
        &Some("user@bastion".to_string()),
    );
    assert_eq!(
        argv,
        vec![
            "-i".to_string(),
            "/run/stage/key".to_string(),
            "-p".to_string(),
            "2222".to_string(),
            "-v".to_string(),
            "user@bastion".to_string(),
        ]
    );
}

#[test]
fn invocation_without_destination_ends_after_arguments() {
    let argv = build_invocation(&"/run/stage/key".to_string(), &vec![], &vec![], &None);
    assert_eq!(argv, vec!["-i".to_string(), "/run/stage/key".to_string()]);
}

#[test]
fn interactive_program_is_the_remote_shell() {
    assert_eq!(interactive_program(), "ssh".to_string());
}

#[test]
fn normal_exit_codes_are_mirrored() {
    assert_eq!(process_exit_code(&ExitStatusKind::Exited { code: 0 }), 0);
    assert_eq!(process_exit_code(&ExitStatusKind::Exited { code: 1 }), 1);
    assert_eq!(process_exit_code(&ExitStatusKind::Exited { code: 255 }), 255);
}

#[test]
fn signal_deaths_map_into_the_reserved_range() {
    assert_eq!(process_exit_code(&ExitStatusKind::Signaled { signal: 15 }), 143);
    assert_eq!(process_exit_code(&ExitStatusKind::Signaled { signal: 9 }), 137);
    assert_eq!(process_exit_code(&ExitStatusKind::Signaled { signal: 2 }), 130);
}

#[test]
fn termination_signals_are_hup_int_quit_term() {
    assert_eq!(termination_signals(), vec![1, 2, 3, 15]);
}

#[test]
fn error_descriptions_name_the_failing_step() {
    assert_eq!(SessionError::AliasNotFound.describe(), "key alias not found".to_string());
    assert_eq!(
        SessionError::DanglingAliasReference.describe(),
        "host references a key alias that no longer exists".to_string()
    );
    assert_eq!(
        SessionError::TerminalHandoffFailed.describe(),
        "handing the terminal to the child failed".to_string()
    );
}
