use vibe_agent::daemon::{
    classify_center_message, daemon_step, initial_daemon_state, AckOutcome, CenterMessageKind,
    DaemonAction, DaemonError, DaemonEvent, DaemonState,
};
use vibe_agent::executors::{discover_executors, version_command, version_from_output};
use vibe_agent::reconnect::{calculate_jitter, ReconnectConfig, ReconnectState};

#[test]
fn test_discover_executors() {
    // No tool was detected on this machine.
    let executors = discover_executors(None, None, None);
    assert!(executors.len() <= 10);
}

#[test]
fn discovers_all_three_tools_in_order() {
    let executors = discover_executors(
        Some("1.0.0".to_string()),
        Some("0.2".to_string()),
        Some("codex 3".to_string()),
    );
    assert_eq!(executors.len(), 3);
    assert_eq!(executors[0].executor_type, "claude_code");
    assert_eq!(executors[0].version.as_deref(), Some("1.0.0"));
    assert_eq!(
        executors[0].capabilities,
        vec!["session_fork", "setup_helper", "slash_commands"]
    );
    assert_eq!(executors[0].config_path, None);
    assert_eq!(executors[1].executor_type, "gemini_cli");
    assert_eq!(executors[1].capabilities, vec!["session_fork"]);
    assert_eq!(executors[2].executor_type, "codex");
    assert_eq!(executors[2].version.as_deref(), Some("codex 3"));
}

#[test]
fn discovers_only_detected_tools() {
    let executors = discover_executors(None, None, Some("9".to_string()));
    assert_eq!(executors.len(), 1);
    assert_eq!(executors[0].executor_type, "codex");
}

#[test]
fn version_output_is_trimmed() {
    assert_eq!(version_from_output(true, b"  1.2.3\n"), Some("1.2.3".to_string()));
    assert_eq!(version_from_output(true, b"1.0.33\n"), Some("1.0.33".to_string()));
    assert_eq!(version_from_output(true, b""), Some(String::new()));
    assert_eq!(version_from_output(false, b"1.2.3"), None);
    assert_eq!(version_from_output(true, b"v\xff1"), Some("v\u{fffd}1".to_string()));
}

#[test]
fn backoff_doubles_up_to_a_minute() {
    let config = ReconnectConfig::daemon_default();
    let mut state = ReconnectState::new(&config);
    let mut delays = Vec::new();
    for _ in 0..8 {
        let before = state.current_delay_ms;
        let wait_ms = state.after_attempt(&config);
        assert!(wait_ms >= before);
        assert!(wait_ms < before + before / 5 || before / 5 == 0);
        delays.push(before);
    }
    assert_eq!(delays, vec![1000, 2000, 4000, 8000, 16000, 32000, 60000, 60000]);
    assert_eq!(state.retry_count, 8);
}

#[test]
fn every_disconnection_is_followed_by_a_reconnect() {
    let config = ReconnectConfig::daemon_default();
    let mut state = ReconnectState::new(&config);
    let wait_ms = state.after_attempt(&config);
    assert!((1000..1200).contains(&wait_ms));
    assert_eq!(state.retry_count, 1);
    assert_eq!(state.current_delay_ms, 2000);
}

#[test]
fn jitter_stays_within_a_fifth() {
    let config = ReconnectConfig::daemon_default();
    for _ in 0..100 {
        assert!(calculate_jitter(&config, 1000) < 200);
    }
    assert_eq!(calculate_jitter(&config, 4), 0);
}

#[test]
fn center_messages_are_classified() {
    assert_eq!(classify_center_message("task_assign"), CenterMessageKind::TaskAssign);
    assert_eq!(classify_center_message("task_cancel"), CenterMessageKind::TaskCancel);
    assert_eq!(classify_center_message("config_push"), CenterMessageKind::ConfigPush);
    assert_eq!(
        classify_center_message("approval_response"),
        CenterMessageKind::ApprovalResponse
    );
    assert_eq!(classify_center_message("command"), CenterMessageKind::Command);
    assert_eq!(classify_center_message("Command"), CenterMessageKind::Unknown);
}

fn ack(msg_type: &str, payload_ok: bool) -> DaemonEvent {
    DaemonEvent::Ack(AckOutcome::Message { msg_type: msg_type.to_string(), payload_ok })
}

#[test]
fn heartbeats_start_after_the_ack() {
    let s = initial_daemon_state();
    let (s, a) = daemon_step(s, DaemonEvent::HeartbeatDue);
    assert_eq!(s, DaemonState::AwaitingAck);
    assert!(matches!(a, DaemonAction::Ignore));
    let (s, a) = daemon_step(s, ack("agent_register_ack", true));
    assert_eq!(s, DaemonState::Running);
    assert!(matches!(a, DaemonAction::Wait));
    let (s, a) = daemon_step(s, DaemonEvent::HeartbeatDue);
    assert!(matches!(a, DaemonAction::SendHeartbeat));
    let (s, a) = daemon_step(s, DaemonEvent::Ping);
    assert!(matches!(a, DaemonAction::SendPong));
    let (s, a) = daemon_step(s, DaemonEvent::Text { msg_type: Some("task_cancel".to_string()) });
    assert!(matches!(a, DaemonAction::Received(CenterMessageKind::TaskCancel)));
    let (s, a) = daemon_step(s, DaemonEvent::Close);
    assert_eq!(s, DaemonState::Done);
    assert!(matches!(a, DaemonAction::Finish));
}

#[test]
fn wrong_ack_fails_the_connection() {
    let (s, a) = daemon_step(initial_daemon_state(), ack("heartbeat", true));
    assert_eq!(s, DaemonState::Done);
    match a {
        DaemonAction::Fail(DaemonError::UnexpectedAckType { msg_type }) => {
            assert_eq!(msg_type, "heartbeat")
        }
        _ => panic!("expected an unexpected-type failure"),
    }
    let (_, a) = daemon_step(initial_daemon_state(), ack("agent_register_ack", false));
    assert!(matches!(a, DaemonAction::Fail(DaemonError::MalformedAck)));
    let (_, a) = daemon_step(initial_daemon_state(), DaemonEvent::Ack(AckOutcome::TimedOut));
    assert!(matches!(a, DaemonAction::Fail(DaemonError::AckTimeout)));
    let (_, a) = daemon_step(initial_daemon_state(), DaemonEvent::Ack(AckOutcome::Closed));
    assert!(matches!(a, DaemonAction::Fail(DaemonError::ClosedBeforeAck)));
    let (_, a) = daemon_step(initial_daemon_state(), DaemonEvent::Ack(AckOutcome::NonText));
    assert!(matches!(a, DaemonAction::Fail(DaemonError::UnexpectedAckFrame)));
}

#[test]
fn malformed_message_and_errors_end_the_connection() {
    let (s, _) = daemon_step(initial_daemon_state(), ack("agent_register_ack", true));
    let (s2, a) = daemon_step(s, DaemonEvent::Text { msg_type: None });
    assert_eq!(s2, DaemonState::Done);
    assert!(matches!(a, DaemonAction::Fail(DaemonError::MalformedMessage)));
    let (_, a) = daemon_step(s, DaemonEvent::ReceiveFailed);
    assert!(matches!(a, DaemonAction::Fail(DaemonError::ConnectionError)));
    let (_, a) = daemon_step(s, DaemonEvent::SendFailed);
    assert!(matches!(a, DaemonAction::Fail(DaemonError::SendFailed)));
    let (_, a) = daemon_step(s, DaemonEvent::Ended);
    assert!(matches!(a, DaemonAction::Finish));
    let (s3, a) = daemon_step(s, DaemonEvent::Other);
    assert_eq!(s3, DaemonState::Running);
    assert!(matches!(a, DaemonAction::Wait));
    let (s4, a) = daemon_step(DaemonState::Done, DaemonEvent::HeartbeatDue);
    assert_eq!(s4, DaemonState::Done);
    assert!(matches!(a, DaemonAction::Ignore));
}

#[test]
fn version_commands_use_hyphens() {
    assert_eq!(version_command("gemini_cli"), "gemini-cli");
    assert_eq!(version_command("codex"), "codex");
    assert_eq!(version_command("a_b_c"), "a-b-c");
}

#[test]
fn discovery_from_command_outputs() {
    let executors = discover_executors(
        version_from_output(true, b"1.0.33\n"),
        version_from_output(false, b"0.1.0\n"),
        version_from_output(true, b" 0.2.0 \n"),
    );
    assert_eq!(executors.len(), 2);
    assert_eq!(executors[0].executor_type, "claude_code");
    assert_eq!(executors[0].version.as_deref(), Some("1.0.33"));
    assert_eq!(executors[1].executor_type, "codex");
    assert_eq!(executors[1].version.as_deref(), Some("0.2.0"));
    assert_eq!(executors[1].capabilities, vec!["session_fork"]);
}
