use vibe_agent::api::{
    CreateServerRequest, ExecutorStatus, ListServersResponse, Server, ServerStatus, SshAuthType,
    SshConfig, UpdateServerRequest,
};
use vibe_agent::crypto::{hash_agent_token, hash_token};
use vibe_agent::docker::generate_docker_command;
use vibe_agent::handlers::{
    handler_start, handler_step, HandlerAction, HandlerEvent, HandlerRequest, HandlerState,
};
use vibe_agent::http::{cors_allowed_origins, request_span_level, response_log_level, LogLevel};
use vibe_agent::registry::{AgentConnectionManager, RegistryError};
use vibe_agent::repo::{
    create_server_failure, delete_outcome, merge_server_update, new_server_row, require_found,
    IdentityError,
};
use vibe_agent::routes::{
    admin_check_failure, center_ws_url, create_server_failure_response, ensure_same_organization,
    membership_check_failure, server_detail_failure, server_lookup_failure,
    validate_create_request, validate_server_name, validate_update_request,
};
use vibe_agent::session::{
    classify_agent_message, decide_register_frame, initial_session_state, session_step,
    AgentMessageKind, FrameKind, LookupOutcome, RegisterFrame, RegisterOutcome,
    RegisterWaitDecision, SessionAction, SessionError, SessionEvent, SessionState,
};

const SEC: i128 = 1_000_000_000;

#[test]
fn registry_register_get_remove() {
    let mut m = AgentConnectionManager::new(90);
    assert_eq!(m.active_connections_count(), 0);
    m.register_connection(7, 70, 5 * SEC);
    m.register_connection(8, 80, 6 * SEC);
    assert_eq!(m.active_connections_count(), 2);
    let c = m.get_connection(7).unwrap();
    assert_eq!((c.server_id, c.agent_id, c.connected_at_ns, c.last_heartbeat_at_ns), (7, 70, 5 * SEC, 5 * SEC));
    m.register_connection(7, 71, 9 * SEC);
    assert_eq!(m.active_connections_count(), 2);
    assert_eq!(m.get_connection(7).unwrap().agent_id, 71);
    m.remove_connection(7);
    assert!(m.get_connection(7).is_none());
    assert_eq!(m.active_connections_count(), 1);
    m.remove_connection(7);
    assert_eq!(m.active_connections_count(), 1);
}

#[test]
fn registry_heartbeat_updates_known_servers_only() {
    let mut m = AgentConnectionManager::new(90);
    m.register_connection(1, 10, 0);
    assert_eq!(m.update_heartbeat(1, 50 * SEC), Ok(()));
    let c = m.get_connection(1).unwrap();
    assert_eq!(c.last_heartbeat_at_ns, 50 * SEC);
    assert_eq!(c.connected_at_ns, 0);
    assert_eq!(m.update_heartbeat(2, 50 * SEC), Err(RegistryError::UnknownServer));
    assert_eq!(m.active_connections_count(), 1);
}

#[test]
fn registry_prunes_only_stale_connections() {
    let mut m = AgentConnectionManager::new(90);
    m.register_connection(1, 10, 0);
    m.register_connection(2, 20, 10 * SEC);
    m.register_connection(3, 30, 100 * SEC);
    // At 100 s: server 1 is 100 s old (stale), server 2 exactly 90 s (kept).
    let mut removed = m.prune_stale(100 * SEC);
    removed.sort();
    assert_eq!(removed, vec![1]);
    assert!(m.get_connection(1).is_none());
    assert!(m.get_connection(2).is_some());
    assert!(m.get_connection(3).is_some());
    let removed = m.prune_stale(100 * SEC + 1);
    assert_eq!(removed, vec![2]);
}

#[test]
fn sweep_prunes_only_when_servers_went_offline() {
    let mut m = AgentConnectionManager::new(90);
    m.register_connection(1, 10, 0);
    assert!(m.after_offline_sweep(0, 1000 * SEC).is_empty());
    assert_eq!(m.active_connections_count(), 1);
    assert_eq!(m.after_offline_sweep(3, 1000 * SEC), vec![1]);
    assert_eq!(m.active_connections_count(), 0);
}

const KEY: &str = "test-key";

#[test]
fn session_happy_path() {
    let s = initial_session_state();
    let (s, a) = session_step(
        KEY,
        s,
        SessionEvent::Register(RegisterOutcome::Received { agent_token: "vk_agent_x".to_string() }),
    );
    assert_eq!(s, SessionState::AwaitingLookup);
    match a {
        SessionAction::LookupToken { token_hash } => {
            assert_eq!(token_hash, hash_agent_token(KEY, "vk_agent_x"));
            assert_ne!(token_hash, hash_token("vk_agent_x"));
        }
        _ => panic!("expected a token lookup"),
    }
    let (s, a) = session_step(KEY, s, SessionEvent::TokenLookup(LookupOutcome::Found { server_id: 42 }));
    let agent_id = match a {
        SessionAction::RegisterAgent { server_id: 42, agent_id, status: ServerStatus::Online } => agent_id,
        _ => panic!("expected the agent to be registered"),
    };
    assert_eq!((agent_id >> 76) & 0xf, 4);
    assert_eq!((agent_id >> 62) & 3, 2);
    assert_eq!(s, SessionState::Registering { server_id: 42, agent_id });
    let (s, a) = session_step(KEY, s, SessionEvent::AgentRegistered);
    match a {
        SessionAction::SendAck { server_id, agent_id: ack_id, heartbeat_interval_ms, pending_configs } => {
            assert_eq!((server_id, ack_id, heartbeat_interval_ms), (42, agent_id, 30000));
            assert!(pending_configs.is_empty());
        }
        _ => panic!("expected the acknowledgement"),
    }
    let (s, a) = session_step(KEY, s, SessionEvent::AckSent { ok: true });
    assert_eq!(s, SessionState::Tracking { server_id: 42, agent_id });
    assert!(matches!(a, SessionAction::TrackConnection { server_id: 42, agent_id: id } if id == agent_id));
    let (s, a) = session_step(KEY, s, SessionEvent::ConnectionTracked);
    assert_eq!(s, SessionState::Active { server_id: 42, agent_id });
    assert!(matches!(a, SessionAction::ReceiveFrame));
    let (s, a) = session_step(KEY, s, SessionEvent::Frame(FrameKind::Text));
    assert!(matches!(a, SessionAction::HandleText { server_id: 42 }));
    let (s, a) = session_step(KEY, s, SessionEvent::MessageHandled { heartbeat: true });
    assert!(matches!(a, SessionAction::RefreshConnection { server_id: 42 }));
    let (s, a) = session_step(KEY, s, SessionEvent::ConnectionRefreshed);
    assert!(matches!(a, SessionAction::ReceiveFrame));
    let (s, a) = session_step(KEY, s, SessionEvent::Frame(FrameKind::Text));
    assert!(matches!(a, SessionAction::HandleText { server_id: 42 }));
    let (s, a) = session_step(KEY, s, SessionEvent::MessageHandled { heartbeat: false });
    assert!(matches!(a, SessionAction::ReceiveFrame));
    let (s, a) = session_step(KEY, s, SessionEvent::Frame(FrameKind::Ping));
    assert!(matches!(a, SessionAction::SendPong));
    let (s, a) = session_step(KEY, s, SessionEvent::PongSent { ok: true });
    assert!(matches!(a, SessionAction::ReceiveFrame));
    let (s, a) = session_step(KEY, s, SessionEvent::Frame(FrameKind::Close));
    assert_eq!(s, SessionState::Untracking { server_id: 42 });
    assert!(matches!(a, SessionAction::UntrackConnection { server_id: 42 }));
    let (s, a) = session_step(KEY, s, SessionEvent::ConnectionUntracked);
    assert_eq!(s, SessionState::Closing { server_id: 42 });
    assert!(matches!(a, SessionAction::MarkOffline { server_id: 42, status: ServerStatus::Offline }));
    let (s, a) = session_step(KEY, s, SessionEvent::OfflineMarked);
    assert_eq!(s, SessionState::Closed);
    assert!(matches!(a, SessionAction::Close));
}

#[test]
fn issued_token_is_accepted_at_registration() {
    let request = HandlerRequest::Create(request("web-1", "10.0.0.1"));
    let (st, _) = handler_start();
    let (st, action) = handler_step(&request, 5, KEY, "wss://c/ws", st, HandlerEvent::AdminChecked(Ok(())));
    let stored = match action {
        HandlerAction::InsertServer { token_hash } => token_hash,
        _ => panic!("expected an insert"),
    };
    let (_, action) = handler_step(&request, 5, KEY, "wss://c/ws", st, HandlerEvent::Written(Ok(())));
    let token = match action {
        HandlerAction::RespondToken { agent_token, docker_command, analytics_event } => {
            assert_eq!(docker_command, generate_docker_command("wss://c/ws", &agent_token));
            assert_eq!(analytics_event, "server_created");
            agent_token
        }
        _ => panic!("expected the token"),
    };
    assert!(token.starts_with("vk_agent_"));
    assert_eq!(token.len(), 52);
    let (_, a) = session_step(
        KEY,
        initial_session_state(),
        SessionEvent::Register(RegisterOutcome::Received { agent_token: token }),
    );
    assert!(matches!(a, SessionAction::LookupToken { token_hash } if token_hash == stored));
}

#[test]
fn create_refusals_write_nothing() {
    let (st, _) = handler_start();
    let good = HandlerRequest::Create(request("web-1", "h"));
    let (st, a) = handler_step(
        &good,
        5,
        KEY,
        "u",
        st,
        HandlerEvent::AdminChecked(Err(IdentityError::PermissionDenied)),
    );
    assert!(matches!(st, HandlerState::Done));
    assert!(matches!(a, HandlerAction::RespondError(e) if e.status == 403 && e.message == "Admin access required"));
    let (_, a) = handler_step(&good, 5, KEY, "u", st, HandlerEvent::Written(Ok(())));
    assert!(matches!(a, HandlerAction::Ignore));

    let (st, _) = handler_start();
    let bad = HandlerRequest::Create(request("  ", "h"));
    let (st, a) = handler_step(&bad, 5, KEY, "u", st, HandlerEvent::AdminChecked(Ok(())));
    assert!(matches!(st, HandlerState::Done));
    assert!(matches!(a, HandlerAction::RespondError(e) if e.status == 400));
    let (st, _) = handler_start();
    let blank_host = HandlerRequest::Create(request("web", " "));
    let (_, a) = handler_step(&blank_host, 5, KEY, "u", st, HandlerEvent::AdminChecked(Ok(())));
    assert!(matches!(a, HandlerAction::RespondError(e) if e.message == "Server host is required"));

    let (st, _) = handler_start();
    let (st, _) = handler_step(&good, 5, KEY, "u", st, HandlerEvent::AdminChecked(Ok(())));
    let conflict = IdentityError::OrganizationConflict("taken".to_string());
    let (_, a) = handler_step(&good, 5, KEY, "u", st, HandlerEvent::Written(Err(conflict)));
    assert!(matches!(a, HandlerAction::RespondError(e) if e.status == 409 && e.message == "taken"));
}

#[test]
fn regenerate_update_delete_check_in_order() {
    // Regeneration: admin first, then the lookup, then the new hash.
    let (st, _) = handler_start();
    let r = HandlerRequest::RegenerateToken;
    let (st, a) = handler_step(&r, 5, KEY, "u", st, HandlerEvent::AdminChecked(Ok(())));
    assert!(matches!(a, HandlerAction::LookUpServer));
    let (st2, a) = handler_step(&r, 5, KEY, "u", st, HandlerEvent::ServerFound(Ok(6)));
    assert!(matches!(st2, HandlerState::Done));
    assert!(matches!(a, HandlerAction::RespondError(e) if e.status == 404 && e.message == "Server not found"));
    let (st, _) = handler_start();
    let (st, _) = handler_step(&r, 5, KEY, "u", st, HandlerEvent::AdminChecked(Ok(())));
    let (st, a) = handler_step(&r, 5, KEY, "u", st, HandlerEvent::ServerFound(Ok(5)));
    let hash = match a {
        HandlerAction::StoreTokenHash { token_hash } => token_hash,
        _ => panic!("expected the new hash"),
    };
    match &st {
        HandlerState::Writing { agent_token } => assert_eq!(hash, hash_agent_token(KEY, agent_token)),
        _ => panic!("expected to be writing"),
    }
    let (_, a) = handler_step(&r, 5, KEY, "u", st, HandlerEvent::Written(Err(IdentityError::Database("x".to_string()))));
    assert!(matches!(a, HandlerAction::RespondError(e) if e.status == 500 && e.message == "Failed to regenerate token"));

    // Update: the name is checked before the lookup.
    let (st, _) = handler_start();
    let mut upd = UpdateServerRequest { name: Some(" ".to_string()), description: None, host: None, port: None, tags: None, ssh_config: None };
    let u = HandlerRequest::Update(upd.clone());
    let (_, a) = handler_step(&u, 5, KEY, "u", st, HandlerEvent::AdminChecked(Ok(())));
    assert!(matches!(a, HandlerAction::RespondError(e) if e.status == 400));
    upd.name = Some("ok".to_string());
    let u = HandlerRequest::Update(upd);
    let (st, _) = handler_start();
    let (st, a) = handler_step(&u, 5, KEY, "u", st, HandlerEvent::AdminChecked(Ok(())));
    assert!(matches!(a, HandlerAction::LookUpServer));
    let (st, a) = handler_step(&u, 5, KEY, "u", st, HandlerEvent::ServerFound(Ok(5)));
    assert!(matches!(a, HandlerAction::UpdateServer));
    let (_, a) = handler_step(&u, 5, KEY, "u", st, HandlerEvent::Written(Ok(())));
    assert!(matches!(a, HandlerAction::RespondDone { analytics_event: None }));

    // Delete: another organization's server is not found, and not deleted.
    let d = HandlerRequest::Delete;
    let (st, _) = handler_start();
    let (st, _) = handler_step(&d, 5, KEY, "u", st, HandlerEvent::AdminChecked(Ok(())));
    let (_, a) = handler_step(&d, 5, KEY, "u", st, HandlerEvent::ServerFound(Ok(9)));
    assert!(matches!(a, HandlerAction::RespondError(e) if e.status == 404));
    let (st, _) = handler_start();
    let (st, _) = handler_step(&d, 5, KEY, "u", st, HandlerEvent::AdminChecked(Ok(())));
    let (_, a) = handler_step(&d, 5, KEY, "u", st, HandlerEvent::ServerFound(Err(IdentityError::NotFound)));
    assert!(matches!(a, HandlerAction::RespondError(e) if e.status == 404 && e.message == "Server not found"));
    let (st, _) = handler_start();
    let (st, _) = handler_step(&d, 5, KEY, "u", st, HandlerEvent::AdminChecked(Ok(())));
    let (st, a) = handler_step(&d, 5, KEY, "u", st, HandlerEvent::ServerFound(Ok(5)));
    assert!(matches!(a, HandlerAction::DeleteServer));
    let (_, a) = handler_step(&d, 5, KEY, "u", st, HandlerEvent::Written(Ok(())));
    assert!(matches!(a, HandlerAction::RespondDone { analytics_event: Some(e) } if e == "server_deleted"));
}

fn expect_error(action: SessionAction, code: &str, message: &str) {
    match action {
        SessionAction::SendErrorAndClose(e) => {
            assert_eq!(e.code(), code);
            assert_eq!(e.message(), message);
        }
        _ => panic!("expected an error"),
    }
}

#[test]
fn session_rejections() {
    let (s, a) = session_step(
        KEY,
        initial_session_state(),
        SessionEvent::Register(RegisterOutcome::TimedOut),
    );
    assert_eq!(s, SessionState::Closed);
    expect_error(a, "timeout", "Register timeout");
    let (_, a) = session_step(
        KEY,
        initial_session_state(),
        SessionEvent::Register(RegisterOutcome::Failed { reason: "bad json".to_string() }),
    );
    expect_error(a, "register_failed", "bad json");
    let (_, a) = session_step(KEY, SessionState::AwaitingLookup, SessionEvent::TokenLookup(LookupOutcome::NotFound));
    expect_error(a, "invalid_token", "Invalid agent token");
    let (_, a) = session_step(
        KEY,
        SessionState::AwaitingLookup,
        SessionEvent::TokenLookup(LookupOutcome::DatabaseError),
    );
    expect_error(a, "database_error", "Database error");
    let (s, a) = session_step(
        KEY,
        SessionState::SendingAck { server_id: 1, agent_id: 2 },
        SessionEvent::AckSent { ok: false },
    );
    assert_eq!(s, SessionState::Closed);
    assert!(matches!(a, SessionAction::Close));
    let (s, a) = session_step(KEY, SessionState::Closed, SessionEvent::OfflineMarked);
    assert_eq!(s, SessionState::Closed);
    assert!(matches!(a, SessionAction::Ignore));
    let (s, a) = session_step(
        KEY,
        SessionState::SendingPong { server_id: 3, agent_id: 4 },
        SessionEvent::PongSent { ok: false },
    );
    assert_eq!(s, SessionState::Untracking { server_id: 3 });
    assert!(matches!(a, SessionAction::UntrackConnection { server_id: 3 }));
    let _ = SessionError::Timeout;
}

#[test]
fn agent_messages_are_classified() {
    assert_eq!(classify_agent_message("heartbeat"), AgentMessageKind::Heartbeat);
    assert_eq!(classify_agent_message("execution_status"), AgentMessageKind::ExecutionStatus);
    assert_eq!(classify_agent_message("tool_use"), AgentMessageKind::ToolUse);
    assert_eq!(classify_agent_message("skill_invoke"), AgentMessageKind::SkillInvoke);
    assert_eq!(classify_agent_message("log_stream"), AgentMessageKind::LogStream);
    assert_eq!(classify_agent_message("approval_request"), AgentMessageKind::ApprovalRequest);
    assert_eq!(classify_agent_message("config_ack"), AgentMessageKind::ConfigAck);
    assert_eq!(classify_agent_message("heartbeats"), AgentMessageKind::Unknown);
}

#[test]
fn register_wait_decisions() {
    let text = |t: Option<&str>, ok: bool| RegisterFrame::Text {
        msg_type: t.map(|s| s.to_string()),
        payload_ok: ok,
    };
    assert_eq!(decide_register_frame(&text(Some("agent_register"), true)), RegisterWaitDecision::Registered);
    assert_eq!(decide_register_frame(&text(Some("agent_register"), false)), RegisterWaitDecision::Failed);
    assert_eq!(decide_register_frame(&text(Some("heartbeat"), true)), RegisterWaitDecision::KeepWaiting);
    assert_eq!(decide_register_frame(&text(None, false)), RegisterWaitDecision::Failed);
    assert_eq!(decide_register_frame(&RegisterFrame::Ping), RegisterWaitDecision::KeepWaiting);
    assert_eq!(decide_register_frame(&RegisterFrame::Other), RegisterWaitDecision::KeepWaiting);
    assert_eq!(decide_register_frame(&RegisterFrame::ReceiveError), RegisterWaitDecision::Failed);
    assert_eq!(decide_register_frame(&RegisterFrame::Ended), RegisterWaitDecision::Failed);
}

#[test]
fn statuses_round_trip() {
    for s in [ServerStatus::Pending, ServerStatus::Online, ServerStatus::Offline, ServerStatus::Error] {
        assert_eq!(ServerStatus::parse(s.as_str()), Some(s));
    }
    for s in [ExecutorStatus::Unknown, ExecutorStatus::Available, ExecutorStatus::Busy, ExecutorStatus::Error] {
        assert_eq!(ExecutorStatus::parse(s.as_str()), Some(s));
    }
    assert_eq!(ServerStatus::Online.as_str(), "online");
    assert_eq!(ServerStatus::parse("Online"), None);
    assert_eq!(ServerStatus::default(), ServerStatus::Pending);
    assert_eq!(ExecutorStatus::default(), ExecutorStatus::Unknown);
    assert_eq!(SshAuthType::Password.to_display_string(), "password");
    assert_eq!(SshAuthType::Key.as_str(), "key");
    assert_eq!(SshAuthType::parse("key"), Some(SshAuthType::Key));
}

fn request(name: &str, host: &str) -> CreateServerRequest {
    CreateServerRequest {
        name: name.to_string(),
        description: None,
        host: host.to_string(),
        port: None,
        tags: None,
        ssh_config: None,
    }
}

fn server(org: u128) -> Server {
    Server {
        id: 5,
        organization_id: org,
        name: "old".to_string(),
        description: Some("desc".to_string()),
        host: "10.0.0.1".to_string(),
        port: 9999,
        status: ServerStatus::Pending,
        agent_id: None,
        agent_version: None,
        last_heartbeat_at_us: None,
        connection_error: None,
        system_info: None,
        system_stats: None,
        ssh_enabled: false,
        ssh_host: None,
        ssh_port: None,
        ssh_username: None,
        tags: vec!["a".to_string()],
        created_at_us: 0,
        updated_at_us: 0,
    }
}

#[test]
fn new_row_defaults() {
    let row = new_server_row(3, &request("srv", "h"), "hash");
    assert_eq!(row.organization_id, 3);
    assert_eq!(row.port, 9999);
    assert!(row.tags.is_empty());
    assert!(!row.ssh_enabled);
    assert_eq!(row.ssh_auth_type, None);
    assert_eq!(row.agent_token_hash, "hash");
    let mut req = request("srv", "h");
    req.port = Some(22);
    req.tags = Some(vec!["gpu".to_string()]);
    req.ssh_config = Some(SshConfig {
        enabled: true,
        host: Some("bastion".to_string()),
        port: Some(2222),
        username: Some("root".to_string()),
        auth_type: SshAuthType::Key,
        credentials: Some("secret".to_string()),
    });
    let row = new_server_row(3, &req, "hash");
    assert_eq!(row.port, 22);
    assert_eq!(row.tags, vec!["gpu".to_string()]);
    assert!(row.ssh_enabled);
    assert_eq!(row.ssh_host.as_deref(), Some("bastion"));
    assert_eq!(row.ssh_port, Some(2222));
    assert_eq!(row.ssh_username.as_deref(), Some("root"));
    assert_eq!(row.ssh_auth_type.as_deref(), Some("key"));
}

#[test]
fn update_merges_with_stored_server() {
    let existing = server(1);
    let empty = UpdateServerRequest {
        name: None,
        description: None,
        host: None,
        port: None,
        tags: None,
        ssh_config: None,
    };
    let u = merge_server_update(&existing, &empty);
    assert_eq!((u.name.as_str(), u.description.as_deref(), u.host.as_str(), u.port), ("old", Some("desc"), "10.0.0.1", 9999));
    assert_eq!(u.tags, vec!["a".to_string()]);
    let change = UpdateServerRequest {
        name: Some("new".to_string()),
        description: Some("d2".to_string()),
        host: None,
        port: Some(1),
        tags: Some(vec![]),
        ssh_config: None,
    };
    let u = merge_server_update(&existing, &change);
    assert_eq!((u.name.as_str(), u.description.as_deref(), u.host.as_str(), u.port), ("new", Some("d2"), "10.0.0.1", 1));
    assert!(u.tags.is_empty());
}

#[test]
fn repository_outcomes() {
    assert!(matches!(delete_outcome(0), Err(IdentityError::NotFound)));
    assert!(delete_outcome(1).is_ok());
    assert!(matches!(require_found(None), Err(IdentityError::NotFound)));
    assert_eq!(require_found(Some(server(1))).unwrap().id, 5);
    match create_server_failure(true, "dup".to_string()) {
        IdentityError::OrganizationConflict(m) => {
            assert_eq!(m, "A server with this name already exists in this organization")
        }
        _ => panic!("expected a conflict"),
    }
    assert!(matches!(create_server_failure(false, "io".to_string()), IdentityError::Database(d) if d == "io"));
}

#[test]
fn server_name_validation() {
    assert!(validate_server_name("web-1").is_ok());
    assert!(validate_server_name("  web  ").is_ok());
    let e = validate_server_name("   ").unwrap_err();
    assert_eq!((e.status, e.message.as_str()), (400, "Server name must be between 1 and 255 characters"));
    assert!(validate_server_name(&"x".repeat(255)).is_ok());
    assert!(validate_server_name(&"x".repeat(256)).is_err());
    // The limit counts characters, not bytes.
    assert!(validate_server_name(&"é".repeat(255)).is_ok());
    assert!(validate_server_name(&"é".repeat(256)).is_err());
}

#[test]
fn create_and_update_validation() {
    assert!(validate_create_request(&request("a", "h")).is_ok());
    let e = validate_create_request(&request("a", "  ")).unwrap_err();
    assert_eq!((e.status, e.message.as_str()), (400, "Server host is required"));
    let e = validate_create_request(&request("", "")).unwrap_err();
    assert_eq!(e.message, "Server name must be between 1 and 255 characters");
    let mut upd = UpdateServerRequest {
        name: None,
        description: None,
        host: None,
        port: None,
        tags: None,
        ssh_config: None,
    };
    assert!(validate_update_request(&upd).is_ok());
    upd.name = Some(" ".to_string());
    assert_eq!(validate_update_request(&upd).unwrap_err().status, 400);
}

#[test]
fn error_mapping() {
    let nf = IdentityError::NotFound;
    let pd = IdentityError::PermissionDenied;
    let db = IdentityError::Database("x".to_string());
    let cf = IdentityError::OrganizationConflict("taken".to_string());
    let r = admin_check_failure(&nf);
    assert_eq!((r.status, r.message.as_str()), (404, "Organization not found"));
    let r = admin_check_failure(&pd);
    assert_eq!((r.status, r.message.as_str()), (403, "Admin access required"));
    let r = admin_check_failure(&db);
    assert_eq!((r.status, r.message.as_str()), (500, "Database error"));
    let r = membership_check_failure(&pd);
    assert_eq!((r.status, r.message.as_str()), (403, "Access denied"));
    let r = membership_check_failure(&nf);
    assert_eq!(r.status, 404);
    let r = server_lookup_failure(&nf);
    assert_eq!((r.status, r.message.as_str()), (404, "Server not found"));
    let r = server_lookup_failure(&db);
    assert_eq!((r.status, r.message.as_str()), (500, "Database error"));
    let r = server_detail_failure(&db);
    assert_eq!((r.status, r.message.as_str()), (500, "Failed to get server"));
    let r = create_server_failure_response(&cf);
    assert_eq!((r.status, r.message.as_str()), (409, "taken"));
    let r = create_server_failure_response(&db);
    assert_eq!((r.status, r.message.as_str()), (500, "Failed to create server"));
    assert!(ensure_same_organization(1, 1).is_ok());
    let e = ensure_same_organization(1, 2).unwrap_err();
    assert_eq!((e.status, e.message.as_str()), (404, "Server not found"));
}

#[test]
fn center_url_default() {
    assert_eq!(center_ws_url(None), "wss://your-center.com/v1/agent/ws");
    assert_eq!(center_ws_url(Some("wss://c/ws".to_string())), "wss://c/ws");
}

#[test]
fn list_total_counts_servers() {
    let r = ListServersResponse::new(vec![]);
    assert_eq!(r.total, 0);
}

#[test]
fn http_levels() {
    assert_eq!(response_log_level(503), LogLevel::Error);
    assert_eq!(response_log_level(500), LogLevel::Error);
    assert_eq!(response_log_level(404), LogLevel::Warn);
    assert_eq!(response_log_level(399), LogLevel::Debug);
    assert_eq!(response_log_level(200), LogLevel::Debug);
    assert_eq!(request_span_level("/health"), LogLevel::Trace);
    assert_eq!(request_span_level("/v1/health"), LogLevel::Debug);
}

#[test]
fn cors_origins() {
    assert_eq!(
        cors_allowed_origins(None),
        vec![
            "http://localhost:3000",
            "http://localhost:5173",
            "http://127.0.0.1:3000",
            "http://127.0.0.1:5173"
        ]
    );
    assert_eq!(
        cors_allowed_origins(Some("https://app.example.com, http://localhost:3000")),
        vec!["https://app.example.com", "http://localhost:3000"]
    );
    assert_eq!(cors_allowed_origins(Some("a,,b")), vec!["a", "", "b"]);
    assert_eq!(cors_allowed_origins(Some("ok,bad\u{1}x")), vec!["ok"]);
    assert_eq!(cors_allowed_origins(Some("")), vec![""]);
}
