use ht_mcp::error::HtMcpError;
use ht_mcp::keys::KeySequence;
use ht_mcp::ports::{probe_step, preview_url, ProbeOutcome, PORT_RANGE_END, PORT_RANGE_START};
use ht_mcp::session::{snapshot_reply, SessionInfo, SessionManager};
use ht_mcp::types::{
    CloseSessionArgs, CreateSessionArgs, SendKeysArgs, TakeSnapshotArgs,
};

fn create_default(manager: &mut SessionManager) -> String {
    let args = CreateSessionArgs { command: None, enable_web_server: None };
    let result = manager.create_session(args, 1234567890, None).unwrap();
    result.session_id
}

#[test]
fn test_create_then_list_roundtrip() {
    let mut manager = SessionManager::new();
    assert_eq!(manager.list_sessions().len(), 0);

    let id = create_default(&mut manager);
    assert_eq!(id.len(), 36);

    let listed = manager.list_sessions();
    assert_eq!(listed.len(), 1);
    assert_eq!(listed[0].id, id);
    assert!(listed[0].is_alive);
    assert_eq!(listed[0].created_at, 1234567890);
    assert_eq!(listed[0].command, vec!["bash".to_string()]);
    assert_eq!(listed[0].web_server_url, None);

    let close = manager.close_session(&CloseSessionArgs { session_id: id.clone() });
    assert!(close.is_ok());
    assert_eq!(manager.list_sessions().len(), 0);
}

#[test]
fn test_close_session_idempotence() {
    let mut manager = SessionManager::new();
    let id = create_default(&mut manager);

    let first = manager.close_session(&CloseSessionArgs { session_id: id.clone() });
    assert_eq!(first.unwrap(), format!("Session {} closed successfully", id));

    let second = manager.close_session(&CloseSessionArgs { session_id: id.clone() });
    match second {
        Err(HtMcpError::SessionNotFound(s)) => assert_eq!(s, id),
        other => panic!("expected SessionNotFound, got {:?}", other),
    }
}

#[test]
fn test_create_session_with_preview() {
    let mut manager = SessionManager::new();
    let args = CreateSessionArgs {
        command: Some(vec!["bash".to_string()]),
        enable_web_server: Some(true),
    };
    let result = manager.create_session(args, 7, Some(3618)).unwrap();
    assert!(result.web_server_enabled);
    let url = result.web_server_url.unwrap();
    assert_eq!(url, "http://127.0.0.1:3618");
    assert!(url.starts_with("http://127.0.0.1:"));

    // The record carries the same preview URL
    let listed = manager.list_sessions();
    assert_eq!(listed[0].web_server_url.as_deref(), Some("http://127.0.0.1:3618"));
}

#[test]
fn test_create_session_port_exhaustion() {
    let mut manager = SessionManager::new();
    let args = CreateSessionArgs {
        command: None,
        enable_web_server: Some(true),
    };
    match manager.create_session(args, 7, None) {
        Err(HtMcpError::Internal(msg)) => assert_eq!(msg, "No available ports found"),
        other => panic!("expected Internal, got {:?}", other),
    }
}

#[test]
fn test_send_keys_translates_for_known_session() {
    let mut manager = SessionManager::new();
    let id = create_default(&mut manager);

    let args = SendKeysArgs {
        session_id: id,
        keys: vec!["echo hello".to_string(), "Enter".to_string()],
    };
    let seqs = manager.send_keys(&args).unwrap();
    assert_eq!(seqs.len(), 2);
    assert_eq!(seqs[0], KeySequence::Standard("echo hello".to_string()));
    assert_eq!(seqs[1], KeySequence::Standard("\u{d}".to_string()));
}

#[test]
fn test_send_keys_unknown_session() {
    let manager = SessionManager::new();
    let args = SendKeysArgs {
        session_id: "missing".to_string(),
        keys: vec!["test".to_string()],
    };
    match manager.send_keys(&args) {
        Err(HtMcpError::SessionNotFound(s)) => assert_eq!(s, "missing"),
        other => panic!("expected SessionNotFound, got {:?}", other),
    }
}

#[test]
fn test_snapshot_unknown_session_is_not_found_not_timeout() {
    // An unknown id is reported as SessionNotFound no matter what the
    // reply slot would have said, never as a timeout.
    let manager = SessionManager::new();
    let args = TakeSnapshotArgs { session_id: "invalid-session-id".to_string() };
    let found = manager.snapshot_target_exists(&args);
    assert!(!found);
    match snapshot_reply(&args.session_id, found, None) {
        Err(HtMcpError::SessionNotFound(s)) => assert_eq!(s, "invalid-session-id"),
        other => panic!("expected SessionNotFound, got {:?}", other),
    }
}

#[test]
fn test_snapshot_reply_outcomes() {
    let ok = snapshot_reply("sid", true, Some("rendered text".to_string())).unwrap();
    assert_eq!(ok.session_id, "sid");
    assert_eq!(ok.snapshot, "rendered text");

    match snapshot_reply("sid", true, None) {
        Err(HtMcpError::Timeout(msg)) => assert_eq!(msg, "Snapshot request timed out"),
        other => panic!("expected Timeout, got {:?}", other),
    }
}

#[test]
fn test_mark_dead_keeps_record_listed() {
    let mut manager = SessionManager::new();
    let id = create_default(&mut manager);

    assert!(manager.mark_dead(&id));
    let listed = manager.list_sessions();
    assert_eq!(listed.len(), 1);
    assert!(!listed[0].is_alive);

    assert!(!manager.mark_dead("missing"));
}

#[test]
fn test_two_sessions_are_independent() {
    let mut manager = SessionManager::new();
    let first = create_default(&mut manager);
    let second = create_default(&mut manager);
    assert_ne!(first, second);
    assert_eq!(manager.list_sessions().len(), 2);

    manager.close_session(&CloseSessionArgs { session_id: first }).unwrap();
    let listed = manager.list_sessions();
    assert_eq!(listed.len(), 1);
    assert_eq!(listed[0].id, second);
}

#[test]
fn test_insert_session_rejects_duplicate_id() {
    fn record(id: &str) -> SessionInfo {
        SessionInfo {
            id: id.to_string(),
            internal_id: "internal".to_string(),
            created_at: 1,
            web_server_url: None,
            is_alive: true,
            command: vec!["bash".to_string()],
        }
    }
    let mut manager = SessionManager::new();
    assert!(manager.insert_session(record("dup")).is_ok());
    match manager.insert_session(record("dup")) {
        Err(HtMcpError::Internal(m)) => assert_eq!(m, "session id already registered"),
        other => panic!("expected Internal, got {:?}", other),
    }
    assert_eq!(manager.list_sessions().len(), 1);
}

#[test]
fn test_port_probe_steps() {
    assert_eq!(probe_step(PORT_RANGE_START, true), ProbeOutcome::Use(PORT_RANGE_START));
    assert_eq!(
        probe_step(PORT_RANGE_START, false),
        ProbeOutcome::Next(PORT_RANGE_START + 1)
    );
    assert_eq!(probe_step(PORT_RANGE_END - 1, false), ProbeOutcome::Exhausted);
    assert_eq!(probe_step(PORT_RANGE_END - 1, true), ProbeOutcome::Use(PORT_RANGE_END - 1));
}

#[test]
fn test_preview_url_format() {
    assert_eq!(preview_url(3618), "http://127.0.0.1:3618");
    assert_eq!(preview_url(3998), "http://127.0.0.1:3998");
}
