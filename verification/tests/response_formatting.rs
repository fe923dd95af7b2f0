use ht_mcp::format::{
    format_close_session_response, format_create_session_response,
    format_execute_command_response, format_list_sessions_response, format_resize_response,
    format_send_keys_response, format_snapshot_response, format_tool_response, ToolResponse,
};
use ht_mcp::session::SessionInfo;
use ht_mcp::types::{CreateSessionResult, SnapshotResult};

fn session_entry(id: &str, is_alive: bool, created_at: u64) -> SessionInfo {
    SessionInfo {
        id: id.to_string(),
        internal_id: "internal".to_string(),
        created_at,
        web_server_url: None,
        is_alive,
        command: vec!["bash".to_string()],
    }
}

#[test]
fn test_create_session_response_format() {
    let mock_response = CreateSessionResult {
        session_id: "test-session-123".to_string(),
        message: "HT session created successfully".to_string(),
        web_server_enabled: true,
        web_server_url: Some("http://127.0.0.1:3618".to_string()),
    };

    let formatted = format_create_session_response(&mock_response);

    assert!(formatted.contains("HT session created successfully!"));
    assert!(formatted.contains("Session ID: test-session-123"));
    assert!(formatted.contains("🌐 Web server enabled!"));
    assert!(formatted.contains("http://127.0.0.1:3618"));
}

#[test]
fn test_create_session_response_no_web_server() {
    let mock_response = CreateSessionResult {
        session_id: "test-session-456".to_string(),
        message: "HT session created successfully".to_string(),
        web_server_enabled: false,
        web_server_url: None,
    };

    let formatted = format_create_session_response(&mock_response);

    assert!(formatted.contains("HT session created successfully!"));
    assert!(formatted.contains("Session ID: test-session-456"));
    assert!(!formatted.contains("🌐"));
    assert!(!formatted.contains("Web server"));
}

#[test]
fn test_snapshot_response_format() {
    let mock_response = SnapshotResult {
        session_id: "snap-session-789".to_string(),
        snapshot: "bash-3.2$ echo hello\nhello\nbash-3.2$ ".to_string(),
    };

    let formatted = format_snapshot_response(&mock_response);

    assert!(formatted.contains("Terminal Snapshot (Session: snap-session-789)"));
    assert!(formatted.contains("```"));
    assert!(formatted.contains("bash-3.2$ echo hello"));
    assert!(formatted.contains("hello"));
}

#[test]
fn test_send_keys_response_format() {
    let keys = vec!["echo test".to_string(), "Enter".to_string()];

    let formatted = format_send_keys_response("keys-session-abc", &keys);

    assert!(formatted.contains("Keys sent successfully to session keys-session-abc"));
    assert!(formatted.contains("Keys: [\"echo test\",\"Enter\"]"));
}

#[test]
fn test_execute_command_response_format() {
    let output = "total 16\ndrwxr-xr-x  3 user  staff   96 Jun 13 10:00 .\ndrwxr-xr-x  4 user  staff  128 Jun 13 09:00 ..";

    let formatted = format_execute_command_response("ls -la", output);

    assert!(formatted.contains("Command executed: ls -la"));
    assert!(formatted.contains("Terminal Output:"));
    assert!(formatted.contains("```"));
    assert!(formatted.contains("total 16"));
    assert!(formatted.contains("drwxr-xr-x"));
}

#[test]
fn test_list_sessions_response_format() {
    let sessions = vec![
        session_entry("session-1", true, 1234567890),
        session_entry("session-2", false, 1234567891),
    ];

    let formatted = format_list_sessions_response(&sessions);

    assert!(formatted.contains("Active HT Sessions (2)"));
    assert!(formatted.contains("- session-1 (alive) - Created: 1234567890"));
    assert!(formatted.contains("- session-2 (dead) - Created: 1234567891"));
}

#[test]
fn test_list_sessions_empty_response_format() {
    let sessions: Vec<SessionInfo> = vec![];

    let formatted = format_list_sessions_response(&sessions);

    assert!(formatted.contains("Active HT Sessions (0)"));
    assert!(formatted.contains("No active sessions"));
}

#[test]
fn test_close_session_response_format() {
    let formatted = format_close_session_response("close-session-ghi");

    assert!(formatted.contains("Session close-session-ghi closed successfully."));
}

#[test]
fn test_resize_response_format() {
    let formatted = format_resize_response("resize-session-123", 120, 40);

    assert!(formatted.contains("Terminal resized successfully!"));
    assert!(formatted.contains("Session: resize-session-123"));
    assert!(formatted.contains("New size: 120x40 (columns x rows)"));
}

#[test]
fn test_resize_response_format_edge_cases() {
    // Minimum size
    let min_formatted = format_resize_response("min-session", 1, 1);
    assert!(min_formatted.contains("Terminal resized successfully!"));
    assert!(min_formatted.contains("1x1"));

    // Maximum size
    let max_formatted = format_resize_response("max-session", 1000, 1000);
    assert!(max_formatted.contains("Terminal resized successfully!"));
    assert!(max_formatted.contains("1000x1000"));

    // Unknown session id
    let unknown_formatted = format_resize_response("unknown", 80, 24);
    assert!(unknown_formatted.contains("Session: unknown"));
    assert!(unknown_formatted.contains("80x24"));
}

#[test]
fn test_tool_response_dispatch() {
    let create = ToolResponse::CreateSession(CreateSessionResult {
        session_id: "abc".to_string(),
        message: "HT session created successfully".to_string(),
        web_server_enabled: false,
        web_server_url: None,
    });
    assert!(format_tool_response(&create).contains("Session ID: abc"));

    let send = ToolResponse::SendKeys("abc".to_string(), vec!["hi".to_string()]);
    assert!(format_tool_response(&send).contains("Keys sent successfully to session abc"));

    let snap = ToolResponse::TakeSnapshot(SnapshotResult {
        session_id: "abc".to_string(),
        snapshot: "prompt$".to_string(),
    });
    assert!(format_tool_response(&snap).contains("Terminal Snapshot (Session: abc)"));

    let exec = ToolResponse::ExecuteCommand("whoami".to_string(), "user".to_string());
    assert!(format_tool_response(&exec).contains("Command executed: whoami"));

    let list = ToolResponse::ListSessions(vec![session_entry("abc", true, 7)]);
    assert!(format_tool_response(&list).contains("Active HT Sessions (1)"));

    let close = ToolResponse::CloseSession("abc".to_string());
    assert_eq!(
        format_tool_response(&close),
        "Session abc closed successfully."
    );
}

#[test]
fn test_send_keys_json_escaping() {
    // The JSON encoding escapes quotes rather than echoing the input back
    let keys = vec!["say \"hi\"".to_string()];
    let formatted = format_send_keys_response("s", &keys);
    assert!(formatted.contains("Keys: [\"say \\\"hi\\\"\"]"));
}
