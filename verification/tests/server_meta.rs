use ht_mcp::actor::{ActorAction, ActorEvent, ActorState, SessionActor};
use ht_mcp::error::HtMcpError;
use ht_mcp::keys::smart_parse_key;
use ht_mcp::server::{
    execute_plan, tool_kind, EventHandler, HtMcpServer, McpHandlers, StdioTransport, ToolKind,
    EXECUTE_SETTLE_MS, SNAPSHOT_TIMEOUT_SECS,
};
use ht_mcp::session::SessionCommand;
use ht_mcp::text::u64_to_string;
use ht_mcp::types::ExecuteCommandArgs;

#[test]
fn test_server_info_structure() {
    // The ServerInfo structure has all required fields
    let server = HtMcpServer::new();
    let info = server.server_info();

    assert_eq!(info.name, "ht-mcp");
    assert_eq!(info.title, "Headless Terminal MCP Server");
    assert_eq!(info.version, "0.1.0");
}

#[test]
fn test_server_port_config() {
    let server = HtMcpServer::new_with_port_config(Some(4500));
    assert_eq!(server.session_manager.port_base, 4500);

    let default_server = HtMcpServer::new_with_port_config(None);
    assert_eq!(default_server.session_manager.port_base, 3618);
}

#[test]
fn test_tool_kind_mapping() {
    assert_eq!(tool_kind("ht_create_session"), Some(ToolKind::CreateSession));
    assert_eq!(tool_kind("ht_send_keys"), Some(ToolKind::SendKeys));
    assert_eq!(tool_kind("ht_take_snapshot"), Some(ToolKind::TakeSnapshot));
    assert_eq!(tool_kind("ht_execute_command"), Some(ToolKind::ExecuteCommand));
    assert_eq!(tool_kind("ht_list_sessions"), Some(ToolKind::ListSessions));
    assert_eq!(tool_kind("ht_close_session"), Some(ToolKind::CloseSession));
    assert_eq!(tool_kind("ht_resize"), None);
    assert_eq!(tool_kind(""), None);
}

#[test]
fn test_execute_plan_composition() {
    let args = ExecuteCommandArgs {
        session_id: "sid".to_string(),
        command: "echo hello".to_string(),
    };
    let (send_command, send_enter, snapshot) = execute_plan(&args);
    assert_eq!(send_command.session_id, "sid");
    assert_eq!(send_command.keys, vec!["echo hello".to_string()]);
    assert_eq!(send_enter.session_id, "sid");
    assert_eq!(send_enter.keys, vec!["Enter".to_string()]);
    assert_eq!(snapshot.session_id, "sid");
    assert_eq!(EXECUTE_SETTLE_MS, 1000);
    assert_eq!(SNAPSHOT_TIMEOUT_SECS, 5);
}

#[test]
fn test_error_messages() {
    assert_eq!(
        HtMcpError::SessionNotFound("abc".to_string()).message(),
        "Session not found: abc"
    );
    assert_eq!(
        HtMcpError::InvalidRequest("bad".to_string()).message(),
        "Invalid request: bad"
    );
    assert_eq!(HtMcpError::Internal("x".to_string()).message(), "Internal error: x");
    assert_eq!(HtMcpError::Timeout("t".to_string()).message(), "Timeout: t");
    assert_eq!(
        HtMcpError::Serialization("s".to_string()).message(),
        "Serialization error: s"
    );
}

#[test]
fn test_u64_rendering() {
    assert_eq!(u64_to_string(0), "0");
    assert_eq!(u64_to_string(7), "7");
    assert_eq!(u64_to_string(3618), "3618");
    assert_eq!(u64_to_string(1234567890), "1234567890");
    assert_eq!(u64_to_string(u64::MAX), "18446744073709551615");
}

#[test]
fn test_auxiliary_constructors() {
    let _handlers = McpHandlers::new();
    assert_eq!(McpHandlers::new().protocol_version(), "2024-11-05");
    let _transport = StdioTransport::new();
    let _events = EventHandler::new();
}

#[test]
fn test_actor_lifecycle() {
    let mut actor = SessionActor::new();
    assert_eq!(actor.state(), ActorState::Running);

    // Output is ingested while running
    match actor.on_event(ActorEvent::Output("prompt$ ".to_string()), false) {
        ActorAction::Ingest(s) => assert_eq!(s, "prompt$ "),
        other => panic!("expected Ingest, got {:?}", other),
    }

    // Input writes resolved bytes: a command plus Enter
    let seqs = vec![smart_parse_key("echo hello"), smart_parse_key("Enter")];
    match actor.on_event(ActorEvent::Command(SessionCommand::Input(seqs)), false) {
        ActorAction::WriteInput(s) => assert_eq!(s.as_bytes(), b"echo hello\x0d"),
        other => panic!("expected WriteInput, got {:?}", other),
    }

    // Snapshot requests are answered from already-ingested state
    match actor.on_event(ActorEvent::Command(SessionCommand::Snapshot), false) {
        ActorAction::ReplySnapshot => {}
        other => panic!("expected ReplySnapshot, got {:?}", other),
    }

    // Resize is forwarded
    match actor.on_event(ActorEvent::Command(SessionCommand::Resize(120, 40)), false) {
        ActorAction::ResizeEngine(c, r) => {
            assert_eq!(c, 120);
            assert_eq!(r, 40);
        }
        other => panic!("expected ResizeEngine, got {:?}", other),
    }

    // Viewer hand-off happens only while running
    match actor.on_event(ActorEvent::ViewerJoined, false) {
        ActorAction::AcceptViewer => {}
        other => panic!("expected AcceptViewer, got {:?}", other),
    }
    actor.on_event(ActorEvent::ViewersClosed, false);
    assert_eq!(actor.state(), ActorState::Draining);
    match actor.on_event(ActorEvent::ViewerJoined, false) {
        ActorAction::Ignore => {}
        other => panic!("expected Ignore, got {:?}", other),
    }

    // End of output terminates and releases the process
    match actor.on_event(ActorEvent::OutputClosed, false) {
        ActorAction::KillProcess => {}
        other => panic!("expected KillProcess, got {:?}", other),
    }
    assert_eq!(actor.state(), ActorState::Terminated);

    // A terminated actor services nothing
    match actor.on_event(ActorEvent::Output("late".to_string()), false) {
        ActorAction::Ignore => {}
        other => panic!("expected Ignore, got {:?}", other),
    }
}

#[test]
fn test_actor_close_terminates() {
    let mut actor = SessionActor::new();
    match actor.on_event(ActorEvent::CommandClosed, true) {
        ActorAction::KillProcess => {}
        other => panic!("expected KillProcess, got {:?}", other),
    }
    assert_eq!(actor.state(), ActorState::Terminated);
}

#[test]
fn test_actor_cursor_mode_resolution() {
    let mut actor = SessionActor::new();
    let seqs = vec![smart_parse_key("Up")];
    match actor.on_event(ActorEvent::Command(SessionCommand::Input(seqs)), true) {
        ActorAction::WriteInput(s) => assert_eq!(s.as_bytes(), b"\x1bOA"),
        other => panic!("expected WriteInput, got {:?}", other),
    }
    let seqs_normal = vec![smart_parse_key("Up")];
    match actor.on_event(ActorEvent::Command(SessionCommand::Input(seqs_normal)), false) {
        ActorAction::WriteInput(s) => assert_eq!(s.as_bytes(), b"\x1b[A"),
        other => panic!("expected WriteInput, got {:?}", other),
    }
}
