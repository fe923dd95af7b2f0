//! The caller-facing server: its identity, the mapping from tool names to
//! operations, and the execute-command composition. The wire envelope
//! (JSON-RPC framing and method dispatch) is handled by the adapter around
//! the core.

use vstd::prelude::*;
use crate::ports::PORT_RANGE_START;
use crate::session::SessionManager;
use crate::text::{chars_of, eq_lit};
use crate::types::{ExecuteCommandArgs, SendKeysArgs, ServerInfo, TakeSnapshotArgs};
use vstd::string::*;

verus! {

/// How long `execute_command` lets the shell settle before the snapshot,
/// in milliseconds.
pub const EXECUTE_SETTLE_MS: u64 = 1000;

/// The bounded wait for a snapshot reply, in seconds.
pub const SNAPSHOT_TIMEOUT_SECS: u64 = 5;

/// The operations a tool name can denote.
#[derive(Debug, Clone, Copy, PartialEq, Eq, Structural)]
pub enum ToolKind {
    CreateSession,
    SendKeys,
    TakeSnapshot,
    ExecuteCommand,
    ListSessions,
    CloseSession,
}

/// The operation each tool name denotes; unknown names denote none.
pub open spec fn spec_tool_kind(s: Seq<char>) -> Option<ToolKind> {
    if s == "ht_create_session"@ {
        Some(ToolKind::CreateSession)
    } else if s == "ht_send_keys"@ {
        Some(ToolKind::SendKeys)
    } else if s == "ht_take_snapshot"@ {
        Some(ToolKind::TakeSnapshot)
    } else if s == "ht_execute_command"@ {
        Some(ToolKind::ExecuteCommand)
    } else if s == "ht_list_sessions"@ {
        Some(ToolKind::ListSessions)
    } else if s == "ht_close_session"@ {
        Some(ToolKind::CloseSession)
    } else {
        None
    }
}

/// Resolve a tool name to its operation.
pub fn tool_kind(name: &str) -> (r: Option<ToolKind>)
    ensures
        r == spec_tool_kind(name@),
{
    let v = chars_of(name);
    if eq_lit(&v, "ht_create_session") {
        Some(ToolKind::CreateSession)
    } else if eq_lit(&v, "ht_send_keys") {
        Some(ToolKind::SendKeys)
    } else if eq_lit(&v, "ht_take_snapshot") {
        Some(ToolKind::TakeSnapshot)
    } else if eq_lit(&v, "ht_execute_command") {
        Some(ToolKind::ExecuteCommand)
    } else if eq_lit(&v, "ht_list_sessions") {
        Some(ToolKind::ListSessions)
    } else if eq_lit(&v, "ht_close_session") {
        Some(ToolKind::CloseSession)
    } else {
        None
    }
}

/// The plan of the execute-command composition: send the command, send
/// Enter, let the shell settle for `EXECUTE_SETTLE_MS`, then snapshot. The
/// composition is not atomic; concurrent callers on one session may
/// interleave.
pub fn execute_plan(args: &ExecuteCommandArgs) -> (r: (
    SendKeysArgs,
    SendKeysArgs,
    TakeSnapshotArgs,
))
    ensures
        r.0.session_id@ == args.session_id@,
        r.0.keys@.len() == 1 && r.0.keys@[0]@ == args.command@,
        r.1.session_id@ == args.session_id@,
        r.1.keys@.len() == 1 && r.1.keys@[0]@ == "Enter"@,
        r.2.session_id@ == args.session_id@,
{
    let mut first_keys: Vec<String> = Vec::new();
    first_keys.push(args.command.clone());
    let mut enter_keys: Vec<String> = Vec::new();
    enter_keys.push(String::from_str("Enter"));
    (
        SendKeysArgs { session_id: args.session_id.clone(), keys: first_keys },
        SendKeysArgs { session_id: args.session_id.clone(), keys: enter_keys },
        TakeSnapshotArgs { session_id: args.session_id.clone() },
    )
}

/// The server: the session registry behind one serialized-access surface,
/// plus the server's identity.
#[derive(Debug)]
pub struct HtMcpServer {
    pub session_manager: SessionManager,
    pub server_info: ServerInfo,
}

impl HtMcpServer {
    pub fn new() -> (r: Self)
        ensures
            r.session_manager.sessions@.len() == 0,
            r.session_manager.wf(),
            r.session_manager.port_base == PORT_RANGE_START,
            r.server_info.name@ == "ht-mcp"@,
            r.server_info.title@ == "Headless Terminal MCP Server"@,
            r.server_info.version@ == "0.1.0"@,
    {
        HtMcpServer { session_manager: SessionManager::new(), server_info: ServerInfo::new() }
    }

    /// A server whose preview-port probe starts at the given port.
    pub fn new_with_port_config(web_port_config: Option<u16>) -> (r: Self)
        ensures
            r.session_manager.sessions@.len() == 0,
            r.session_manager.wf(),
            web_port_config matches Some(p) ==> r.session_manager.port_base == p,
            web_port_config is None ==> r.session_manager.port_base == PORT_RANGE_START,
            r.server_info.name@ == "ht-mcp"@,
            r.server_info.title@ == "Headless Terminal MCP Server"@,
            r.server_info.version@ == "0.1.0"@,
    {
        HtMcpServer {
            session_manager: SessionManager::new_with_port_config(web_port_config),
            server_info: ServerInfo::new(),
        }
    }

    pub fn server_info(&self) -> (r: &ServerInfo)
        ensures
            r.name@ == self.server_info.name@,
            r.title@ == self.server_info.title@,
            r.version@ == self.server_info.version@,
    {
        &self.server_info
    }
}

/// Handlers for the protocol's initialization exchange; the envelope itself
/// is the adapter's concern.
pub struct McpHandlers;

impl McpHandlers {
    pub fn new() -> (r: Self)
        ensures
            r == (McpHandlers {  }),
    {
        McpHandlers {  }
    }

    /// The protocol revision this server speaks.
    pub fn protocol_version(&self) -> (r: &'static str)
        ensures
            r@ == "2024-11-05"@,
    {
        "2024-11-05"
    }
}

/// Marker for the standard-I/O transport; the byte shoveling lives in the
/// adapter.
pub struct StdioTransport;

impl StdioTransport {
    pub fn new() -> (r: Self)
        ensures
            r == (StdioTransport {  }),
    {
        StdioTransport {  }
    }
}

/// Hook for engine-event handling; the adapter routes events to it.
pub struct EventHandler;

impl EventHandler {
    pub fn new() -> (r: Self)
        ensures
            r == (EventHandler {  }),
    {
        EventHandler {  }
    }
}

} // verus!
