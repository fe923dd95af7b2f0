//! Argument and result records for the caller-facing operations, and the
//! server's identity. The adapter around the core decodes the wire envelope
//! into these records and encodes them back.

use vstd::prelude::*;
use vstd::string::*;

verus! {

/// Arguments of the create-session operation.
#[derive(Debug)]
pub struct CreateSessionArgs {
    /// Command line to run; defaults to `bash` when absent.
    pub command: Option<Vec<String>>,
    /// Whether to start a live-preview web server; defaults to false.
    pub enable_web_server: Option<bool>,
}

/// Result of the create-session operation.
#[derive(Debug)]
pub struct CreateSessionResult {
    pub session_id: String,
    pub message: String,
    pub web_server_enabled: bool,
    pub web_server_url: Option<String>,
}

/// Arguments of the send-keys operation.
#[derive(Debug)]
pub struct SendKeysArgs {
    pub session_id: String,
    pub keys: Vec<String>,
}

/// Arguments of the take-snapshot operation.
#[derive(Debug)]
pub struct TakeSnapshotArgs {
    pub session_id: String,
}

/// Result of the take-snapshot operation.
#[derive(Debug)]
pub struct SnapshotResult {
    pub session_id: String,
    pub snapshot: String,
}

/// Arguments of the execute-command operation.
#[derive(Debug)]
pub struct ExecuteCommandArgs {
    pub session_id: String,
    pub command: String,
}

/// Arguments of the close-session operation.
#[derive(Debug)]
pub struct CloseSessionArgs {
    pub session_id: String,
}

/// Arguments of the resize operation.
#[derive(Debug)]
pub struct ResizeArgs {
    pub session_id: String,
    pub cols: usize,
    pub rows: usize,
}

/// The server's identity, as reported during initialization.
#[derive(Debug)]
pub struct ServerInfo {
    pub name: String,
    pub title: String,
    pub version: String,
}

impl ServerInfo {
    /// The fixed identity of this server.
    pub fn new() -> (r: Self)
        ensures
            r.name@ == "ht-mcp"@,
            r.title@ == "Headless Terminal MCP Server"@,
            r.version@ == "0.1.0"@,
    {
        ServerInfo {
            name: String::from_str("ht-mcp"),
            title: String::from_str("Headless Terminal MCP Server"),
            version: String::from_str("0.1.0"),
        }
    }
}

} // verus!
