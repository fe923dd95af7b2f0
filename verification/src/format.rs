//! Human-readable rendering of operation results: the text the caller sees
//! for each tool call.

use vstd::prelude::*;
use vstd::string::*;
use crate::session::SessionInfo;
use crate::text::dec_str;
use crate::text::u64_to_string;
use crate::types::{CreateSessionResult, SnapshotResult};

verus! {

/// The view of an optional string.
pub open spec fn opt_view(o: Option<String>) -> Option<Seq<char>> {
    match o {
        Some(u) => Some(u@),
        None => None,
    }
}

// ---------------------------------------------------------------------------
// Create session
// ---------------------------------------------------------------------------

pub open spec fn spec_create_session_text(
    id: Seq<char>,
    enabled: bool,
    url: Option<Seq<char>>,
) -> Seq<char> {
    "HT session created successfully!\n\nSession ID: "@ + id
        + "\n\nYou can now use this session ID with other HT tools to send commands and take snapshots."@
        + (if enabled {
        match url {
            Some(u) => "\n\n🌐 Web server enabled! View live terminal at: "@ + u,
            None => "\n\n🌐 Web server enabled! Check console for URL."@,
        }
    } else {
        Seq::empty()
    })
}

pub fn format_create_session_response(result: &CreateSessionResult) -> (r: String)
    ensures
        r@ == spec_create_session_text(
            result.session_id@,
            result.web_server_enabled,
            opt_view(result.web_server_url),
        ),
{
    let mut s = String::from_str("HT session created successfully!\n\nSession ID: ");
    s.append(result.session_id.as_str());
    s.append(
        "\n\nYou can now use this session ID with other HT tools to send commands and take snapshots.",
    );
    if result.web_server_enabled {
        match &result.web_server_url {
            Some(u) => {
                s.append("\n\n🌐 Web server enabled! View live terminal at: ");
                s.append(u.as_str());
            },
            None => {
                s.append("\n\n🌐 Web server enabled! Check console for URL.");
            },
        }
    }
    s
}

// ---------------------------------------------------------------------------
// Send keys
// ---------------------------------------------------------------------------

/// The JSON array text that encodes a list of strings.
pub uninterp spec fn json_string_array(keys: Seq<Seq<char>>) -> Seq<char>;

/// Relies on `serde_json::to_string` on a `Vec<String>`: the JSON array text
/// of the strings, a function of the strings alone. Encoding a vector of
/// strings cannot fail.
#[verifier::external_body]
fn json_of_keys(keys: &Vec<String>) -> (r: String)
    ensures
        r@ == json_string_array(keys.deep_view()),
{
    serde_json::to_string(keys).unwrap_or_else(|_| String::from("[]"))
}

pub open spec fn spec_send_keys_text(id: Seq<char>, keys: Seq<Seq<char>>) -> Seq<char> {
    "Keys sent successfully to session "@ + id + "\n\nKeys: "@ + json_string_array(keys)
}

pub fn format_send_keys_response(session_id: &str, keys: &Vec<String>) -> (r: String)
    ensures
        r@ == spec_send_keys_text(session_id@, keys.deep_view()),
{
    let mut s = String::from_str("Keys sent successfully to session ");
    s.append(session_id);
    s.append("\n\nKeys: ");
    let encoded = json_of_keys(keys);
    s.append(encoded.as_str());
    s
}

// ---------------------------------------------------------------------------
// Snapshot
// ---------------------------------------------------------------------------

pub open spec fn spec_snapshot_text(id: Seq<char>, snapshot: Seq<char>) -> Seq<char> {
    "Terminal Snapshot (Session: "@ + id + ")\n\n```\n"@ + snapshot + "\n```"@
}

pub fn format_snapshot_response(result: &SnapshotResult) -> (r: String)
    ensures
        r@ == spec_snapshot_text(result.session_id@, result.snapshot@),
{
    let mut s = String::from_str("Terminal Snapshot (Session: ");
    s.append(result.session_id.as_str());
    s.append(")\n\n```\n");
    s.append(result.snapshot.as_str());
    s.append("\n```");
    s
}

// ---------------------------------------------------------------------------
// Execute command
// ---------------------------------------------------------------------------

pub open spec fn spec_execute_command_text(command: Seq<char>, output: Seq<char>) -> Seq<char> {
    "Command executed: "@ + command + "\n\nTerminal Output:\n```\n"@ + output + "\n```"@
}

pub fn format_execute_command_response(command: &str, output: &str) -> (r: String)
    ensures
        r@ == spec_execute_command_text(command@, output@),
{
    let mut s = String::from_str("Command executed: ");
    s.append(command);
    s.append("\n\nTerminal Output:\n```\n");
    s.append(output);
    s.append("\n```");
    s
}

// ---------------------------------------------------------------------------
// List sessions
// ---------------------------------------------------------------------------

pub open spec fn spec_session_line(s: SessionInfo) -> Seq<char> {
    "- "@ + s.id@ + " ("@ + (if s.is_alive {
        "alive"@
    } else {
        "dead"@
    }) + ") - Created: "@ + dec_str(s.created_at as nat)
}

pub open spec fn spec_session_lines(ss: Seq<SessionInfo>) -> Seq<char>
    decreases ss.len(),
{
    if ss.len() == 0 {
        Seq::empty()
    } else if ss.len() == 1 {
        spec_session_line(ss[0])
    } else {
        spec_session_line(ss[0]) + "\n"@ + spec_session_lines(ss.skip(1))
    }
}

pub open spec fn spec_list_sessions_text(ss: Seq<SessionInfo>) -> Seq<char> {
    "Active HT Sessions ("@ + dec_str(ss.len() as nat) + "):\n\n"@ + (if ss.len() == 0 {
        "No active sessions"@
    } else {
        spec_session_lines(ss)
    })
}

fn format_session_line(rec: &SessionInfo) -> (r: String)
    ensures
        r@ == spec_session_line(*rec),
{
    let mut s = String::from_str("- ");
    s.append(rec.id.as_str());
    s.append(" (");
    if rec.is_alive {
        s.append("alive");
    } else {
        s.append("dead");
    }
    s.append(") - Created: ");
    let digits = u64_to_string(rec.created_at);
    s.append(digits.as_str());
    s
}

pub fn format_list_sessions_response(sessions: &Vec<SessionInfo>) -> (r: String)
    ensures
        r@ == spec_list_sessions_text(sessions@),
{
    let mut s = String::from_str("Active HT Sessions (");
    let count = u64_to_string(sessions.len() as u64);
    s.append(count.as_str());
    s.append("):\n\n");
    if sessions.len() == 0 {
        s.append("No active sessions");
        return s;
    }
    let ghost header = s@;
    let mut body = String::new();
    let mut i: usize = 0;
    proof {
        assert(sessions@.skip(0) =~= sessions@);
    }
    while i < sessions.len()
        invariant
            i <= sessions@.len(),
            sessions@.len() > 0,
            s@ == header,
            body@ + spec_session_lines(sessions@.skip(i as int)) == spec_session_lines(sessions@),
            i < sessions@.len() || body@ == spec_session_lines(sessions@),
        decreases sessions@.len() - i,
    {
        proof {
            assert(sessions@.skip(i as int).len() == sessions@.len() - i);
            assert(sessions@.skip(i as int)[0] == sessions@[i as int]);
            assert(sessions@.skip(i as int).skip(1) =~= sessions@.skip(i + 1));
        }
        let line = format_session_line(&sessions[i]);
        body.append(line.as_str());
        if i + 1 < sessions.len() {
            body.append("\n");
        }
        proof {
            if i + 1 == sessions@.len() {
                assert(sessions@.skip(i as int).len() == 1);
            }
            assert(sessions@.skip(i + 1).len() == sessions@.len() - i - 1);
        }
        i = i + 1;
    }
    s.append(body.as_str());
    s
}

// ---------------------------------------------------------------------------
// Close session and resize
// ---------------------------------------------------------------------------

pub open spec fn spec_close_session_text(id: Seq<char>) -> Seq<char> {
    "Session "@ + id + " closed successfully."@
}

pub fn format_close_session_response(session_id: &str) -> (r: String)
    ensures
        r@ == spec_close_session_text(session_id@),
{
    let mut s = String::from_str("Session ");
    s.append(session_id);
    s.append(" closed successfully.");
    s
}

pub open spec fn spec_resize_text(id: Seq<char>, cols: u64, rows: u64) -> Seq<char> {
    "Terminal resized successfully!\n\nSession: "@ + id + "\nNew size: "@ + dec_str(cols as nat)
        + "x"@ + dec_str(rows as nat) + " (columns x rows)"@
}

pub fn format_resize_response(session_id: &str, cols: u64, rows: u64) -> (r: String)
    ensures
        r@ == spec_resize_text(session_id@, cols, rows),
{
    let mut s = String::from_str("Terminal resized successfully!\n\nSession: ");
    s.append(session_id);
    s.append("\nNew size: ");
    let c = u64_to_string(cols);
    s.append(c.as_str());
    s.append("x");
    let r0 = u64_to_string(rows);
    s.append(r0.as_str());
    s.append(" (columns x rows)");
    s
}

// ---------------------------------------------------------------------------
// Dispatch over all tool results
// ---------------------------------------------------------------------------

/// A typed tool result, ready to be rendered for the caller.
#[derive(Debug)]
pub enum ToolResponse {
    CreateSession(CreateSessionResult),
    /// Session id and the keys that were sent.
    SendKeys(String, Vec<String>),
    TakeSnapshot(SnapshotResult),
    /// Command and the terminal output it produced.
    ExecuteCommand(String, String),
    ListSessions(Vec<SessionInfo>),
    /// Session id.
    CloseSession(String),
}

pub open spec fn spec_tool_response_text(resp: ToolResponse) -> Seq<char> {
    match resp {
        ToolResponse::CreateSession(c) => spec_create_session_text(
            c.session_id@,
            c.web_server_enabled,
            opt_view(c.web_server_url),
        ),
        ToolResponse::SendKeys(id, keys) => spec_send_keys_text(id@, keys.deep_view()),
        ToolResponse::TakeSnapshot(snap) => spec_snapshot_text(snap.session_id@, snap.snapshot@),
        ToolResponse::ExecuteCommand(command, output) => spec_execute_command_text(
            command@,
            output@,
        ),
        ToolResponse::ListSessions(ss) => spec_list_sessions_text(ss@),
        ToolResponse::CloseSession(id) => spec_close_session_text(id@),
    }
}

/// Render any tool result as the text the caller sees.
pub fn format_tool_response(resp: &ToolResponse) -> (r: String)
    ensures
        r@ == spec_tool_response_text(*resp),
{
    match resp {
        ToolResponse::CreateSession(c) => format_create_session_response(c),
        ToolResponse::SendKeys(id, keys) => format_send_keys_response(id.as_str(), keys),
        ToolResponse::TakeSnapshot(snap) => format_snapshot_response(snap),
        ToolResponse::ExecuteCommand(command, output) => format_execute_command_response(
            command.as_str(),
            output.as_str(),
        ),
        ToolResponse::ListSessions(ss) => format_list_sessions_response(ss),
        ToolResponse::CloseSession(id) => format_close_session_response(id.as_str()),
    }
}

} // verus!
