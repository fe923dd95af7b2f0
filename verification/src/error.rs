//! Error kinds surfaced by the session-orchestration core.

use vstd::prelude::*;
use vstd::string::*;

verus! {

/// The failures an operation can report to its caller.
#[derive(Debug, Clone, PartialEq, Eq)]
pub enum HtMcpError {
    /// No session with the given id exists in the registry.
    SessionNotFound(String),
    /// The caller's arguments were malformed.
    InvalidRequest(String),
    /// A process could not be started, a dead actor was addressed, or no
    /// preview port was available; carries the underlying cause.
    Internal(String),
    /// A snapshot reply did not arrive within the caller's wait.
    Timeout(String),
    /// A boundary encoding failure, reported by the adapter around the core.
    Serialization(String),
}

impl HtMcpError {
    /// A human-readable description of the error, with its context.
    pub fn message(&self) -> (r: String)
        ensures
            r@ == self.spec_message(),
    {
        match self {
            HtMcpError::SessionNotFound(s) => {
                let mut m = String::from_str("Session not found: ");
                m.append(s.as_str());
                m
            },
            HtMcpError::InvalidRequest(s) => {
                let mut m = String::from_str("Invalid request: ");
                m.append(s.as_str());
                m
            },
            HtMcpError::Internal(s) => {
                let mut m = String::from_str("Internal error: ");
                m.append(s.as_str());
                m
            },
            HtMcpError::Timeout(s) => {
                let mut m = String::from_str("Timeout: ");
                m.append(s.as_str());
                m
            },
            HtMcpError::Serialization(s) => {
                let mut m = String::from_str("Serialization error: ");
                m.append(s.as_str());
                m
            },
        }
    }

    /// What `message` returns, over the view of the carried context.
    pub open spec fn spec_message(&self) -> Seq<char> {
        match self {
            HtMcpError::SessionNotFound(s) => "Session not found: "@ + s@,
            HtMcpError::InvalidRequest(s) => "Invalid request: "@ + s@,
            HtMcpError::Internal(s) => "Internal error: "@ + s@,
            HtMcpError::Timeout(s) => "Timeout: "@ + s@,
            HtMcpError::Serialization(s) => "Serialization error: "@ + s@,
        }
    }
}

} // verus!
