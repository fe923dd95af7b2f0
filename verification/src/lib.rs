//! Verified core of a headless-terminal session server.
//!
//! The library covers the session-orchestration logic: classifying and
//! encoding caller-supplied key strings into terminal byte sequences,
//! tracking session records in a registry, the per-session actor state
//! machine, preview-port probing decisions, and the human-readable
//! formatting of operation results. I/O (PTY processes, channels, HTTP)
//! lives outside the library and hands it plain values.

pub mod actor;
pub mod error;
pub mod format;
pub mod keys;
pub mod laws;
pub mod ports;
pub mod server;
pub mod session;
pub mod text;
pub mod types;

use vstd::prelude::*;

verus! {

/// Number of columns a new session's terminal starts with.
pub const DEFAULT_COLS: u16 = 120;

/// Number of rows a new session's terminal starts with.
pub const DEFAULT_ROWS: u16 = 40;

/// The default terminal size for newly created sessions.
pub fn default_size() -> (r: (u16, u16))
    ensures
        r.0 == DEFAULT_COLS,
        r.1 == DEFAULT_ROWS,
{
    (DEFAULT_COLS, DEFAULT_ROWS)
}

} // verus!
