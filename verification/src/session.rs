//! The session registry: the only caller-facing surface. It tracks one
//! record per live session, creates records with fresh ids, routes operations
//! by id, and removes records on close. The control channels and actors
//! themselves live outside the library; the registry owns the metadata and
//! the decisions.

use vstd::prelude::*;
use vstd::string::*;
use crate::error::HtMcpError;
use crate::keys::{spec_smart_parse_key, smart_parse_key, KeySequence};
use crate::ports::{preview_url, spec_preview_url, PORT_RANGE_END, PORT_RANGE_START};
use crate::text::{chars_of, eq_lit};
use crate::types::{
    CloseSessionArgs, CreateSessionArgs, CreateSessionResult, SendKeysArgs, SnapshotResult,
    TakeSnapshotArgs,
};

verus! {

/// Whether the caller asked for a live-preview server; absent means no.
pub open spec fn spec_enable(args: CreateSessionArgs) -> bool {
    args.enable_web_server matches Some(b) && b
}

/// A control message sent into a session actor's channel. Exactly one is
/// processed per loop iteration, in send order.
#[derive(Debug)]
pub enum SessionCommand {
    /// Encoded keys to write to the process, cursor keys still unresolved.
    Input(Vec<KeySequence>),
    /// Ask for the rendered terminal text; the reply travels through a
    /// single-use response slot owned by the caller.
    Snapshot,
    /// Change the terminal size to (cols, rows).
    Resize(usize, usize),
}

/// The registry's record of one session: its public metadata. The control
/// channel handle that reaches the actor is owned by the adapter around the
/// core, keyed by the same id.
#[derive(Debug)]
pub struct SessionInfo {
    /// Externally visible unique session id.
    pub id: String,
    /// Correlation id for an engine layer that tracks sessions on its own.
    pub internal_id: String,
    /// Creation time, in seconds since the epoch.
    pub created_at: u64,
    /// Preview URL, when a preview server was started for this session.
    pub web_server_url: Option<String>,
    /// Whether the session's process is still running.
    pub is_alive: bool,
    /// The command line the session runs.
    pub command: Vec<String>,
}

/// Field-wise equality of two records, over views.
pub open spec fn sess_eq(a: SessionInfo, b: SessionInfo) -> bool {
    &&& a.id@ == b.id@
    &&& a.internal_id@ == b.internal_id@
    &&& a.created_at == b.created_at
    &&& (match (a.web_server_url, b.web_server_url) {
        (Some(x), Some(y)) => x@ == y@,
        (None, None) => true,
        _ => false,
    })
    &&& a.is_alive == b.is_alive
    &&& a.command@ == b.command@
}

impl Clone for SessionInfo {
    fn clone(&self) -> (r: Self)
        ensures
            sess_eq(r, *self),
    {
        let url: Option<String> = match &self.web_server_url {
            Some(u) => Some(u.clone()),
            None => None,
        };
        let command = self.command.clone();
        proof {
            assert(command@ =~= self.command@);
        }
        SessionInfo {
            id: self.id.clone(),
            internal_id: self.internal_id.clone(),
            created_at: self.created_at,
            web_server_url: url,
            is_alive: self.is_alive,
            command,
        }
    }
}

/// No two records share an id.
pub open spec fn ids_unique(s: Seq<SessionInfo>) -> bool {
    forall|i: int, j: int| 0 <= i < j < s.len() ==> s[i].id@ != s[j].id@
}

/// Some record carries the id.
pub open spec fn seq_contains_id(s: Seq<SessionInfo>, id: Seq<char>) -> bool {
    exists|i: int| 0 <= i < s.len() && #[trigger] s[i].id@ == id
}

/// The registry of live sessions.
#[derive(Debug)]
pub struct SessionManager {
    /// The session records, ids pairwise distinct.
    pub sessions: Vec<SessionInfo>,
    /// First port probed when a preview server is requested.
    pub port_base: u16,
}

/// Relies on `uuid::Uuid::new_v4` and its `Display` form: a random
/// version-4 UUID rendered as the 36-character hyphenated string. The call
/// aborts if the operating system's random source fails; that is
/// environmental, not dependent on any input.
#[verifier::external_body]
fn fresh_uuid() -> (r: String)
    ensures
        r@.len() == 36,
{
    uuid::Uuid::new_v4().to_string()
}

impl SessionManager {
    /// All record ids are pairwise distinct.
    pub open spec fn wf(self) -> bool {
        ids_unique(self.sessions@)
    }

    /// Whether a record with this id is registered.
    pub open spec fn spec_contains(self, id: Seq<char>) -> bool {
        seq_contains_id(self.sessions@, id)
    }

    pub fn new() -> (r: Self)
        ensures
            r.sessions@.len() == 0,
            r.port_base == PORT_RANGE_START,
            r.wf(),
    {
        SessionManager { sessions: Vec::new(), port_base: PORT_RANGE_START }
    }

    /// A registry whose preview-port probe starts at the given port.
    pub fn new_with_port_config(port: Option<u16>) -> (r: Self)
        ensures
            r.sessions@.len() == 0,
            port matches Some(p) ==> r.port_base == p,
            port is None ==> r.port_base == PORT_RANGE_START,
            r.wf(),
    {
        let base: u16 = match port {
            Some(p) => p,
            None => PORT_RANGE_START,
        };
        SessionManager { sessions: Vec::new(), port_base: base }
    }

    /// The index of the record with this id, if any.
    fn find_index(&self, id: &str) -> (r: Option<usize>)
        ensures
            r matches Some(i) ==> i < self.sessions@.len() && self.sessions@[i as int].id@ == id@,
            r is None ==> !self.spec_contains(id@),
    {
        let idv = chars_of(id);
        let mut i: usize = 0;
        while i < self.sessions.len()
            invariant
                idv@ == id@,
                i <= self.sessions@.len(),
                forall|j: int| 0 <= j < i ==> #[trigger] self.sessions@[j].id@ != id@,
            decreases self.sessions@.len() - i,
        {
            if eq_lit(&idv, self.sessions[i].id.as_str()) {
                return Some(i);
            }
            i = i + 1;
        }
        None
    }

    /// Register a record. Succeeds exactly when the id is fresh; a clash
    /// leaves the registry unchanged.
    pub fn insert_session(&mut self, record: SessionInfo) -> (r: Result<(), HtMcpError>)
        requires
            old(self).wf(),
        ensures
            final(self).wf(),
            final(self).port_base == old(self).port_base,
            !old(self).spec_contains(record.id@) ==> r is Ok && final(self).sessions@ == old(
                self,
            ).sessions@.push(record),
            old(self).spec_contains(record.id@) ==> ((r matches Err(e) && e matches
                HtMcpError::Internal(m) && m@ == "session id already registered"@)
                && final(self).sessions@ == old(self).sessions@),
    {
        match self.find_index(record.id.as_str()) {
            Some(_) => Err(
                HtMcpError::Internal(String::from_str("session id already registered")),
            ),
            None => {
                proof {
                    assert forall|i: int, j: int|
                        0 <= i < j < self.sessions@.push(record).len() implies self.sessions@.push(
                        record,
                    )[i].id@ != self.sessions@.push(record)[j].id@ by {
                        if j == self.sessions@.len() as int {
                            assert(self.sessions@[i].id@ != record.id@);
                        }
                    }
                }
                self.sessions.push(record);
                Ok(())
            },
        }
    }

    /// Create a session: generate its ids, apply the command default, attach
    /// the preview URL when a preview port was found, and register the
    /// record. `now` is the creation time in seconds since the epoch;
    /// `preview_port` is the port the caller's probe found — in the probed
    /// range, which starts at `port_base` — or `None` when the probe
    /// exhausted its range or no preview was requested. Success is owed
    /// whenever the port is there if asked for and the drawn id cannot
    /// clash; in particular, creation in an empty registry only fails for
    /// want of a port.
    pub fn create_session(
        &mut self,
        args: CreateSessionArgs,
        now: u64,
        preview_port: Option<u16>,
    ) -> (r: Result<CreateSessionResult, HtMcpError>)
        requires
            old(self).wf(),
            preview_port matches Some(p) ==> old(self).port_base <= p < PORT_RANGE_END,
        ensures
            final(self).wf(),
            final(self).port_base == old(self).port_base,
            spec_enable(args) && preview_port is None ==> r is Err,
            old(self).sessions@.len() == 0 && !(spec_enable(args) && preview_port is None)
                ==> r is Ok,
            r matches Err(e) ==> (e matches HtMcpError::Internal(m) && (if spec_enable(args)
                && preview_port is None {
                m@ == "No available ports found"@
            } else {
                m@ == "session id already registered"@
            })) && final(self).sessions@ == old(self).sessions@,
            r matches Ok(res) ==> {
                &&& final(self).sessions@.len() == old(self).sessions@.len() + 1
                &&& final(self).sessions@.subrange(0, old(self).sessions@.len() as int) == old(
                    self,
                ).sessions@
                &&& {
                    let rec = final(self).sessions@.last();
                    &&& rec.id@ == res.session_id@
                    &&& rec.id@.len() == 36
                    &&& rec.internal_id@.len() == 36
                    &&& rec.created_at == now
                    &&& rec.is_alive
                    &&& !old(self).spec_contains(rec.id@)
                    &&& (args.command matches Some(c) ==> rec.command@ == c@)
                    &&& (args.command is None ==> rec.command@.len() == 1 && rec.command@[0]@
                        == "bash"@)
                    &&& res.web_server_enabled == spec_enable(args)
                    &&& (spec_enable(args) ==> (preview_port matches Some(p) && (
                    res.web_server_url matches Some(u) && u@ == spec_preview_url(p)) && (
                    rec.web_server_url matches Some(w) && w@ == spec_preview_url(p))))
                    &&& (!spec_enable(args) ==> res.web_server_url is None
                        && rec.web_server_url is None)
                    &&& res.message@ == "HT session created successfully"@
                }
            },
    {
        let enable: bool = match args.enable_web_server {
            Some(b) => b,
            None => false,
        };
        if enable && preview_port.is_none() {
            return Err(HtMcpError::Internal(String::from_str("No available ports found")));
        }
        let session_id = fresh_uuid();
        let internal_id = fresh_uuid();
        let command: Vec<String> = match args.command {
            Some(c) => c,
            None => {
                let mut v: Vec<String> = Vec::new();
                v.push(String::from_str("bash"));
                v
            },
        };
        let record_url: Option<String> = if enable {
            match preview_port {
                Some(p) => Some(preview_url(p)),
                None => None,
            }
        } else {
            None
        };
        let result_url: Option<String> = if enable {
            match preview_port {
                Some(p) => Some(preview_url(p)),
                None => None,
            }
        } else {
            None
        };
        let record = SessionInfo {
            id: session_id.clone(),
            internal_id,
            created_at: now,
            web_server_url: record_url,
            is_alive: true,
            command,
        };
        match self.insert_session(record) {
            Ok(_) => Ok(
                CreateSessionResult {
                    session_id,
                    message: String::from_str("HT session created successfully"),
                    web_server_enabled: enable,
                    web_server_url: result_url,
                },
            ),
            Err(e) => Err(e),
        }
    }

    /// Translate the keys for a registered session. The adapter then sends
    /// the sequences into the session's control channel as one `Input`.
    pub fn send_keys(&self, args: &SendKeysArgs) -> (r: Result<Vec<KeySequence>, HtMcpError>)
        ensures
            self.spec_contains(args.session_id@) ==> (r matches Ok(v) && v@.len()
                == args.keys@.len() && forall|i: int|
                0 <= i < args.keys@.len() ==> #[trigger] v@[i]@ == spec_smart_parse_key(
                    args.keys@[i]@,
                )),
            !self.spec_contains(args.session_id@) ==> (r matches Err(e) && e matches
                HtMcpError::SessionNotFound(s) && s@ == args.session_id@),
    {
        match self.find_index(args.session_id.as_str()) {
            None => Err(HtMcpError::SessionNotFound(args.session_id.clone())),
            Some(i) => {
                proof {
                    assert(self.spec_contains(args.session_id@));
                }
                let mut out: Vec<KeySequence> = Vec::new();
                let mut k: usize = 0;
                while k < args.keys.len()
                    invariant
                        k <= args.keys@.len(),
                        out@.len() == k,
                        forall|j: int|
                            0 <= j < k ==> #[trigger] out@[j]@ == spec_smart_parse_key(
                                args.keys@[j]@,
                            ),
                    decreases args.keys@.len() - k,
                {
                    out.push(smart_parse_key(args.keys[k].as_str()));
                    k = k + 1;
                }
                Ok(out)
            },
        }
    }

    /// Whether a snapshot request for this id can be routed to an actor.
    pub fn snapshot_target_exists(&self, args: &TakeSnapshotArgs) -> (r: bool)
        ensures
            r == self.spec_contains(args.session_id@),
    {
        match self.find_index(args.session_id.as_str()) {
            Some(i) => {
                proof {
                    assert(self.spec_contains(args.session_id@));
                }
                true
            },
            None => false,
        }
    }

    /// Remove the record and report the close. Succeeds exactly when the id
    /// is registered; once removed, the id is gone, so a second close of the
    /// same id reports `SessionNotFound`.
    pub fn close_session(&mut self, args: &CloseSessionArgs) -> (r: Result<String, HtMcpError>)
        requires
            old(self).wf(),
        ensures
            final(self).wf(),
            final(self).port_base == old(self).port_base,
            old(self).spec_contains(args.session_id@) ==> r is Ok && !final(self).spec_contains(
                args.session_id@,
            ) && exists|i: int|
                0 <= i < old(self).sessions@.len() && old(self).sessions@[i].id@
                    == args.session_id@ && final(self).sessions@ == old(self).sessions@.remove(i),
            r matches Ok(msg) ==> msg@ == "Session "@ + args.session_id@ + " closed successfully"@,
            !old(self).spec_contains(args.session_id@) ==> (r matches Err(e) && e matches
                HtMcpError::SessionNotFound(s) && s@ == args.session_id@) && final(self).sessions@
                == old(self).sessions@,
    {
        match self.find_index(args.session_id.as_str()) {
            None => Err(HtMcpError::SessionNotFound(args.session_id.clone())),
            Some(i) => {
                proof {
                    assert(self.spec_contains(args.session_id@));
                    lemma_close_idempotent(self.sessions@, i as int);
                }
                self.sessions.remove(i);
                let mut msg = String::from_str("Session ");
                msg.append(args.session_id.as_str());
                msg.append(" closed successfully");
                Ok(msg)
            },
        }
    }

    /// A snapshot of every record's public fields, in registry order.
    pub fn list_sessions(&self) -> (r: Vec<SessionInfo>)
        ensures
            r@.len() == self.sessions@.len(),
            forall|i: int| 0 <= i < r@.len() ==> sess_eq(#[trigger] r@[i], self.sessions@[i]),
    {
        let mut out: Vec<SessionInfo> = Vec::new();
        let mut i: usize = 0;
        while i < self.sessions.len()
            invariant
                i <= self.sessions@.len(),
                out@.len() == i,
                forall|j: int| 0 <= j < i ==> sess_eq(#[trigger] out@[j], self.sessions@[j]),
            decreases self.sessions@.len() - i,
        {
            out.push(self.sessions[i].clone());
            i = i + 1;
        }
        out
    }

    /// Flip the liveness flag of a session whose process has exited. The
    /// record stays listed until the session is closed.
    pub fn mark_dead(&mut self, id: &str) -> (r: bool)
        requires
            old(self).wf(),
        ensures
            final(self).wf(),
            final(self).port_base == old(self).port_base,
            r == old(self).spec_contains(id@),
            final(self).sessions@.len() == old(self).sessions@.len(),
            forall|i: int|
                0 <= i < old(self).sessions@.len() && old(self).sessions@[i].id@ != id@
                    ==> final(self).sessions@[i] == old(self).sessions@[i],
            forall|i: int|
                0 <= i < old(self).sessions@.len() && old(self).sessions@[i].id@ == id@ ==> {
                    let rec = final(self).sessions@[i];
                    &&& !rec.is_alive
                    &&& rec.id@ == old(self).sessions@[i].id@
                    &&& rec.internal_id@ == old(self).sessions@[i].internal_id@
                    &&& rec.created_at == old(self).sessions@[i].created_at
                    &&& rec.web_server_url == old(self).sessions@[i].web_server_url
                    &&& rec.command@ == old(self).sessions@[i].command@
                },
    {
        match self.find_index(id) {
            None => false,
            Some(i) => {
                proof {
                    assert(self.sessions@[i as int].id@ == id@);
                }
                let mut rec = self.sessions.remove(i);
                rec.is_alive = false;
                self.sessions.insert(i, rec);
                proof {
                    assert(self.sessions@ =~= old(self).sessions@.update(
                        i as int,
                        self.sessions@[i as int],
                    ));
                    assert forall|a: int, b: int|
                        0 <= a < b < self.sessions@.len() implies self.sessions@[a].id@
                        != self.sessions@[b].id@ by {
                        assert(old(self).sessions@[a].id@ != old(self).sessions@[b].id@);
                    }
                }
                true
            },
        }
    }
}

/// Assemble the outcome of a snapshot request. An unknown id is reported as
/// `SessionNotFound` no matter what, never as a timeout; for a known id, a
/// missing reply is the bounded wait expiring.
pub fn snapshot_reply(session_id: &str, found: bool, reply: Option<String>) -> (r: Result<
    SnapshotResult,
    HtMcpError,
>)
    ensures
        !found ==> (r matches Err(e) && e matches HtMcpError::SessionNotFound(s) && s@
            == session_id@),
        found ==> (reply matches Some(text) ==> (r matches Ok(res) && res.session_id@
            == session_id@ && res.snapshot@ == text@)),
        found && reply is None ==> (r matches Err(e) && e matches HtMcpError::Timeout(s) && s@
            == "Snapshot request timed out"@),
{
    if !found {
        Err(HtMcpError::SessionNotFound(String::from_str(session_id)))
    } else {
        match reply {
            Some(text) => Ok(
                SnapshotResult { session_id: String::from_str(session_id), snapshot: text },
            ),
            None => Err(HtMcpError::Timeout(String::from_str("Snapshot request timed out"))),
        }
    }
}

// ---------------------------------------------------------------------------
// Registry laws
// ---------------------------------------------------------------------------

/// Law: a record inserted under a fresh id is visible in the registry,
/// uniqueness is preserved, and removing it restores the registry as it was.
pub proof fn lemma_insert_then_remove(s: Seq<SessionInfo>, rec: SessionInfo)
    requires
        ids_unique(s),
        !seq_contains_id(s, rec.id@),
    ensures
        seq_contains_id(s.push(rec), rec.id@),
        ids_unique(s.push(rec)),
        s.push(rec).remove(s.len() as int) == s,
{
    assert(s.push(rec)[s.len() as int].id@ == rec.id@);
    assert forall|i: int, j: int| 0 <= i < j < s.push(rec).len() implies s.push(rec)[i].id@
        != s.push(rec)[j].id@ by {
        if j == s.len() as int {
            assert(s[i].id@ != rec.id@);
        }
    }
    assert(s.push(rec).remove(s.len() as int) =~= s);
}

/// Law: removing the record that carries an id leaves no record with that id,
/// so a close, once it has succeeded, cannot succeed again for the same id;
/// uniqueness also survives the removal.
pub proof fn lemma_close_idempotent(s: Seq<SessionInfo>, i: int)
    requires
        ids_unique(s),
        0 <= i < s.len(),
    ensures
        !seq_contains_id(s.remove(i), s[i].id@),
        ids_unique(s.remove(i)),
{
    let t = s.remove(i);
    assert forall|j: int| 0 <= j < t.len() implies t[j].id@ != s[i].id@ by {
        if j < i {
            assert(t[j] == s[j]);
        } else {
            assert(t[j] == s[j + 1]);
        }
    }
    assert forall|a: int, b: int| 0 <= a < b < t.len() implies t[a].id@ != t[b].id@ by {
        let a0 = if a < i { a } else { a + 1 };
        let b0 = if b < i { b } else { b + 1 };
        assert(t[a] == s[a0]);
        assert(t[b] == s[b0]);
    }
}

} // verus!
