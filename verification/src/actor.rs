//! The session actor: one per session, it exclusively owns that session's
//! terminal engine and process handle and services all events through one
//! serialized loop. The loop itself (channels, PTY, awaits) runs outside the
//! library; this module is the actor's decision function: which state the
//! actor enters on each event and which single action the loop performs.

use vstd::prelude::*;
use crate::keys::{seqs_to_text, spec_seqs_text, KeySequence};
use crate::session::SessionCommand;

verus! {

/// The actor's lifecycle. It only ever moves forward:
/// `Running` → `Draining` → `Terminated`.
#[derive(Debug, Clone, Copy, PartialEq, Eq, Structural)]
pub enum ActorState {
    /// All three event sources are serviced.
    Running,
    /// The viewer source is closed; output and control remain serviced.
    Draining,
    /// The process is gone or the registry dropped the control channel;
    /// nothing is serviced any more.
    Terminated,
}

/// One event from the actor's prioritized sources.
#[derive(Debug)]
pub enum ActorEvent {
    /// Raw output arrived from the process.
    Output(String),
    /// The process closed its output stream (it exited).
    OutputClosed,
    /// A control message arrived from the registry.
    Command(SessionCommand),
    /// The control channel was dropped (the session was closed).
    CommandClosed,
    /// A live-preview viewer subscribed.
    ViewerJoined,
    /// The viewer source reports that no more viewers will arrive.
    ViewersClosed,
}

/// The single action the loop performs for one event.
#[derive(Debug)]
pub enum ActorAction {
    /// Feed these bytes to the terminal engine's output ingestion.
    Ingest(String),
    /// Write these bytes to the process's input stream; a failed write is
    /// logged and absorbed, never escalated.
    WriteInput(String),
    /// Ask the engine for its rendered text and fulfill the caller's
    /// single-use reply slot with it.
    ReplySnapshot,
    /// Forward the new size to the engine.
    ResizeEngine(usize, usize),
    /// Hand the engine's live-update subscription to the viewer.
    AcceptViewer,
    /// Release the process handle, killing the process if it still runs;
    /// killing an already-dead process is a no-op.
    KillProcess,
    /// Nothing to do for this event.
    Ignore,
}

/// The state the actor enters when `event` arrives in `state`.
pub open spec fn spec_next_state(state: ActorState, event: ActorEvent) -> ActorState {
    if state is Terminated {
        ActorState::Terminated
    } else {
        match event {
            ActorEvent::OutputClosed => ActorState::Terminated,
            ActorEvent::CommandClosed => ActorState::Terminated,
            ActorEvent::ViewersClosed => ActorState::Draining,
            _ => state,
        }
    }
}

/// The actor's decision state: its lifecycle position, plus the history of
/// output it has fed to the engine (ghost). A snapshot answered after this
/// event reflects exactly the history at that point — output is ingested in
/// arrival order and the loop services one event at a time.
pub struct SessionActor {
    pub state: ActorState,
    pub history: Ghost<Seq<char>>,
}

impl SessionActor {
    /// A new actor, servicing all sources, with nothing ingested yet.
    pub fn new() -> (r: Self)
        ensures
            r.state == ActorState::Running,
            r.history@ == Seq::<char>::empty(),
    {
        SessionActor { state: ActorState::Running, history: Ghost(Seq::empty()) }
    }

    /// The actor's lifecycle position.
    pub fn state(&self) -> (r: ActorState)
        ensures
            r == self.state,
    {
        self.state
    }

    /// Service one event: move to the next state and name the one action the
    /// loop performs. `cursor_app_mode` is the engine's current cursor-key
    /// mode, read by the loop just before handing the event in.
    pub fn on_event(&mut self, event: ActorEvent, cursor_app_mode: bool) -> (a: ActorAction)
        ensures
            final(self).state == spec_next_state(old(self).state, event),
            // a terminated actor services nothing
            old(self).state is Terminated ==> a is Ignore && final(self).history@ == old(
                self,
            ).history@,
            // output is ingested in arrival order
            old(self).state !is Terminated ==> (event matches ActorEvent::Output(data) ==> (
            a matches ActorAction::Ingest(d) && d@ == data@) && final(self).history@ == old(
                self,
            ).history@ + data@),
            !(old(self).state !is Terminated && event is Output) ==> final(self).history@ == old(
                self,
            ).history@,
            // end of output or a dropped control channel terminates the actor
            // and unconditionally releases the process
            old(self).state !is Terminated ==> ((event is OutputClosed || event is CommandClosed)
                ==> a is KillProcess),
            // input is written with cursor keys resolved against the mode
            old(self).state !is Terminated ==> (event matches ActorEvent::Command(cmd) ==> match cmd {
                SessionCommand::Input(seqs) => a matches ActorAction::WriteInput(text) && text@
                    == spec_seqs_text(seqs@, cursor_app_mode),
                SessionCommand::Snapshot => a is ReplySnapshot,
                SessionCommand::Resize(cols, rows) => a == ActorAction::ResizeEngine(cols, rows),
            }),
            // viewers are handed off only while running
            old(self).state is Running ==> (event is ViewerJoined ==> a is AcceptViewer),
            old(self).state is Draining ==> (event is ViewerJoined ==> a is Ignore),
            old(self).state !is Terminated ==> (event is ViewersClosed ==> a is Ignore),
    {
        if matches!(self.state, ActorState::Terminated) {
            return ActorAction::Ignore;
        }
        match event {
            ActorEvent::Output(data) => {
                self.history = Ghost(self.history@ + data@);
                ActorAction::Ingest(data)
            },
            ActorEvent::OutputClosed => {
                self.state = ActorState::Terminated;
                ActorAction::KillProcess
            },
            ActorEvent::Command(cmd) => match cmd {
                SessionCommand::Input(seqs) => {
                    let text = seqs_to_text(&seqs, cursor_app_mode);
                    ActorAction::WriteInput(text)
                },
                SessionCommand::Snapshot => ActorAction::ReplySnapshot,
                SessionCommand::Resize(cols, rows) => ActorAction::ResizeEngine(cols, rows),
            },
            ActorEvent::CommandClosed => {
                self.state = ActorState::Terminated;
                ActorAction::KillProcess
            },
            ActorEvent::ViewerJoined => {
                if matches!(self.state, ActorState::Running) {
                    ActorAction::AcceptViewer
                } else {
                    ActorAction::Ignore
                }
            },
            ActorEvent::ViewersClosed => {
                self.state = ActorState::Draining;
                ActorAction::Ignore
            },
        }
    }
}

/// Law: the lifecycle only moves forward — no event revives a terminated
/// actor, and a draining actor never returns to running.
pub proof fn lemma_state_monotone(state: ActorState, event: ActorEvent)
    ensures
        state is Terminated ==> spec_next_state(state, event) is Terminated,
        state is Draining ==> spec_next_state(state, event) !is Running,
{
}

} // verus!
