//! The life of one connection, as the decisions taken on what it sends.
//!
//! The server reads the socket and hands every result to
//! [`Session::handle`], which changes the registry, starts the broadcasts
//! and says what the server has to do next. Writing to the socket and
//! waiting are left to the server.

use std::sync::Arc;
use tokio::sync::mpsc::Receiver;
use vstd::prelude::*;
use crate::error::ChatError;
use super::fanout::{broadcast_from, FanOut, Progress};
use super::mailbox::{mailbox_limit, MAX_MESSAGES};
use super::message::{joined_text, left_text, Message, MessageView};
use super::registry::{registration, ConnectionId};
use super::state::State;
use super::user::Peer;

verus! {

/// The line that asks a new connection for its user name.
pub const PROMPT: &'static str = "Enter your username:";

/// Where a connection stands.
#[derive(Debug, Clone, Copy, PartialEq, Eq, Structural)]
pub enum Phase {
    /// The prompt is out; the first line will be taken as the user name.
    AwaitingUsername,
    /// The connection is in the room; its lines are chat.
    Active,
    /// The connection is over.
    Terminated,
}

/// What one attempt to read a line from the connection gave.
#[derive(Debug, PartialEq, Eq)]
pub enum Inbound {
    /// A complete line, without its line end.
    Line(String),
    /// The transport or the decoder failed.
    Failed(ChatError),
    /// The other side closed the connection.
    Closed,
}

/// What the server gets when a connection has entered the room.
pub struct Admission {
    /// The connection under its accepted name.
    pub peer: Peer,
    /// The receiving end of the connection's mailbox. A task of its own
    /// writes what arrives there to the socket, one line per message.
    pub outbound: Receiver<Arc<Message>>,
    /// The broadcast that tells the others of the arrival.
    pub notice: FanOut,
    /// How far that broadcast has come.
    pub progress: Progress,
}

/// What the server has to do after one input.
pub enum Step {
    /// The connection ended before it was in the room. Close it without
    /// telling anybody.
    Closed,
    /// The connection is refused or broke down before it was in the room.
    /// Close it and report the fault.
    Rejected(ChatError),
    /// The connection is in the room now. Start its writer and see the
    /// notice of its arrival through.
    Joined(Admission),
    /// A chat line is on its way to the others. See the broadcast through.
    Relayed(FanOut, Progress),
    /// The connection has left the room. See the notice of its leaving
    /// through and close it.
    Departed(FanOut, Progress),
    /// The connection was over already. Nothing was done.
    Finished,
}

/// One connection.
pub struct Session {
    id: ConnectionId,
    phase: Phase,
    username: String,
}

/// The mathematical value of a [`Session`].
pub struct SessionView {
    /// The connection's identity.
    pub id: ConnectionId,
    /// Where the connection stands.
    pub phase: Phase,
    /// The accepted user name, once the connection is in the room.
    pub username: Seq<char>,
}

/// What handling `input` makes of a session and of the names in the
/// registry, and what it asks of the server.
///
/// While the user name is awaited, a closed connection and a failed read end
/// the session with nothing else done; a line is tried as the user name, and
/// either the fault of the registration ends the session or the connection
/// is registered and its arrival broadcast to the others. In the room, a
/// line is broadcast as chat under the session's name; a closed connection
/// or a failed read takes the connection out of the registry and then
/// broadcasts its leaving. A session that is over stays so.
pub open spec fn handled(
    session0: SessionView,
    names0: Map<ConnectionId, Seq<char>>,
    input: Inbound,
    session1: SessionView,
    names1: Map<ConnectionId, Seq<char>>,
    step: Step,
) -> bool {
    let id = session0.id;
    &&& session1.id == id
    &&& match session0.phase {
        Phase::AwaitingUsername => match input {
            Inbound::Closed => step is Closed && names1 == names0 && session1.phase
                == Phase::Terminated,
            Inbound::Failed(fault) => step == Step::Rejected(fault) && names1 == names0
                && session1.phase == Phase::Terminated,
            Inbound::Line(name) => match registration(names0, id, name@) {
                Err(fault) => step == Step::Rejected(fault) && names1 == names0 && session1.phase
                    == Phase::Terminated,
                Ok(names) => {
                    &&& step matches Step::Joined(admission)
                    &&& admission.peer.username@ == name@
                    &&& mailbox_limit(admission.outbound) == MAX_MESSAGES
                    &&& broadcast_from(
                        names,
                        id,
                        MessageView::UserJoined(joined_text(name@)),
                        names1,
                        admission.notice@,
                        admission.progress,
                    )
                    &&& session1.phase == Phase::Active
                    &&& session1.username == name@
                },
            },
        },
        Phase::Active => match input {
            Inbound::Line(line) => {
                &&& step matches Step::Relayed(fan, progress)
                &&& broadcast_from(
                    names0,
                    id,
                    MessageView::Chat { sender: session0.username, content: line@ },
                    names1,
                    fan@,
                    progress,
                )
                &&& session1.phase == Phase::Active
                &&& session1.username == session0.username
            },
            _ => {
                &&& step matches Step::Departed(fan, progress)
                &&& broadcast_from(
                    names0.remove(id),
                    id,
                    MessageView::UserLeft(left_text(session0.username)),
                    names1,
                    fan@,
                    progress,
                )
                &&& session1.phase == Phase::Terminated
            },
        },
        Phase::Terminated => step is Finished && names1 == names0 && session1.phase
            == Phase::Terminated,
    }
}

impl View for Session {
    type V = SessionView;

    closed spec fn view(&self) -> SessionView {
        SessionView { id: self.id, phase: self.phase, username: self.username@ }
    }
}

impl Session {
    /// A connection that has just been accepted and is about to be asked for
    /// its user name.
    pub fn new(id: ConnectionId) -> (session: Self)
        ensures
            session@ == (SessionView {
                id,
                phase: Phase::AwaitingUsername,
                username: Seq::empty(),
            }),
    {
        Session { id, phase: Phase::AwaitingUsername, username: String::new() }
    }

    /// The connection's identity.
    pub fn id(&self) -> (id: ConnectionId)
        ensures
            id == self@.id,
    {
        self.id
    }

    /// Where the connection stands.
    pub fn phase(&self) -> (phase: Phase)
        ensures
            phase == self@.phase,
    {
        self.phase
    }

    /// The accepted user name; empty before the connection is in the room.
    pub fn username(&self) -> (username: &str)
        ensures
            username@ == self@.username,
    {
        self.username.as_str()
    }

    /// Takes the next thing read from the connection, acts on the registry
    /// and tells the server what to do.
    pub fn handle(&mut self, state: &mut State, input: Inbound) -> (step: Step)
        requires
            old(state).wf(),
        ensures
            final(state).wf(),
            handled(old(self)@, old(state)@, input, final(self)@, final(state)@, step),
    {
        match self.phase {
            Phase::AwaitingUsername => {
                match input {
                    Inbound::Closed => {
                        self.phase = Phase::Terminated;
                        Step::Closed
                    },
                    Inbound::Failed(fault) => {
                        self.phase = Phase::Terminated;
                        Step::Rejected(fault)
                    },
                    Inbound::Line(name) => {
                        match state.add(self.id, name.clone()) {
                            Err(fault) => {
                                self.phase = Phase::Terminated;
                                Step::Rejected(fault)
                            },
                            Ok((peer, outbound)) => {
                                let message = Arc::new(Message::new_user_joined(name.as_str()));
                                let (notice, progress) = state.broadcast(self.id, message);
                                self.phase = Phase::Active;
                                self.username = name;
                                Step::Joined(Admission { peer, outbound, notice, progress })
                            },
                        }
                    },
                }
            },
            Phase::Active => {
                match input {
                    Inbound::Line(line) => {
                        let message = Arc::new(
                            Message::new_chat(self.username.as_str(), line.as_str()),
                        );
                        let (fan, progress) = state.broadcast(self.id, message);
                        Step::Relayed(fan, progress)
                    },
                    _ => {
                        state.unregister(self.id);
                        let message = Arc::new(Message::new_user_left(self.username.as_str()));
                        let (fan, progress) = state.broadcast(self.id, message);
                        self.phase = Phase::Terminated;
                        Step::Departed(fan, progress)
                    },
                }
            },
            Phase::Terminated => Step::Finished,
        }
    }
}

} // verus!
