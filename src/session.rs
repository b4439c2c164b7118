use vstd::prelude::*;

use crate::address::SocketAddress;
use crate::buffer::{append_bytes, copy_bytes};
use crate::errors::ProtocolError;
use crate::handlers::{method_reply_wire, MethodHandler, SocksHandler};
use crate::methods::{lemma_method_request_length, parse_method_request};
use crate::requests::{lemma_request_length, parse_request};

verus! {

/// Where a client connection stands.
#[derive(Debug, Clone, Copy, PartialEq, Eq, Structural)]
pub enum SessionState {
    /// The next frame is a method-selection request.
    AwaitingMethodNegotiation,
    /// The next frame is a command request.
    AwaitingCommand,
    /// A command was handed out and its outcome is awaited.
    ExecutingCommand,
    /// Traffic is relayed until one side closes or the control channel fails.
    Relaying,
    Closed,
}

/// A connection in the abstract, with the bytes received and not yet decoded.
pub ghost struct SessionView {
    pub state: SessionState,
    pub authenticated: bool,
    pub local: SocketAddress,
    pub peer: SocketAddress,
    pub buffered: Seq<u8>,
}

/// What the caller must do after bytes were read.
#[derive(Debug)]
pub enum SessionAction {
    /// Write these bytes to the client, then read on.
    Reply(Vec<u8>),
    /// Carry out the command of this handler, then report how it ended.
    Execute(SocksHandler),
    /// Close the connection: the frame was malformed.
    Close(ProtocolError),
    /// The frame is not complete yet: read on.
    NeedMore,
}

/// The state of one client connection, from its first frame to its close.
/// Bytes are gathered until they hold a whole frame, however the client's
/// writes were split or joined on the way.
#[derive(Debug)]
pub struct ConnectionSession {
    state: SessionState,
    authenticated: bool,
    local: SocketAddress,
    peer: SocketAddress,
    buffered: Vec<u8>,
}

impl View for ConnectionSession {
    type V = SessionView;

    closed spec fn view(&self) -> SessionView {
        SessionView {
            state: self.state,
            authenticated: self.authenticated,
            local: self.local,
            peer: self.peer,
            buffered: self.buffered@,
        }
    }
}

impl ConnectionSession {
    /// A connection accepted at `local` from `peer`.
    pub fn new(local: SocketAddress, peer: SocketAddress) -> (r: ConnectionSession)
        ensures
            r@ == (SessionView {
                state: SessionState::AwaitingMethodNegotiation,
                authenticated: false,
                local,
                peer,
                buffered: Seq::empty(),
            }),
    {
        ConnectionSession {
            state: SessionState::AwaitingMethodNegotiation,
            authenticated: false,
            local,
            peer,
            buffered: Vec::new(),
        }
    }

    pub fn state(&self) -> (r: SessionState)
        ensures
            r == self@.state,
    {
        self.state
    }

    pub fn is_authenticated(&self) -> (r: bool)
        ensures
            r == self@.authenticated,
    {
        self.authenticated
    }

    /// Whether the connection waits for bytes from the client.
    pub fn awaits_frame(&self) -> (r: bool)
        ensures
            r <==> (self@.state == SessionState::AwaitingMethodNegotiation || self@.state
                == SessionState::AwaitingCommand),
    {
        self.state == SessionState::AwaitingMethodNegotiation || self.state
            == SessionState::AwaitingCommand
    }

    /// Hands out the bytes received after the last decoded frame, and forgets them.
    pub fn take_buffered(&mut self) -> (r: Vec<u8>)
        ensures
            r@ == old(self)@.buffered,
            final(self)@ == (SessionView { buffered: Seq::empty(), ..old(self)@ }),
    {
        let r = copy_bytes(self.buffered.as_slice());
        self.buffered = Vec::new();
        r
    }

    /// Takes bytes the client sent. The first frame is a method-selection
    /// request: it is answered, and the next frame is a command request, even
    /// when no method was acceptable. A command request is handed out to be
    /// carried out. A frame not complete yet waits for more bytes; a malformed
    /// one closes the connection.
    pub fn on_read(&mut self, bytes: &[u8]) -> (r: SessionAction)
        requires
            old(self)@.state == SessionState::AwaitingMethodNegotiation || old(self)@.state
                == SessionState::AwaitingCommand,
        ensures
            final(self)@.local == old(self)@.local,
            final(self)@.peer == old(self)@.peer,
            r is NeedMore ==> final(self)@.buffered.len() < 262,
            ({
                let input = old(self)@.buffered + bytes@;
                old(self)@.state == SessionState::AwaitingMethodNegotiation ==> match parse_method_request(input) {
                    Ok(m) => {
                        &&& r matches SessionAction::Reply(reply) && reply@ == method_reply_wire(m)
                        &&& final(self)@.state == SessionState::AwaitingCommand
                        &&& final(self)@.authenticated
                        &&& final(self)@.buffered == input.subrange(m.wire().len() as int, input.len() as int)
                    },
                    Err(ProtocolError::Truncated) => {
                        &&& r is NeedMore
                        &&& final(self)@ == (SessionView { buffered: input, ..old(self)@ })
                    },
                    Err(e) => {
                        &&& r matches SessionAction::Close(e2) && e2 == e
                        &&& final(self)@.state == SessionState::Closed
                        &&& final(self)@.authenticated == old(self)@.authenticated
                    },
                }
            }),
            ({
                let input = old(self)@.buffered + bytes@;
                old(self)@.state == SessionState::AwaitingCommand ==> match parse_request(input) {
                    Ok(q) => {
                        &&& r matches SessionAction::Execute(h) && h@.request == q && h@.server
                            == old(self)@.local && h@.client == old(self)@.peer
                        &&& final(self)@.state == SessionState::ExecutingCommand
                        &&& final(self)@.authenticated == old(self)@.authenticated
                        &&& final(self)@.buffered == input.subrange(q.wire().len() as int, input.len() as int)
                    },
                    Err(ProtocolError::Truncated) => {
                        &&& r is NeedMore
                        &&& final(self)@ == (SessionView { buffered: input, ..old(self)@ })
                    },
                    Err(e) => {
                        &&& r matches SessionAction::Close(e2) && e2 == e
                        &&& final(self)@.state == SessionState::Closed
                        &&& final(self)@.authenticated == old(self)@.authenticated
                    },
                }
            }),
    {
        append_bytes(&mut self.buffered, bytes);
        if self.state == SessionState::AwaitingMethodNegotiation {
            match MethodHandler::new(self.buffered.as_slice()) {
                Ok(handler) => {
                    proof {
                        lemma_method_request_length(self.buffered@);
                    }
                    let used = handler.request_len();
                    self.buffered = copy_bytes(&self.buffered.as_slice()[used..self.buffered.len()]);
                    self.state = SessionState::AwaitingCommand;
                    self.authenticated = true;
                    SessionAction::Reply(handler.reply())
                },
                Err(ProtocolError::Truncated) => {
                    proof {
                        lemma_method_request_length(self.buffered@);
                    }
                    SessionAction::NeedMore
                },
                Err(e) => {
                    self.state = SessionState::Closed;
                    SessionAction::Close(e)
                },
            }
        } else {
            match SocksHandler::new(self.buffered.as_slice(), self.local, self.peer) {
                Ok(handler) => {
                    proof {
                        lemma_request_length(self.buffered@);
                    }
                    let used = handler.get_request().wire_len();
                    self.buffered = copy_bytes(&self.buffered.as_slice()[used..self.buffered.len()]);
                    self.state = SessionState::ExecutingCommand;
                    SessionAction::Execute(handler)
                },
                Err(ProtocolError::Truncated) => {
                    proof {
                        lemma_request_length(self.buffered@);
                    }
                    SessionAction::NeedMore
                },
                Err(e) => {
                    self.state = SessionState::Closed;
                    SessionAction::Close(e)
                },
            }
        }
    }

    /// Records how the command ended: relaying when it succeeded, closed when not.
    pub fn command_finished(&mut self, relay: bool)
        requires
            old(self)@.state == SessionState::ExecutingCommand,
        ensures
            final(self)@ == (SessionView {
                state: if relay {
                    SessionState::Relaying
                } else {
                    SessionState::Closed
                },
                ..old(self)@
            }),
    {
        if relay {
            self.state = SessionState::Relaying;
        } else {
            self.state = SessionState::Closed;
        }
    }

    /// Closes the connection: the client closed it, a read or write failed,
    /// or the relay ended.
    pub fn close(&mut self)
        ensures
            final(self)@ == (SessionView { state: SessionState::Closed, ..old(self)@ }),
    {
        self.state = SessionState::Closed;
    }
}

} // verus!
