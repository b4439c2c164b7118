use vstd::prelude::*;

use crate::address::{IpAddress, SocketAddress, SocksAddress};
use crate::consts::{
    SOCKS5_AUTH_METHOD_NONE, SOCKS5_AUTH_METHOD_NOT_ACCEPTABLE, SOCKS5_REPLY_COMMAND_NOT_SUPPORTED,
    SOCKS5_REPLY_CONNECTION_REFUSED, SOCKS5_REPLY_GENERAL_FAILURE, SOCKS5_REPLY_HOST_UNREACHABLE,
    SOCKS5_REPLY_NETWORK_UNREACHABLE, SOCKS5_REPLY_SUCCEEDED, SOCKS5_VERSION,
};
use crate::errors::{ConnectFailure, ProtocolError};
use crate::methods::{
    chosen_method, parse_method_request, MethodReply, MethodReplyView, MethodRequest,
    MethodRequestView,
};
use crate::replies::{reply_view_for, SocksReply};
use crate::requests::{parse_request, RequestView, SocksCommand, SocksRequest};
use crate::traits::SocksPacket;

verus! {

/// The bytes of the method-selection reply to request `m`.
pub open spec fn method_reply_wire(m: MethodRequestView) -> Seq<u8> {
    MethodReplyView { ver: SOCKS5_VERSION, method: chosen_method(m.methods) }.wire()
}

/// Answers a client's method-selection request.
#[derive(Debug)]
pub struct MethodHandler {
    method_request: MethodRequest,
}

impl View for MethodHandler {
    type V = MethodRequestView;

    closed spec fn view(&self) -> MethodRequestView {
        self.method_request@
    }
}

impl MethodHandler {
    /// The handler of the method-selection request at the start of `request`.
    pub fn new(request: &[u8]) -> (r: Result<MethodHandler, ProtocolError>)
        ensures
            r matches Ok(h) ==> parse_method_request(request@) == Ok::<
                MethodRequestView,
                ProtocolError,
            >(h@),
            r matches Err(e) ==> parse_method_request(request@) == Err::<
                MethodRequestView,
                ProtocolError,
            >(e),
    {
        match MethodRequest::deserialize_from_bytes(request) {
            Ok(method_request) => Ok(MethodHandler { method_request }),
            Err(e) => Err(e),
        }
    }

    /// The number of bytes the request took.
    pub fn request_len(&self) -> (r: usize)
        ensures
            r == self@.wire().len(),
    {
        self.method_request.wire_len()
    }

    /// The reply to write back: no authentication when the client offers it,
    /// else "no acceptable methods".
    pub fn reply(&self) -> (r: Vec<u8>)
        ensures
            r@ == method_reply_wire(self@),
    {
        let allow_method = if self.method_request.method_exists(SOCKS5_AUTH_METHOD_NONE) {
            SOCKS5_AUTH_METHOD_NONE
        } else {
            SOCKS5_AUTH_METHOD_NOT_ACCEPTABLE
        };
        MethodReply::new(allow_method).serialize_to_bytes()
    }
}

/// For every valid method-selection request, the reply is `[5, 0]` when the
/// request offers method 0 (no authentication) and `[5, 255]` when it does not.
pub proof fn lemma_method_selection(s: Seq<u8>)
    requires
        parse_method_request(s) is Ok,
    ensures
        parse_method_request(s)->Ok_0.methods.contains(0) ==> method_reply_wire(
            parse_method_request(s)->Ok_0,
        ) == seq![5u8, 0u8],
        !parse_method_request(s)->Ok_0.methods.contains(0) ==> method_reply_wire(
            parse_method_request(s)->Ok_0,
        ) == seq![5u8, 255u8],
{
    let m = parse_method_request(s)->Ok_0;
    assert(method_reply_wire(m) =~= seq![5u8, chosen_method(m.methods)]);
}

/// The reply code that a failed connect is reported with.
pub open spec fn failure_code(f: ConnectFailure) -> u8 {
    match f {
        ConnectFailure::Unresolved => SOCKS5_REPLY_HOST_UNREACHABLE,
        ConnectFailure::HostUnreachable => SOCKS5_REPLY_HOST_UNREACHABLE,
        ConnectFailure::ConnectionRefused => SOCKS5_REPLY_CONNECTION_REFUSED,
        ConnectFailure::NetworkUnreachable => SOCKS5_REPLY_NETWORK_UNREACHABLE,
        ConnectFailure::Other => SOCKS5_REPLY_GENERAL_FAILURE,
    }
}

/// The reply code that a failed connect is reported with.
pub fn failure_reply_code(f: ConnectFailure) -> (r: u8)
    ensures
        r == failure_code(f),
{
    match f {
        ConnectFailure::Unresolved => SOCKS5_REPLY_HOST_UNREACHABLE,
        ConnectFailure::HostUnreachable => SOCKS5_REPLY_HOST_UNREACHABLE,
        ConnectFailure::ConnectionRefused => SOCKS5_REPLY_CONNECTION_REFUSED,
        ConnectFailure::NetworkUnreachable => SOCKS5_REPLY_NETWORK_UNREACHABLE,
        ConnectFailure::Other => SOCKS5_REPLY_GENERAL_FAILURE,
    }
}

/// What the caller must do to carry out a command.
#[derive(Debug)]
pub enum CommandAction {
    /// Open a TCP connection to `address` and `port`, then report the outcome
    /// to `SocksHandler::connect_finished`.
    Connect { address: SocksAddress, port: u16 },
    /// Bind a client-facing UDP socket on `ip` and a target-facing one on any
    /// address, then report the client-facing socket's address to
    /// `SocksHandler::udp_finished`.
    AssociateUdp { ip: IpAddress },
    /// Write `reply` to the client and close: the command is not carried out.
    Refuse { reply: Vec<u8> },
}

/// How a command ends once its outcome is known.
#[derive(Debug)]
pub enum Completion {
    /// Write the reply, then relay traffic.
    Relay(Vec<u8>),
    /// Write the reply, then close the connection.
    Close(Vec<u8>),
}

/// A command handler in the abstract: the request, the proxy's own address on
/// the client connection, and the client's.
pub ghost struct HandlerView {
    pub request: RequestView,
    pub server: SocketAddress,
    pub client: SocketAddress,
}

/// Carries out one command request.
#[derive(Debug)]
pub struct SocksHandler {
    socks_request: SocksRequest,
    server_ip_port: SocketAddress,
    client_ip_port: SocketAddress,
}

impl View for SocksHandler {
    type V = HandlerView;

    closed spec fn view(&self) -> HandlerView {
        HandlerView {
            request: self.socks_request@,
            server: self.server_ip_port,
            client: self.client_ip_port,
        }
    }
}

impl SocksHandler {
    /// The handler of the command request at the start of `data`, received on
    /// a connection from `client_ip_port` to `server_ip_port`.
    pub fn new(data: &[u8], server_ip_port: SocketAddress, client_ip_port: SocketAddress) -> (r:
        Result<SocksHandler, ProtocolError>)
        ensures
            r matches Ok(h) ==> parse_request(data@) == Ok::<RequestView, ProtocolError>(
                h@.request,
            ) && h@.server == server_ip_port && h@.client == client_ip_port,
            r matches Err(e) ==> parse_request(data@) == Err::<RequestView, ProtocolError>(e),
    {
        match SocksRequest::deserialize_from_bytes(data) {
            Ok(socks_request) => Ok(SocksHandler { socks_request, server_ip_port, client_ip_port }),
            Err(e) => Err(e),
        }
    }

    pub fn get_request(&self) -> (r: &SocksRequest)
        ensures
            r@ == self@.request,
    {
        &self.socks_request
    }

    /// What the command asks of the caller. CONNECT opens a connection to the
    /// requested destination; UDP ASSOCIATE binds sockets on the proxy's own
    /// address; BIND is refused with "command not supported", whatever the
    /// address it names.
    pub fn execute_command(&self) -> (r: CommandAction)
        ensures
            self@.request.cmd == SocksCommand::TCPConnect ==> (r matches CommandAction::Connect {
                address,
                port,
            } && address@ == self@.request.addr && port == self@.request.port),
            self@.request.cmd == SocksCommand::UDPAssociate ==> (r matches CommandAction::AssociateUdp {
                ip,
            } && ip == self@.server.ip),
            self@.request.cmd == SocksCommand::TCPBind ==> (r matches CommandAction::Refuse {
                reply,
            } && reply@ == reply_view_for(SOCKS5_REPLY_COMMAND_NOT_SUPPORTED, self@.server).wire()),
    {
        match self.socks_request.get_cmd() {
            SocksCommand::TCPConnect => CommandAction::Connect {
                address: self.socks_request.get_dst_addr(),
                port: self.socks_request.get_dst_port(),
            },
            SocksCommand::UDPAssociate => CommandAction::AssociateUdp { ip: self.server_ip_port.ip },
            SocksCommand::TCPBind => CommandAction::Refuse { reply: self.tcp_bind() },
        }
    }

    /// The reply that refuses a BIND.
    fn tcp_bind(&self) -> (r: Vec<u8>)
        ensures
            r@ == reply_view_for(SOCKS5_REPLY_COMMAND_NOT_SUPPORTED, self@.server).wire(),
    {
        SocksReply::new(SOCKS5_REPLY_COMMAND_NOT_SUPPORTED, self.server_ip_port).serialize_to_bytes()
    }

    /// How a CONNECT ends: on a connection whose local end is `bound`, reply
    /// "succeeded" naming it and relay; on a failure, reply with the code of
    /// the failure and close.
    pub fn connect_finished(&self, outcome: Result<SocketAddress, ConnectFailure>) -> (r: Completion)
        ensures
            outcome matches Ok(bound) ==> (r matches Completion::Relay(reply) && reply@
                == reply_view_for(SOCKS5_REPLY_SUCCEEDED, bound).wire()),
            outcome matches Err(f) ==> (r matches Completion::Close(reply) && reply@
                == reply_view_for(failure_code(f), self@.server).wire()),
    {
        match outcome {
            Ok(bound) => Completion::Relay(
                SocksReply::new(SOCKS5_REPLY_SUCCEEDED, bound).serialize_to_bytes(),
            ),
            Err(f) => Completion::Close(
                SocksReply::new(failure_reply_code(f), self.server_ip_port).serialize_to_bytes(),
            ),
        }
    }

    /// How a UDP ASSOCIATE ends: once the client-facing socket is bound at
    /// `bound`, reply "succeeded" naming it and relay; when the sockets could
    /// not be bound, reply "general failure" and close.
    pub fn udp_finished(&self, outcome: Option<SocketAddress>) -> (r: Completion)
        ensures
            outcome matches Some(bound) ==> (r matches Completion::Relay(reply) && reply@
                == reply_view_for(SOCKS5_REPLY_SUCCEEDED, bound).wire()),
            outcome is None ==> (r matches Completion::Close(reply) && reply@ == reply_view_for(
                SOCKS5_REPLY_GENERAL_FAILURE,
                self@.server,
            ).wire()),
    {
        match outcome {
            Some(bound) => Completion::Relay(
                SocksReply::new(SOCKS5_REPLY_SUCCEEDED, bound).serialize_to_bytes(),
            ),
            None => Completion::Close(
                SocksReply::new(SOCKS5_REPLY_GENERAL_FAILURE, self.server_ip_port).serialize_to_bytes(),
            ),
        }
    }
}

} // verus!
