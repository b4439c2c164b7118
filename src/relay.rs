use vstd::prelude::*;

use crate::address::{SocketAddress, SocksAddress};
use crate::buffer::copy_bytes;
use crate::errors::ProtocolError;
use crate::traits::SocksPacket;
use crate::udp::{
    lemma_datagram_round_trip, lemma_parse_datagram_sound, parse_datagram, DatagramView,
    UdpMessage,
};

verus! {

/// What the caller must do next for a UDP association.
#[derive(Debug)]
pub enum UdpAction {
    /// Send `payload` from the target-facing socket to `address` and `port`,
    /// then hand the target's answer to `UdpRelay::on_target_reply`.
    SendToTarget { payload: Vec<u8>, address: SocksAddress, port: u16 },
    /// Send `frame` from the client-facing socket to the client at `to`.
    SendToClient { frame: Vec<u8>, to: SocketAddress },
    /// End the association: a datagram from the client was malformed.
    Stop(ProtocolError),
}

/// A UDP relay in the abstract: the client's datagram whose answer is awaited,
/// with the address it came from.
pub ghost struct RelayView {
    pub pending: Option<(DatagramView, SocketAddress)>,
}

/// The datagram pump of a UDP association. It works one datagram at a time:
/// a client's datagram goes to its destination, and the next answer from the
/// target-facing socket goes back to that client, wrapped in the same header.
#[derive(Debug)]
pub struct UdpRelay {
    pending: Option<(UdpMessage, SocketAddress)>,
}

impl View for UdpRelay {
    type V = RelayView;

    closed spec fn view(&self) -> RelayView {
        RelayView {
            pending: match self.pending {
                Some((m, from)) => Some((m@, from)),
                None => None,
            },
        }
    }
}

impl UdpRelay {
    pub fn new() -> (r: UdpRelay)
        ensures
            r@.pending is None,
    {
        UdpRelay { pending: None }
    }

    /// Whether no answer from a target is awaited.
    pub fn is_idle(&self) -> (r: bool)
        ensures
            r <==> self@.pending is None,
    {
        self.pending.is_none()
    }

    /// Takes a datagram that the client at `from` sent to the client-facing
    /// socket: its payload is to go to the destination its header names.
    pub fn on_client_datagram(&mut self, bytes: &[u8], from: SocketAddress) -> (r: UdpAction)
        requires
            old(self)@.pending is None,
        ensures
            match parse_datagram(bytes@) {
                Ok(d) => {
                    &&& r matches UdpAction::SendToTarget { payload, address, port } && payload@
                        == d.data && address@ == d.addr && port == d.port
                    &&& final(self)@.pending == Some((d, from))
                },
                Err(e) => {
                    &&& r matches UdpAction::Stop(e2) && e2 == e
                    &&& final(self)@.pending is None
                },
            },
    {
        match UdpMessage::deserialize_from_bytes(bytes) {
            Ok(request) => {
                let payload = request.get_udp_data();
                let address = request.get_dst_addr();
                let port = request.get_dst_port();
                self.pending = Some((request, from));
                UdpAction::SendToTarget { payload, address, port }
            },
            Err(e) => UdpAction::Stop(e),
        }
    }

    /// Takes the target's answer to the pending datagram: it goes back to the
    /// client in a datagram with the same fragment number and destination.
    pub fn on_target_reply(&mut self, payload: &[u8]) -> (r: UdpAction)
        requires
            old(self)@.pending is Some,
        ensures
            ({
                let (request, from) = old(self)@.pending->0;
                r matches UdpAction::SendToClient { frame, to } && frame@ == request.with_data(
                    payload@,
                ).wire() && to == from
            }),
            final(self)@.pending is None,
    {
        let (request, to) = self.pending.take().unwrap();
        let reply = request.generate_reply_message(copy_bytes(payload));
        UdpAction::SendToClient { frame: reply.serialize_to_bytes(), to }
    }
}

/// What the relay sends back to the client for a datagram `request`, when the
/// target answers with `answer`, decodes to a datagram with the request's
/// fragment number, destination address and port, and the answer as payload;
/// an empty answer gives an empty payload.
pub proof fn lemma_relay_reply_keeps_header(request: Seq<u8>, answer: Seq<u8>)
    requires
        parse_datagram(request) is Ok,
    ensures
        ({
            let d = parse_datagram(request)->Ok_0;
            let back = parse_datagram(d.with_data(answer).wire());
            &&& back is Ok
            &&& back->Ok_0.frag == d.frag
            &&& back->Ok_0.addr == d.addr
            &&& back->Ok_0.port == d.port
            &&& back->Ok_0.data == answer
        }),
{
    lemma_parse_datagram_sound(request);
    let d = parse_datagram(request)->Ok_0;
    lemma_datagram_round_trip(d.with_data(answer));
}

} // verus!
