use vstd::prelude::*;

use crate::address::{
    lemma_parse_address_round_trip, lemma_parse_address_sound,
    parse_address, port_bytes, port_from_bytes, AddressView, SocketAddress,
    SocksAddress, SocksPort,
};
use crate::buffer::{append_bytes, copy_bytes};
use crate::errors::ProtocolError;
use crate::traits::SocksPacket;

verus! {

/*
 * +-----+------+------+----------+----------+----------+
 * | RSV | FRAG | ATYP | DST.ADDR | DST.PORT |   DATA   |
 * +-----+------+------+----------+----------+----------+
 * |  2  |  1   |  1   | Variable |    2     | Variable |
 * +-----+------+------+----------+----------+----------+
 */
/// A UDP datagram header and its payload, in the abstract.
pub ghost struct DatagramView {
    pub frag: u8,
    pub addr: AddressView,
    pub port: u16,
    pub data: Seq<u8>,
}

impl DatagramView {
    pub open spec fn wf(self) -> bool {
        self.addr.wf()
    }

    /// `[RSV=0,0][FRAG][ATYP][DST.ADDR][DST.PORT][DATA...]`
    pub open spec fn wire(self) -> Seq<u8> {
        seq![0u8, 0u8, self.frag, self.addr.atyp()] + self.addr.wire() + port_bytes(self.port)
            + self.data
    }

    /// The same header around another payload.
    pub open spec fn with_data(self, data: Seq<u8>) -> DatagramView {
        DatagramView { data, ..self }
    }
}

/// The datagram that `s` holds: the header at its start and the rest as payload.
/// The reserved bytes are not looked at, and fragments are taken as they come.
pub open spec fn parse_datagram(s: Seq<u8>) -> Result<DatagramView, ProtocolError> {
    if s.len() < 4 {
        Err(ProtocolError::Truncated)
    } else {
        match parse_address(s[3], s.subrange(4, s.len() as int)) {
            Err(e) => Err(e),
            Ok(a) => {
                let n = 4 + a.wire().len() as int;
                if s.len() < n + 2 {
                    Err(ProtocolError::Truncated)
                } else {
                    Ok(
                        DatagramView {
                            frag: s[2],
                            addr: a,
                            port: port_from_bytes(s[n], s[n + 1]),
                            data: s.subrange(n + 2, s.len() as int),
                        },
                    )
                }
            },
        }
    }
}

/// A datagram between the client and the proxy.
#[derive(Debug)]
pub struct UdpMessage {
    rsv: u16,
    frag: u8,
    atyp: u8,
    dst_addr: SocksAddress,
    dst_port: SocksPort,
    data: Vec<u8>,
}

impl View for UdpMessage {
    type V = DatagramView;

    closed spec fn view(&self) -> DatagramView {
        DatagramView {
            frag: self.frag,
            addr: self.dst_addr@,
            port: self.dst_port@,
            data: self.data@,
        }
    }
}

impl UdpMessage {
    #[verifier::type_invariant]
    spec fn consistent(self) -> bool {
        &&& self.rsv == 0
        &&& self.atyp == self.dst_addr@.atyp()
        &&& self.dst_addr@.wf()
    }

    /// The datagram of fragment number `frag` that carries `data` to `address`
    /// and `port`.
    pub fn new(frag: u8, address: SocksAddress, port: u16, data: Vec<u8>) -> (r: UdpMessage)
        ensures
            r@ == (DatagramView { frag, addr: address@, port, data: data@ }),
    {
        address.show_well_formed();
        let atyp = address.atyp();
        UdpMessage { rsv: 0, frag, atyp, dst_addr: address, dst_port: SocksPort::new(port), data }
    }

    pub fn get_udp_data(&self) -> (r: Vec<u8>)
        ensures
            r@ == self@.data,
    {
        copy_bytes(self.data.as_slice())
    }

    pub fn get_frag(&self) -> (r: u8)
        ensures
            r == self@.frag,
    {
        self.frag
    }

    pub fn get_dst_addr(&self) -> (r: SocksAddress)
        ensures
            r@ == self@.addr,
    {
        self.dst_addr.clone()
    }

    pub fn get_dst_port(&self) -> (r: u16)
        ensures
            r == self@.port,
    {
        self.dst_port.value()
    }

    /// The destination as a socket address, when the datagram names it by IP
    /// address; `None` when it names a domain, which must be resolved first.
    pub fn get_dst_socket_addr(&self) -> (r: Option<SocketAddress>)
        ensures
            r matches Some(a) ==> a.ip@ == self@.addr && a.port == self@.port,
            r is None <==> self@.addr is Domain,
    {
        match &self.dst_addr {
            SocksAddress::IP(ip) => Some(SocketAddress { ip: *ip, port: self.dst_port.value() }),
            SocksAddress::Domain(_) => None,
        }
    }

    /// The datagram that carries a target's answer back to the client: the
    /// same fragment number and destination, with `data` as payload.
    pub fn generate_reply_message(&self, data: Vec<u8>) -> (r: UdpMessage)
        ensures
            r@ == self@.with_data(data@),
    {
        proof {
            use_type_invariant(self);
        }
        UdpMessage {
            rsv: 0,
            frag: self.frag,
            atyp: self.atyp,
            dst_addr: self.dst_addr.clone(),
            dst_port: self.dst_port,
            data,
        }
    }
}

impl SocksPacket for UdpMessage {
    fn deserialize_from_bytes(bytes: &[u8]) -> (r: Result<UdpMessage, ProtocolError>)
        ensures
            r matches Ok(m) ==> parse_datagram(bytes@) == Ok::<DatagramView, ProtocolError>(m@),
            r matches Err(e) ==> parse_datagram(bytes@) == Err::<DatagramView, ProtocolError>(e),
    {
        if bytes.len() < 4 {
            return Err(ProtocolError::Truncated);
        }
        let frag = bytes[2];
        let atyp = bytes[3];
        let rest = &bytes[4..bytes.len()];
        let (dst_addr, n) = match SocksAddress::parse_dst_address(atyp, rest) {
            Ok(parsed) => parsed,
            Err(e) => {
                return Err(e);
            },
        };
        proof {
            lemma_parse_address_sound(atyp, rest@);
        }
        let port = match SocksPort::deserialize_from_bytes(&rest[n..rest.len()]) {
            Ok(p) => p,
            Err(e) => {
                return Err(e);
            },
        };
        let data = copy_bytes(&rest[n + 2..rest.len()]);
        proof {
            assert(data@ =~= bytes@.subrange(4 + n + 2, bytes@.len() as int));
        }
        Ok(UdpMessage { rsv: 0, frag, atyp, dst_addr, dst_port: port, data })
    }

    fn serialize_to_bytes(&self) -> (r: Vec<u8>)
        ensures
            r@ == self@.wire(),
    {
        proof {
            use_type_invariant(self);
        }
        let mut r: Vec<u8> = vec![0u8, 0u8, self.frag, self.atyp];
        let addr = self.dst_addr.serialize_to_bytes();
        append_bytes(&mut r, addr.as_slice());
        let port = self.dst_port.serialize_to_bytes();
        append_bytes(&mut r, port.as_slice());
        append_bytes(&mut r, self.data.as_slice());
        proof {
            assert(r@ =~= self@.wire());
        }
        r
    }
}

/// Encoding a well-formed datagram and decoding it again gives the same
/// datagram, payload included.
pub proof fn lemma_datagram_round_trip(d: DatagramView)
    requires
        d.wf(),
    ensures
        parse_datagram(d.wire()) == Ok::<DatagramView, ProtocolError>(d),
{
    let s = d.wire();
    let after = port_bytes(d.port) + d.data;
    assert(s.subrange(4, s.len() as int) =~= d.addr.wire() + after);
    lemma_parse_address_round_trip(d.addr, after);
    let n = 4 + d.addr.wire().len() as int;
    assert(s[n] == port_bytes(d.port)[0]);
    assert(s[n + 1] == port_bytes(d.port)[1]);
    assert(s.subrange(n + 2, s.len() as int) =~= d.data);
}

/// What parsing a datagram finds is well formed.
pub proof fn lemma_parse_datagram_sound(s: Seq<u8>)
    ensures
        parse_datagram(s) matches Ok(d) ==> d.wf(),
{
    if s.len() >= 4 {
        lemma_parse_address_sound(s[3], s.subrange(4, s.len() as int));
    }
}

} // verus!
