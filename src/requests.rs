use vstd::prelude::*;

use crate::address::{
    lemma_parse_address_round_trip, lemma_parse_address_sound, parse_address,
    port_bytes, port_from_bytes, AddressView, SocksAddress, SocksPort,
};
use crate::consts::{
    SOCKS5_ADDR_TYPE_DOMAIN_NAME, SOCKS5_ADDR_TYPE_IPV4, SOCKS5_ADDR_TYPE_IPV6,
    SOCKS5_CMD_TCP_BIND, SOCKS5_CMD_TCP_CONNECT, SOCKS5_CMD_UDP_ASSOCIATE, SOCKS5_VERSION,
};
use crate::buffer::append_bytes;
use crate::errors::ProtocolError;
use crate::traits::SocksPacket;

verus! {

/// The three commands of the protocol.
#[derive(Debug, Clone, Copy, PartialEq, Eq, Structural)]
pub enum SocksCommand {
    TCPConnect,
    TCPBind,
    UDPAssociate,
}

/// The command's code on the wire.
pub open spec fn command_code(c: SocksCommand) -> u8 {
    match c {
        SocksCommand::TCPConnect => SOCKS5_CMD_TCP_CONNECT,
        SocksCommand::TCPBind => SOCKS5_CMD_TCP_BIND,
        SocksCommand::UDPAssociate => SOCKS5_CMD_UDP_ASSOCIATE,
    }
}

/// The command that a wire code stands for, if any.
pub open spec fn command_of(code: u8) -> Option<SocksCommand> {
    if code == SOCKS5_CMD_TCP_CONNECT {
        Some(SocksCommand::TCPConnect)
    } else if code == SOCKS5_CMD_TCP_BIND {
        Some(SocksCommand::TCPBind)
    } else if code == SOCKS5_CMD_UDP_ASSOCIATE {
        Some(SocksCommand::UDPAssociate)
    } else {
        None
    }
}

impl SocksCommand {
    pub fn as_u8(&self) -> (r: u8)
        ensures
            r == command_code(*self),
    {
        match self {
            SocksCommand::TCPConnect => SOCKS5_CMD_TCP_CONNECT,
            SocksCommand::TCPBind => SOCKS5_CMD_TCP_BIND,
            SocksCommand::UDPAssociate => SOCKS5_CMD_UDP_ASSOCIATE,
        }
    }

    /// The command of this code, or `None` for a code the protocol does not define.
    pub fn from_u8(number: u8) -> (r: Option<SocksCommand>)
        ensures
            r == command_of(number),
    {
        if number == SOCKS5_CMD_TCP_CONNECT {
            Some(SocksCommand::TCPConnect)
        } else if number == SOCKS5_CMD_TCP_BIND {
            Some(SocksCommand::TCPBind)
        } else if number == SOCKS5_CMD_UDP_ASSOCIATE {
            Some(SocksCommand::UDPAssociate)
        } else {
            None
        }
    }
}

/// A command request in the abstract.
pub ghost struct RequestView {
    pub ver: u8,
    pub cmd: SocksCommand,
    pub addr: AddressView,
    pub port: u16,
}

impl RequestView {
    pub open spec fn wf(self) -> bool {
        self.ver == SOCKS5_VERSION && self.addr.wf()
    }

    /// `[VER][CMD][RSV=0][ATYP][DST.ADDR][DST.PORT]`
    pub open spec fn wire(self) -> Seq<u8> {
        seq![self.ver, command_code(self.cmd), 0u8, self.addr.atyp()] + self.addr.wire()
            + port_bytes(self.port)
    }
}

/// The command request at the start of `s`. The reserved byte is not looked at.
pub open spec fn parse_request(s: Seq<u8>) -> Result<RequestView, ProtocolError> {
    if s.len() < 4 {
        Err(ProtocolError::Truncated)
    } else if s[0] != SOCKS5_VERSION {
        Err(ProtocolError::UnsupportedVersion)
    } else if command_of(s[1]) is None {
        Err(ProtocolError::UnsupportedCommand)
    } else {
        match parse_address(s[3], s.subrange(4, s.len() as int)) {
            Err(e) => Err(e),
            Ok(a) => {
                let n = 4 + a.wire().len() as int;
                if s.len() < n + 2 {
                    Err(ProtocolError::Truncated)
                } else {
                    Ok(
                        RequestView {
                            ver: s[0],
                            cmd: command_of(s[1])->0,
                            addr: a,
                            port: port_from_bytes(s[n], s[n + 1]),
                        },
                    )
                }
            },
        }
    }
}

/// A command request as a client sends it.
#[derive(Debug)]
pub struct SocksRequest {
    ver: u8,
    cmd: SocksCommand,
    atyp: u8,
    dst_address: SocksAddress,
    dst_port: SocksPort,
}

impl View for SocksRequest {
    type V = RequestView;

    closed spec fn view(&self) -> RequestView {
        RequestView {
            ver: self.ver,
            cmd: self.cmd,
            addr: self.dst_address@,
            port: self.dst_port@,
        }
    }
}

impl SocksRequest {
    #[verifier::type_invariant]
    spec fn consistent(self) -> bool {
        &&& self.ver == SOCKS5_VERSION
        &&& self.atyp == self.dst_address@.atyp()
        &&& self.dst_address@.wf()
    }

    /// A version-5 request of `cmd` for `address` and `port`.
    pub fn new(cmd: SocksCommand, address: SocksAddress, port: u16) -> (r: SocksRequest)
        ensures
            r@ == (RequestView { ver: SOCKS5_VERSION, cmd, addr: address@, port }),
    {
        address.show_well_formed();
        let atyp = address.atyp();
        SocksRequest {
            ver: SOCKS5_VERSION,
            cmd,
            atyp,
            dst_address: address,
            dst_port: SocksPort::new(port),
        }
    }

    /// The number of bytes the request takes on the wire.
    pub fn wire_len(&self) -> (r: usize)
        ensures
            r == self@.wire().len(),
    {
        4 + self.dst_address.wire_len() + 2
    }

    pub fn get_dst_addr(&self) -> (r: SocksAddress)
        ensures
            r@ == self@.addr,
    {
        self.dst_address.clone()
    }

    pub fn get_dst_port(&self) -> (r: u16)
        ensures
            r == self@.port,
    {
        self.dst_port.value()
    }

    pub fn get_cmd(&self) -> (r: SocksCommand)
        ensures
            r == self@.cmd,
    {
        self.cmd
    }

    pub fn get_ver(&self) -> (r: u8)
        ensures
            r == self@.ver,
    {
        self.ver
    }
}

impl SocksPacket for SocksRequest {
    fn deserialize_from_bytes(bytes: &[u8]) -> (r: Result<SocksRequest, ProtocolError>)
        ensures
            r matches Ok(q) ==> parse_request(bytes@) == Ok::<RequestView, ProtocolError>(q@),
            r matches Err(e) ==> parse_request(bytes@) == Err::<RequestView, ProtocolError>(e),
    {
        if bytes.len() < 4 {
            return Err(ProtocolError::Truncated);
        }
        let ver = bytes[0];
        if ver != SOCKS5_VERSION {
            return Err(ProtocolError::UnsupportedVersion);
        }
        let cmd = match SocksCommand::from_u8(bytes[1]) {
            Some(c) => c,
            None => {
                return Err(ProtocolError::UnsupportedCommand);
            },
        };
        let atyp = bytes[3];
        let rest = &bytes[4..bytes.len()];
        let (dst_address, n) = match SocksAddress::parse_dst_address(atyp, rest) {
            Ok(parsed) => parsed,
            Err(e) => {
                return Err(e);
            },
        };
        proof {
            lemma_parse_address_sound(atyp, rest@);
        }
        let port = match SocksPort::deserialize_from_bytes(&rest[n..rest.len()]) {
            Ok(p) => p,
            Err(e) => {
                return Err(e);
            },
        };
        Ok(SocksRequest { ver, cmd, atyp, dst_address, dst_port: port })
    }

    fn serialize_to_bytes(&self) -> (r: Vec<u8>)
        ensures
            r@ == self@.wire(),
    {
        proof {
            use_type_invariant(self);
        }
        let mut r: Vec<u8> = vec![self.ver, self.cmd.as_u8(), 0u8, self.atyp];
        let addr = self.dst_address.serialize_to_bytes();
        append_bytes(&mut r, addr.as_slice());
        let port = self.dst_port.serialize_to_bytes();
        append_bytes(&mut r, port.as_slice());
        proof {
            assert(r@ =~= self@.wire());
        }
        r
    }
}

/// Encoding a well-formed request and decoding it again gives the same request,
/// for each of the three address types, whatever bytes follow it.
pub proof fn lemma_request_round_trip(q: RequestView, rest: Seq<u8>)
    requires
        q.wf(),
    ensures
        parse_request(q.wire() + rest) == Ok::<RequestView, ProtocolError>(q),
{
    let s = q.wire() + rest;
    let tail = s.subrange(4, s.len() as int);
    let after = port_bytes(q.port) + rest;
    assert(tail =~= q.addr.wire() + after);
    lemma_parse_address_round_trip(q.addr, after);
    let n = 4 + q.addr.wire().len() as int;
    assert(s[n] == port_bytes(q.port)[0]);
    assert(s[n + 1] == port_bytes(q.port)[1]);
}

/// A decoded request takes no more bytes than were given, and 262 bytes always
/// hold a whole request or a fault other than truncation.
pub proof fn lemma_request_length(s: Seq<u8>)
    ensures
        parse_request(s) matches Ok(q) ==> q.wire().len() <= s.len(),
        s.len() >= 262 ==> parse_request(s) != Err::<RequestView, ProtocolError>(
            ProtocolError::Truncated,
        ),
{
    if s.len() >= 4 {
        lemma_parse_address_sound(s[3], s.subrange(4, s.len() as int));
    }
}

/// A request with a good header but an address type other than IPv4 (1),
/// domain (3) and IPv6 (4) is refused as an unsupported address type.
pub proof fn lemma_request_unsupported_address_type(s: Seq<u8>)
    requires
        s.len() >= 4,
        s[0] == SOCKS5_VERSION,
        command_of(s[1]) is Some,
        s[3] != SOCKS5_ADDR_TYPE_IPV4,
        s[3] != SOCKS5_ADDR_TYPE_DOMAIN_NAME,
        s[3] != SOCKS5_ADDR_TYPE_IPV6,
    ensures
        parse_request(s) == Err::<RequestView, ProtocolError>(ProtocolError::UnsupportedAddressType),
{
}

} // verus!
