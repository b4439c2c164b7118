use vstd::prelude::*;

use crate::address::{
    lemma_parse_address_round_trip, lemma_parse_address_sound, parse_address,
    port_bytes, port_from_bytes, AddressView, SocketAddress, SocksAddress, SocksPort,
};
use crate::consts::SOCKS5_VERSION;
use crate::buffer::append_bytes;
use crate::errors::ProtocolError;
use crate::traits::SocksPacket;

verus! {

/*
 * Reply codes:
 *   0x00  succeeded
 *   0x01  general SOCKS server failure
 *   0x02  connection not allowed by ruleset
 *   0x03  network unreachable
 *   0x04  host unreachable
 *   0x05  connection refused
 *   0x06  TTL expired
 *   0x07  command not supported
 *   0x08  address type not supported
 *   0x09 to 0xff  unassigned
 */
/// A command reply in the abstract.
pub ghost struct ReplyView {
    pub ver: u8,
    pub rep: u8,
    pub addr: AddressView,
    pub port: u16,
}

impl ReplyView {
    pub open spec fn wf(self) -> bool {
        self.ver == SOCKS5_VERSION && self.addr.wf()
    }

    /// `[VER][REP][RSV=0][ATYP][BND.ADDR][BND.PORT]`
    pub open spec fn wire(self) -> Seq<u8> {
        seq![self.ver, self.rep, 0u8, self.addr.atyp()] + self.addr.wire() + port_bytes(self.port)
    }
}

/// The reply of code `rep` that names `bound` as the proxy's end of the channel.
pub open spec fn reply_view_for(rep: u8, bound: SocketAddress) -> ReplyView {
    ReplyView { ver: SOCKS5_VERSION, rep, addr: bound.ip@, port: bound.port }
}

/// The command reply at the start of `s`. The reserved byte is not looked at;
/// any reply code is taken.
pub open spec fn parse_reply(s: Seq<u8>) -> Result<ReplyView, ProtocolError> {
    if s.len() < 4 {
        Err(ProtocolError::Truncated)
    } else if s[0] != SOCKS5_VERSION {
        Err(ProtocolError::UnsupportedVersion)
    } else {
        match parse_address(s[3], s.subrange(4, s.len() as int)) {
            Err(e) => Err(e),
            Ok(a) => {
                let n = 4 + a.wire().len() as int;
                if s.len() < n + 2 {
                    Err(ProtocolError::Truncated)
                } else {
                    Ok(
                        ReplyView {
                            ver: s[0],
                            rep: s[1],
                            addr: a,
                            port: port_from_bytes(s[n], s[n + 1]),
                        },
                    )
                }
            },
        }
    }
}

/// A command reply as the server sends it.
#[derive(Debug)]
pub struct SocksReply {
    ver: u8,
    rep: u8,
    rsv: u8,
    atyp: u8,
    bnd_addr: SocksAddress,
    bnd_port: SocksPort,
}

impl View for SocksReply {
    type V = ReplyView;

    closed spec fn view(&self) -> ReplyView {
        ReplyView { ver: self.ver, rep: self.rep, addr: self.bnd_addr@, port: self.bnd_port@ }
    }
}

impl SocksReply {
    #[verifier::type_invariant]
    spec fn consistent(self) -> bool {
        &&& self.ver == SOCKS5_VERSION
        &&& self.rsv == 0
        &&& self.atyp == self.bnd_addr@.atyp()
        &&& self.bnd_addr@.wf()
    }

    /// The reply of code `rep` that names `socks_addr` as the bound address.
    pub fn new(rep: u8, socks_addr: SocketAddress) -> (r: SocksReply)
        ensures
            r@ == reply_view_for(rep, socks_addr),
    {
        let bnd_addr = SocksAddress::IP(socks_addr.ip);
        bnd_addr.show_well_formed();
        let atyp = bnd_addr.atyp();
        SocksReply {
            ver: SOCKS5_VERSION,
            rep,
            rsv: 0,
            atyp,
            bnd_addr,
            bnd_port: SocksPort::new(socks_addr.port),
        }
    }

    pub fn get_rep(&self) -> (r: u8)
        ensures
            r == self@.rep,
    {
        self.rep
    }

    pub fn get_bnd_addr(&self) -> (r: SocksAddress)
        ensures
            r@ == self@.addr,
    {
        self.bnd_addr.clone()
    }

    pub fn get_bnd_port(&self) -> (r: u16)
        ensures
            r == self@.port,
    {
        self.bnd_port.value()
    }
}

impl SocksPacket for SocksReply {
    fn deserialize_from_bytes(bytes: &[u8]) -> (r: Result<SocksReply, ProtocolError>)
        ensures
            r matches Ok(q) ==> parse_reply(bytes@) == Ok::<ReplyView, ProtocolError>(q@),
            r matches Err(e) ==> parse_reply(bytes@) == Err::<ReplyView, ProtocolError>(e),
    {
        if bytes.len() < 4 {
            return Err(ProtocolError::Truncated);
        }
        let ver = bytes[0];
        if ver != SOCKS5_VERSION {
            return Err(ProtocolError::UnsupportedVersion);
        }
        let atyp = bytes[3];
        let rest = &bytes[4..bytes.len()];
        let (bnd_addr, n) = match SocksAddress::parse_dst_address(atyp, rest) {
            Ok(parsed) => parsed,
            Err(e) => {
                return Err(e);
            },
        };
        proof {
            lemma_parse_address_sound(atyp, rest@);
        }
        let port = match SocksPort::deserialize_from_bytes(&rest[n..rest.len()]) {
            Ok(p) => p,
            Err(e) => {
                return Err(e);
            },
        };
        Ok(SocksReply { ver, rep: bytes[1], rsv: 0, atyp, bnd_addr, bnd_port: port })
    }

    fn serialize_to_bytes(&self) -> (r: Vec<u8>)
        ensures
            r@ == self@.wire(),
    {
        proof {
            use_type_invariant(self);
        }
        let mut r: Vec<u8> = vec![self.ver, self.rep, self.rsv, self.atyp];
        let addr = self.bnd_addr.serialize_to_bytes();
        append_bytes(&mut r, addr.as_slice());
        let port = self.bnd_port.serialize_to_bytes();
        append_bytes(&mut r, port.as_slice());
        proof {
            assert(r@ =~= self@.wire());
        }
        r
    }
}

/// Encoding a well-formed reply and decoding it again gives the same reply.
pub proof fn lemma_reply_round_trip(q: ReplyView, rest: Seq<u8>)
    requires
        q.wf(),
    ensures
        parse_reply(q.wire() + rest) == Ok::<ReplyView, ProtocolError>(q),
{
    let s = q.wire() + rest;
    let after = port_bytes(q.port) + rest;
    assert(s.subrange(4, s.len() as int) =~= q.addr.wire() + after);
    lemma_parse_address_round_trip(q.addr, after);
    let n = 4 + q.addr.wire().len() as int;
    assert(s[n] == port_bytes(q.port)[0]);
    assert(s[n + 1] == port_bytes(q.port)[1]);
}

} // verus!
