use vstd::prelude::*;

use crate::consts::{SOCKS5_ADDR_TYPE_DOMAIN_NAME, SOCKS5_ADDR_TYPE_IPV4, SOCKS5_ADDR_TYPE_IPV6};
use crate::buffer::{append_bytes, copy_bytes};
use crate::errors::{ProtocolError, ResolutionError};
use crate::traits::SocksPacket;

verus! {

/// The two bytes of a port on the wire: high byte first (network byte order).
pub open spec fn port_bytes(port: u16) -> Seq<u8> {
    seq![(port / 256) as u8, (port % 256) as u8]
}

/// The port that two wire bytes stand for, the first one being the high byte.
pub open spec fn port_from_bytes(high: u8, low: u8) -> u16 {
    (high * 256 + low) as u16
}

/// Reading back the two bytes of a port gives the port.
pub proof fn lemma_port_bytes_round_trip(port: u16)
    ensures
        port_from_bytes(port_bytes(port)[0], port_bytes(port)[1]) == port,
{
}

/// Combines two wire bytes, high byte first, into a port number.
pub fn calculate_port_number(first: u8, second: u8) -> (r: Option<u16>)
    ensures
        r == Some(port_from_bytes(first, second)),
{
    Some((first as u16) * 256 + (second as u16))
}

/// The four bytes of an IPv4 address or the sixteen of an IPv6 one.
#[derive(Debug, Clone, Copy)]
pub enum IpAddress {
    V4([u8; 4]),
    V6([u8; 16]),
}

/// An IP address and a port, as a socket is bound or connected to.
#[derive(Debug, Clone, Copy)]
pub struct SocketAddress {
    pub ip: IpAddress,
    pub port: u16,
}

/// A destination address in the abstract: which family it is and its bytes.
/// For a domain the bytes are the name, without the length prefix.
pub ghost enum AddressView {
    Ipv4(Seq<u8>),
    Ipv6(Seq<u8>),
    Domain(Seq<u8>),
}

impl AddressView {
    /// Each family holds bytes of the length that the wire allows.
    pub open spec fn wf(self) -> bool {
        match self {
            AddressView::Ipv4(b) => b.len() == 4,
            AddressView::Ipv6(b) => b.len() == 16,
            AddressView::Domain(n) => n.len() <= 255,
        }
    }

    /// The address-type tag that goes before the address on the wire.
    pub open spec fn atyp(self) -> u8 {
        match self {
            AddressView::Ipv4(_) => SOCKS5_ADDR_TYPE_IPV4,
            AddressView::Ipv6(_) => SOCKS5_ADDR_TYPE_IPV6,
            AddressView::Domain(_) => SOCKS5_ADDR_TYPE_DOMAIN_NAME,
        }
    }

    /// The address on the wire, after its tag: the raw bytes of an IP address,
    /// or one length byte followed by the name.
    pub open spec fn wire(self) -> Seq<u8> {
        match self {
            AddressView::Ipv4(b) => b,
            AddressView::Ipv6(b) => b,
            AddressView::Domain(n) => seq![n.len() as u8] + n,
        }
    }
}

impl View for IpAddress {
    type V = AddressView;

    open spec fn view(&self) -> AddressView {
        match self {
            IpAddress::V4(b) => AddressView::Ipv4(b@),
            IpAddress::V6(b) => AddressView::Ipv6(b@),
        }
    }
}

/// A domain name of at most 255 bytes, the most that its length byte can count.
#[derive(Debug)]
pub struct DomainName {
    name: Vec<u8>,
}

impl View for DomainName {
    type V = Seq<u8>;

    closed spec fn view(&self) -> Seq<u8> {
        self.name@
    }
}

impl DomainName {
    #[verifier::type_invariant]
    spec fn fits(self) -> bool {
        self.name@.len() <= 255
    }

    /// The name made of these bytes, or `None` when there are more than 255.
    pub fn new(name: Vec<u8>) -> (r: Option<DomainName>)
        ensures
            r is Some <==> name@.len() <= 255,
            r matches Some(d) ==> d@ == name@,
    {
        if name.len() <= 255 {
            Some(DomainName { name })
        } else {
            None
        }
    }

    pub fn as_bytes(&self) -> (r: &[u8])
        ensures
            r@ == self@,
    {
        self.name.as_slice()
    }

    pub fn len(&self) -> (r: usize)
        ensures
            r == self@.len(),
            r <= 255,
    {
        proof {
            use_type_invariant(self);
        }
        self.name.len()
    }
}

impl Clone for DomainName {
    fn clone(&self) -> (r: Self)
        ensures
            r@ == self@,
    {
        proof {
            use_type_invariant(self);
        }
        DomainName { name: copy_bytes(self.name.as_slice()) }
    }
}

/// A port number, written high byte first.
#[derive(Debug, Clone, Copy)]
pub struct SocksPort(u16);

impl View for SocksPort {
    type V = u16;

    closed spec fn view(&self) -> u16 {
        self.0
    }
}

impl SocksPort {
    pub fn new(port: u16) -> (r: SocksPort)
        ensures
            r@ == port,
    {
        SocksPort(port)
    }

    pub fn value(&self) -> (r: u16)
        ensures
            r == self@,
    {
        self.0
    }
}

impl SocksPacket for SocksPort {
    fn deserialize_from_bytes(bytes: &[u8]) -> (r: Result<SocksPort, ProtocolError>)
        ensures
            r is Err <==> bytes@.len() < 2,
            r matches Err(e) ==> e == ProtocolError::Truncated,
            r matches Ok(p) ==> p@ == port_from_bytes(bytes@[0], bytes@[1]),
    {
        if bytes.len() < 2 {
            Err(ProtocolError::Truncated)
        } else {
            Ok(SocksPort(calculate_port_number(bytes[0], bytes[1]).unwrap()))
        }
    }

    fn serialize_to_bytes(&self) -> (r: Vec<u8>)
        ensures
            r@ == port_bytes(self@),
    {
        let mut r: Vec<u8> = Vec::with_capacity(2);
        r.push((self.0 / 256) as u8);
        r.push((self.0 % 256) as u8);
        proof {
            assert(r@ =~= port_bytes(self@));
        }
        r
    }
}

/// A destination as a request names it: an IP address or a domain name.
#[derive(Debug)]
pub enum SocksAddress {
    IP(IpAddress),
    Domain(DomainName),
}

impl View for SocksAddress {
    type V = AddressView;

    open spec fn view(&self) -> AddressView {
        match self {
            SocksAddress::IP(ip) => ip@,
            SocksAddress::Domain(d) => AddressView::Domain(d@),
        }
    }
}

/// The address of type `atyp` at the start of `s`. It takes `wire().len()` bytes.
pub open spec fn parse_address(atyp: u8, s: Seq<u8>) -> Result<AddressView, ProtocolError> {
    if atyp == SOCKS5_ADDR_TYPE_IPV4 {
        if s.len() < 4 {
            Err(ProtocolError::Truncated)
        } else {
            Ok(AddressView::Ipv4(s.subrange(0, 4)))
        }
    } else if atyp == SOCKS5_ADDR_TYPE_IPV6 {
        if s.len() < 16 {
            Err(ProtocolError::Truncated)
        } else {
            Ok(AddressView::Ipv6(s.subrange(0, 16)))
        }
    } else if atyp == SOCKS5_ADDR_TYPE_DOMAIN_NAME {
        if s.len() < 1 || s.len() < 1 + s[0] {
            Err(ProtocolError::Truncated)
        } else {
            Ok(AddressView::Domain(s.subrange(1, 1 + s[0])))
        }
    } else {
        Err(ProtocolError::UnsupportedAddressType)
    }
}

/// What parsing finds is well formed, carries the tag it was parsed under, and
/// is written back as the bytes it was read from.
pub proof fn lemma_parse_address_sound(atyp: u8, s: Seq<u8>)
    ensures
        parse_address(atyp, s) matches Ok(a) ==> {
            &&& a.wf()
            &&& a.atyp() == atyp
            &&& a.wire().len() <= s.len()
            &&& a.wire() == s.subrange(0, a.wire().len() as int)
        },
{
    if let Ok(a) = parse_address(atyp, s) {
        if let AddressView::Domain(n) = a {
            assert(a.wire() =~= s.subrange(0, a.wire().len() as int));
        }
    }
}

/// Parsing a well-formed address's tag and bytes, whatever follows them,
/// gives the address back.
pub proof fn lemma_parse_address_round_trip(a: AddressView, rest: Seq<u8>)
    requires
        a.wf(),
    ensures
        parse_address(a.atyp(), a.wire() + rest) == Ok::<AddressView, ProtocolError>(a),
{
    let s = a.wire() + rest;
    match a {
        AddressView::Ipv4(b) => {
            assert(s.subrange(0, 4) =~= b);
        },
        AddressView::Ipv6(b) => {
            assert(s.subrange(0, 16) =~= b);
        },
        AddressView::Domain(n) => {
            assert(s[0] == n.len());
            assert(s.subrange(1, 1 + s[0]) =~= n);
        },
    }
}

impl SocksAddress {
    /// Reads the address of type `atyp` at the start of `data`, and says how
    /// many bytes it took.
    pub fn parse_dst_address(atyp: u8, data: &[u8]) -> (r: Result<(SocksAddress, usize), ProtocolError>)
        ensures
            r matches Ok((a, n)) ==> parse_address(atyp, data@) == Ok::<AddressView, ProtocolError>(a@)
                && n == a@.wire().len(),
            r matches Err(e) ==> parse_address(atyp, data@) == Err::<AddressView, ProtocolError>(e),
    {
        if atyp == SOCKS5_ADDR_TYPE_IPV4 {
            if data.len() < 4 {
                return Err(ProtocolError::Truncated);
            }
            let b: [u8; 4] = [data[0], data[1], data[2], data[3]];
            proof {
                assert(b@ =~= data@.subrange(0, 4));
            }
            Ok((SocksAddress::IP(IpAddress::V4(b)), 4))
        } else if atyp == SOCKS5_ADDR_TYPE_IPV6 {
            if data.len() < 16 {
                return Err(ProtocolError::Truncated);
            }
            let b: [u8; 16] = [
                data[0], data[1], data[2], data[3], data[4], data[5], data[6], data[7],
                data[8], data[9], data[10], data[11], data[12], data[13], data[14], data[15],
            ];
            proof {
                assert(b@ =~= data@.subrange(0, 16));
            }
            Ok((SocksAddress::IP(IpAddress::V6(b)), 16))
        } else if atyp == SOCKS5_ADDR_TYPE_DOMAIN_NAME {
            if data.len() < 1 {
                return Err(ProtocolError::Truncated);
            }
            let n: usize = data[0] as usize;
            if data.len() - 1 < n {
                return Err(ProtocolError::Truncated);
            }
            let name = copy_bytes(&data[1..1 + n]);
            let d = DomainName { name };
            Ok((SocksAddress::Domain(d), 1 + n))
        } else {
            Err(ProtocolError::UnsupportedAddressType)
        }
    }

    /// The number of bytes the address takes on the wire.
    pub fn wire_len(&self) -> (r: usize)
        ensures
            r == self@.wire().len(),
            r <= 256,
    {
        match self {
            SocksAddress::IP(IpAddress::V4(_)) => 4,
            SocksAddress::IP(IpAddress::V6(_)) => 16,
            SocksAddress::Domain(d) => 1 + d.len(),
        }
    }

    /// The address-type tag of this address.
    pub fn atyp(&self) -> (r: u8)
        ensures
            r == self@.atyp(),
    {
        match self {
            SocksAddress::IP(IpAddress::V4(_)) => SOCKS5_ADDR_TYPE_IPV4,
            SocksAddress::IP(IpAddress::V6(_)) => SOCKS5_ADDR_TYPE_IPV6,
            SocksAddress::Domain(_) => SOCKS5_ADDR_TYPE_DOMAIN_NAME,
        }
    }

    /// The address on the wire, without its tag.
    pub fn serialize_to_bytes(&self) -> (r: Vec<u8>)
        ensures
            r@ == self@.wire(),
    {
        let mut r: Vec<u8> = Vec::new();
        match self {
            SocksAddress::IP(IpAddress::V4(b)) => {
                append_bytes(&mut r, b);
            },
            SocksAddress::IP(IpAddress::V6(b)) => {
                append_bytes(&mut r, b);
            },
            SocksAddress::Domain(d) => {
                let n = d.len();
                r.push(n as u8);
                append_bytes(&mut r, d.as_bytes());
                proof {
                    assert(r@ =~= self@.wire());
                }
            },
        }
        r
    }

    /// The IP address to connect to when the destination is one; `None` for a
    /// domain name, which must be looked up first.
    pub fn literal_ip(&self) -> (r: Option<IpAddress>)
        ensures
            r is None <==> self@ is Domain,
            r matches Some(ip) ==> ip@ == self@,
    {
        match self {
            SocksAddress::IP(ip) => Some(*ip),
            SocksAddress::Domain(_) => None,
        }
    }

    /// Brings to light that every address of this type is well formed: a
    /// domain name never holds more than 255 bytes.
    pub fn show_well_formed(&self)
        ensures
            self@.wf(),
    {
        if let SocksAddress::Domain(d) = self {
            proof {
                use_type_invariant(d);
            }
        }
    }
}

/// The address a domain name resolves to, given what a lookup of it returned:
/// the first address found. A failed lookup, or one that found nothing, is a
/// resolution error. Taking the first address is a deliberate simplification:
/// no other address is tried.
pub fn first_resolved(found: Result<Vec<IpAddress>, ResolutionError>) -> (r: Result<
    IpAddress,
    ResolutionError,
>)
    ensures
        r is Ok <==> (found matches Ok(v) && v@.len() > 0),
        r matches Ok(ip) ==> ip == found->Ok_0@[0],
{
    match found {
        Ok(v) => {
            if v.len() > 0 {
                Ok(v[0])
            } else {
                Err(ResolutionError)
            }
        },
        Err(e) => Err(e),
    }
}

impl Clone for SocksAddress {
    fn clone(&self) -> (r: Self)
        ensures
            r@ == self@,
    {
        match self {
            SocksAddress::IP(ip) => SocksAddress::IP(*ip),
            SocksAddress::Domain(d) => SocksAddress::Domain(d.clone()),
        }
    }
}

} // verus!
