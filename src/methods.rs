use vstd::prelude::*;

use crate::buffer::{append_bytes, copy_bytes};
use crate::consts::{SOCKS5_AUTH_METHOD_NONE, SOCKS5_AUTH_METHOD_NOT_ACCEPTABLE, SOCKS5_VERSION};
use crate::errors::ProtocolError;
use crate::traits::SocksPacket;

verus! {

/// A method-selection request in the abstract: its version and the method codes
/// it offers, in order, duplicates kept.
pub ghost struct MethodRequestView {
    pub ver: u8,
    pub methods: Seq<u8>,
}

impl MethodRequestView {
    pub open spec fn wf(self) -> bool {
        self.ver == SOCKS5_VERSION && self.methods.len() <= 255
    }

    /// `[VER][NMETHODS][METHODS...]`
    pub open spec fn wire(self) -> Seq<u8> {
        seq![self.ver, self.methods.len() as u8] + self.methods
    }
}

/// The method-selection request at the start of `s`.
pub open spec fn parse_method_request(s: Seq<u8>) -> Result<MethodRequestView, ProtocolError> {
    if s.len() < 2 {
        Err(ProtocolError::Truncated)
    } else if s[0] != SOCKS5_VERSION {
        Err(ProtocolError::UnsupportedVersion)
    } else if s.len() < 2 + s[1] {
        Err(ProtocolError::Truncated)
    } else {
        Ok(MethodRequestView { ver: s[0], methods: s.subrange(2, 2 + s[1]) })
    }
}

/// The method the server picks among those offered: no authentication when it
/// is offered, else the code for "no acceptable method".
pub open spec fn chosen_method(methods: Seq<u8>) -> u8 {
    if methods.contains(SOCKS5_AUTH_METHOD_NONE) {
        SOCKS5_AUTH_METHOD_NONE
    } else {
        SOCKS5_AUTH_METHOD_NOT_ACCEPTABLE
    }
}

/// A method-selection request as a client sends it.
#[derive(Debug)]
pub struct MethodRequest {
    ver: u8,
    n_methods: u8,
    methods: Vec<u8>,
}

impl View for MethodRequest {
    type V = MethodRequestView;

    closed spec fn view(&self) -> MethodRequestView {
        MethodRequestView { ver: self.ver, methods: self.methods@ }
    }
}

impl MethodRequest {
    #[verifier::type_invariant]
    spec fn counted(self) -> bool {
        &&& self.ver == SOCKS5_VERSION
        &&& self.methods@.len() == self.n_methods
    }

    /// The number of bytes the request takes on the wire.
    pub fn wire_len(&self) -> (r: usize)
        ensures
            r == self@.wire().len(),
    {
        proof {
            use_type_invariant(self);
        }
        2 + self.n_methods as usize
    }

    /// Whether `method` is among the offered methods.
    pub fn method_exists(&self, method: u8) -> (r: bool)
        ensures
            r == self@.methods.contains(method),
    {
        let mut i: usize = 0;
        while i < self.methods.len()
            invariant
                i <= self.methods@.len(),
                forall|j: int| 0 <= j < i ==> self.methods@[j] != method,
            decreases self.methods@.len() - i,
        {
            if self.methods[i] == method {
                return true;
            }
            i = i + 1;
        }
        false
    }
}

impl SocksPacket for MethodRequest {
    fn deserialize_from_bytes(bytes: &[u8]) -> (r: Result<MethodRequest, ProtocolError>)
        ensures
            r matches Ok(m) ==> parse_method_request(bytes@) == Ok::<MethodRequestView, ProtocolError>(m@),
            r matches Err(e) ==> parse_method_request(bytes@) == Err::<MethodRequestView, ProtocolError>(e),
    {
        if bytes.len() < 2 {
            return Err(ProtocolError::Truncated);
        }
        if bytes[0] != SOCKS5_VERSION {
            return Err(ProtocolError::UnsupportedVersion);
        }
        let n_methods = bytes[1];
        if bytes.len() - 2 < n_methods as usize {
            return Err(ProtocolError::Truncated);
        }
        let end: usize = n_methods as usize + 2;
        let methods = copy_bytes(&bytes[2..end]);
        Ok(MethodRequest { ver: bytes[0], n_methods, methods })
    }

    fn serialize_to_bytes(&self) -> (r: Vec<u8>)
        ensures
            r@ == self@.wire(),
    {
        proof {
            use_type_invariant(self);
        }
        let mut r: Vec<u8> = Vec::new();
        r.push(self.ver);
        r.push(self.n_methods);
        append_bytes(&mut r, self.methods.as_slice());
        proof {
            assert(r@ =~= self@.wire());
        }
        r
    }
}

/// A method-selection reply in the abstract.
pub ghost struct MethodReplyView {
    pub ver: u8,
    pub method: u8,
}

impl MethodReplyView {
    /// `[VER][METHOD]`
    pub open spec fn wire(self) -> Seq<u8> {
        seq![self.ver, self.method]
    }
}

/// The method-selection reply at the start of `s`.
pub open spec fn parse_method_reply(s: Seq<u8>) -> Result<MethodReplyView, ProtocolError> {
    if s.len() < 2 {
        Err(ProtocolError::Truncated)
    } else if s[0] != SOCKS5_VERSION {
        Err(ProtocolError::UnsupportedVersion)
    } else {
        Ok(MethodReplyView { ver: s[0], method: s[1] })
    }
}

/*
 * Method codes:
 *   0x00          no authentication required
 *   0x01          GSSAPI
 *   0x02          username/password
 *   0x03 to 0x7f  IANA assigned
 *   0x80 to 0xfe  reserved for private methods
 *   0xff          no acceptable methods
 */
/// A method-selection reply as the server sends it.
#[derive(Debug)]
pub struct MethodReply {
    ver: u8,
    method: u8,
}

impl View for MethodReply {
    type V = MethodReplyView;

    closed spec fn view(&self) -> MethodReplyView {
        MethodReplyView { ver: self.ver, method: self.method }
    }
}

impl MethodReply {
    #[verifier::type_invariant]
    spec fn versioned(self) -> bool {
        self.ver == SOCKS5_VERSION
    }

    pub fn new(method: u8) -> (r: MethodReply)
        ensures
            r@ == (MethodReplyView { ver: SOCKS5_VERSION, method }),
    {
        MethodReply { ver: SOCKS5_VERSION, method }
    }

    pub fn method(&self) -> (r: u8)
        ensures
            r == self@.method,
    {
        self.method
    }
}

impl SocksPacket for MethodReply {
    fn deserialize_from_bytes(bytes: &[u8]) -> (r: Result<MethodReply, ProtocolError>)
        ensures
            r matches Ok(m) ==> parse_method_reply(bytes@) == Ok::<MethodReplyView, ProtocolError>(m@),
            r matches Err(e) ==> parse_method_reply(bytes@) == Err::<MethodReplyView, ProtocolError>(e),
    {
        if bytes.len() < 2 {
            return Err(ProtocolError::Truncated);
        }
        if bytes[0] != SOCKS5_VERSION {
            return Err(ProtocolError::UnsupportedVersion);
        }
        Ok(MethodReply { ver: bytes[0], method: bytes[1] })
    }

    fn serialize_to_bytes(&self) -> (r: Vec<u8>)
        ensures
            r@ == self@.wire(),
    {
        let r: Vec<u8> = vec![self.ver, self.method];
        proof {
            assert(r@ =~= self@.wire());
        }
        r
    }
}

/// A well-formed method-selection request reads back as itself, whatever
/// follows it.
pub proof fn lemma_method_request_round_trip(m: MethodRequestView, rest: Seq<u8>)
    requires
        m.wf(),
    ensures
        parse_method_request(m.wire() + rest) == Ok::<MethodRequestView, ProtocolError>(m),
{
    let s = m.wire() + rest;
    assert(s.subrange(2, 2 + s[1]) =~= m.methods);
}

/// A decoded method-selection request takes no more bytes than were given, and
/// 257 bytes always hold a whole request or a fault other than truncation.
pub proof fn lemma_method_request_length(s: Seq<u8>)
    ensures
        parse_method_request(s) matches Ok(m) ==> m.wire().len() <= s.len(),
        s.len() >= 257 ==> parse_method_request(s) != Err::<MethodRequestView, ProtocolError>(
            ProtocolError::Truncated,
        ),
{
}

/// A method-selection reply of version 5 reads back as itself.
pub proof fn lemma_method_reply_round_trip(m: MethodReplyView, rest: Seq<u8>)
    requires
        m.ver == SOCKS5_VERSION,
    ensures
        parse_method_reply(m.wire() + rest) == Ok::<MethodReplyView, ProtocolError>(m),
{
}

} // verus!
