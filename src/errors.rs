use vstd::prelude::*;

verus! {

/// Why a frame could not be decoded. Every such error ends the connection
/// it arrived on, and nothing else.
#[derive(Debug, Clone, Copy, PartialEq, Eq, Structural)]
pub enum ProtocolError {
    /// The buffer ended before the frame did.
    Truncated,
    /// The version byte is not 5.
    UnsupportedVersion,
    /// The address-type byte is none of 1 (IPv4), 3 (domain) and 4 (IPv6).
    UnsupportedAddressType,
    /// The command byte is none of 1 (CONNECT), 2 (BIND) and 3 (UDP ASSOCIATE).
    UnsupportedCommand,
}

/// Why an outbound TCP connection to a request's destination was not made.
#[derive(Debug, Clone, Copy, PartialEq, Eq, Structural)]
pub enum ConnectFailure {
    /// The domain name resolved to no address, or the lookup failed.
    Unresolved,
    HostUnreachable,
    ConnectionRefused,
    NetworkUnreachable,
    /// Any other failure of the socket.
    Other,
}

/// A domain name that resolved to no address, or whose lookup failed.
#[derive(Debug, Clone, Copy, PartialEq, Eq, Structural)]
pub struct ResolutionError;

} // verus!
