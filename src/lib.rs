//! A SOCKS5 protocol engine: wire codecs for the handshake, command, reply and
//! UDP datagram frames, and the decisions of a proxy connection, all verified.
//! Sockets, DNS lookups and timers are left to the caller.

pub mod consts;
pub mod errors;
pub mod buffer;
pub mod traits;
pub mod address;
pub mod methods;
pub mod requests;
pub mod replies;
pub mod udp;
pub mod handlers;
pub mod session;
pub mod relay;
