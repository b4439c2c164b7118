use vstd::prelude::*;

use crate::errors::ProtocolError;

verus! {

/// A frame of the protocol, read from and written to bytes. Each implementation
/// states in its own contract which bytes it reads and writes.
pub trait SocksPacket: Sized {
    /// Reads one frame from the start of `bytes`; bytes after it are left alone.
    fn deserialize_from_bytes(bytes: &[u8]) -> Result<Self, ProtocolError>;

    /// The frame as it goes on the wire.
    fn serialize_to_bytes(&self) -> Vec<u8>;
}

} // verus!
