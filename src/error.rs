use vstd::prelude::*;

verus! {

/// Why a decode failed.
#[derive(Debug, Clone, Copy, PartialEq, Eq, Structural)]
pub enum Error {
    /// The error code byte of an `Error` packet names no known response code.
    InvalidResponseCode(u8),
    /// The tag byte of a packet names no known packet variant.
    InvalidPacketType(u8),
    /// The input ended before a packet field was complete.
    PacketDeserialize,
    /// The input ended before an identity field was complete.
    IdentityDeserialize,
    /// The identity's name bytes are not valid UTF-8.
    IdentityInvalidName,
    /// The input ended before the two state bytes were read.
    StateDeserializeFailed,
}

} // verus!
