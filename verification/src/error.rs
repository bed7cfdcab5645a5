use vstd::prelude::*;

verus! {

/// Why a received frame could not be turned into a packet.
#[derive(Debug, Clone, Copy, PartialEq, Eq, Structural)]
pub enum PacketError {
    /// The frame is not a supported IPv4 packet; it is dropped without a word.
    PacketDropSilent,
    /// An ICMP message shorter than its 8-byte header.
    IcmpTooShort,
    /// A UDP datagram shorter than its 8-byte header.
    InvalidUdp,
    /// A TCP segment shorter than its 20-byte header.
    InvalidTcp,
}

impl PacketError {
    /// Whether the error is dropped silently rather than reported.
    pub fn is_silent(&self) -> (r: bool)
        ensures
            r <==> *self == PacketError::PacketDropSilent,
    {
        match self {
            PacketError::PacketDropSilent => true,
            _ => false,
        }
    }
}

} // verus!
