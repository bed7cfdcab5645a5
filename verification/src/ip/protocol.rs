use vstd::prelude::*;

verus! {

/// The transport protocol carried by an IPv4 packet.
#[derive(Clone, Copy, PartialEq, Eq, Structural, Debug)]
pub enum Protocol {
    Icmp,
    Tcp,
    Udp,
    /// Any other protocol number.
    Unknown,
}

impl Protocol {
    /// The protocol number written on the wire; `Unknown` is written as 18.
    pub open spec fn number(self) -> u8 {
        match self {
            Protocol::Icmp => 1,
            Protocol::Tcp => 6,
            Protocol::Udp => 17,
            Protocol::Unknown => 18,
        }
    }

    /// The protocol that a number on the wire names.
    pub open spec fn from_number(n: u8) -> Protocol {
        if n == 1 {
            Protocol::Icmp
        } else if n == 6 {
            Protocol::Tcp
        } else if n == 17 {
            Protocol::Udp
        } else {
            Protocol::Unknown
        }
    }

    /// Reads a protocol number.
    pub fn from_u8(n: u8) -> (r: Protocol)
        ensures
            r == Protocol::from_number(n),
    {
        if n == 1 {
            Protocol::Icmp
        } else if n == 6 {
            Protocol::Tcp
        } else if n == 17 {
            Protocol::Udp
        } else {
            Protocol::Unknown
        }
    }

    /// The protocol number to write.
    pub fn to_u8(&self) -> (r: u8)
        ensures
            r == self.number(),
    {
        match self {
            Protocol::Icmp => 1,
            Protocol::Tcp => 6,
            Protocol::Udp => 17,
            Protocol::Unknown => 18,
        }
    }
}

/// Reading the number that a protocol is written as gives it back.
pub proof fn lemma_protocol_number_roundtrip(p: Protocol)
    ensures
        Protocol::from_number(p.number()) == p,
{
}

} // verus!
