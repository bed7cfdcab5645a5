mod handle;
mod serializer;

use vstd::prelude::*;

use super::IpPayload;

verus! {

/// Length of an ICMP header.
pub const HEADER_LEN: usize = 8;

/// The ICMP message types this stack knows.
#[derive(Clone, Copy, PartialEq, Eq, Structural, Debug)]
pub enum IcmpType {
    EchoReply,
    EchoRequest,
    /// Any other type; written as 9.
    Unknown,
}

impl IcmpType {
    /// The type number written on the wire.
    pub open spec fn number(self) -> u8 {
        match self {
            IcmpType::EchoReply => 0,
            IcmpType::EchoRequest => 8,
            IcmpType::Unknown => 9,
        }
    }

    /// The type that a number on the wire names.
    pub open spec fn from_number(n: u8) -> IcmpType {
        if n == 0 {
            IcmpType::EchoReply
        } else if n == 8 {
            IcmpType::EchoRequest
        } else {
            IcmpType::Unknown
        }
    }

    /// Reads a type number.
    pub fn from_u8(n: u8) -> (r: IcmpType)
        ensures
            r == IcmpType::from_number(n),
    {
        if n == 0 {
            IcmpType::EchoReply
        } else if n == 8 {
            IcmpType::EchoRequest
        } else {
            IcmpType::Unknown
        }
    }

    /// The type number to write.
    pub fn to_u8(&self) -> (r: u8)
        ensures
            r == self.number(),
    {
        match self {
            IcmpType::EchoReply => 0,
            IcmpType::EchoRequest => 8,
            IcmpType::Unknown => 9,
        }
    }
}

/// An ICMP message.
#[derive(Debug)]
pub struct IcmpPacket {
    pub icmp_type: IcmpType,
    pub code: u8,
    pub checksum: u16,
    pub identifier: u16,
    pub sequence_number: u16,
    pub payload: Vec<u8>,
}

/// The contents of an ICMP message.
pub struct IcmpPacketView {
    pub icmp_type: IcmpType,
    pub code: u8,
    pub checksum: u16,
    pub identifier: u16,
    pub sequence_number: u16,
    pub payload: Seq<u8>,
}

impl View for IcmpPacket {
    type V = IcmpPacketView;

    open spec fn view(&self) -> IcmpPacketView {
        IcmpPacketView {
            icmp_type: self.icmp_type,
            code: self.code,
            checksum: self.checksum,
            identifier: self.identifier,
            sequence_number: self.sequence_number,
            payload: self.payload@,
        }
    }
}

impl IcmpPacketView {
    /// The length of the message on the wire.
    pub open spec fn size(self) -> int {
        HEADER_LEN + self.payload.len()
    }
}

impl IcmpPacket {
    /// The length of the message on the wire.
    pub fn size(&self) -> (r: usize)
        requires
            self.payload@.len() <= usize::MAX - HEADER_LEN,
        ensures
            r == self@.size(),
    {
        HEADER_LEN + self.payload.len()
    }
}

impl From<IcmpPacket> for IpPayload {
    fn from(packet: IcmpPacket) -> (r: IpPayload)
        ensures
            r == IpPayload::Icmp(packet),
    {
        IpPayload::Icmp(packet)
    }
}

impl vstd::std_specs::convert::FromSpecImpl<IcmpPacket> for IpPayload {
    open spec fn obeys_from_spec() -> bool {
        true
    }

    open spec fn from_spec(packet: IcmpPacket) -> IpPayload {
        IpPayload::Icmp(packet)
    }
}

} // verus!
