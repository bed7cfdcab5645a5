mod handle;
mod serializer;

use vstd::prelude::*;

use super::PacketFilter;

verus! {

/// Length of a UDP header.
pub const HEADER_LEN: usize = 8;

/// A UDP datagram.
#[derive(Debug)]
pub struct UdpPacket {
    pub source_port: u16,
    pub destination_port: u16,
    pub length: u16,
    pub checksum: u16,
    pub payload: Vec<u8>,
}

/// The contents of a UDP datagram.
pub struct UdpPacketView {
    pub source_port: u16,
    pub destination_port: u16,
    pub length: u16,
    pub checksum: u16,
    pub payload: Seq<u8>,
}

impl View for UdpPacket {
    type V = UdpPacketView;

    open spec fn view(&self) -> UdpPacketView {
        UdpPacketView {
            source_port: self.source_port,
            destination_port: self.destination_port,
            length: self.length,
            checksum: self.checksum,
            payload: self.payload@,
        }
    }
}

impl UdpPacketView {
    /// The length of the datagram on the wire.
    pub open spec fn size(self) -> int {
        HEADER_LEN + self.payload.len()
    }
}

impl UdpPacket {
    /// The length of the datagram on the wire.
    pub fn size(&self) -> (r: usize)
        requires
            self.payload@.len() <= usize::MAX - HEADER_LEN,
        ensures
            r == self@.size(),
    {
        HEADER_LEN + self.payload.len()
    }

    /// Passes datagrams addressed to `port`.
    pub fn filter(&self, port: u16) -> (r: PacketFilter)
        ensures
            r == (if self.destination_port == port {
                PacketFilter::Pass
            } else {
                PacketFilter::Drop
            }),
    {
        if self.destination_port == port {
            PacketFilter::Pass
        } else {
            PacketFilter::Drop
        }
    }
}

} // verus!
