use vstd::prelude::*;

use crate::error::PacketError;
use crate::ip::{Deserialize, Serialize};
use crate::util::byte_extension::{
    be16, be16_bytes, copy_from, lemma_be16_bytes_of, lemma_be16_bytes_roundtrip, push_be16,
    push_bytes, u16_from_be,
};

use super::{UdpPacket, UdpPacketView, HEADER_LEN};

verus! {

impl UdpPacketView {
    /// The datagram on the wire.
    pub open spec fn bytes(self) -> Seq<u8> {
        be16_bytes(self.source_port) + be16_bytes(self.destination_port) + be16_bytes(self.length)
            + be16_bytes(self.checksum) + self.payload
    }

    /// What reading a datagram from `buf` gives.
    pub open spec fn parse(buf: Seq<u8>) -> Result<UdpPacketView, PacketError> {
        if buf.len() < HEADER_LEN {
            Err(PacketError::InvalidUdp)
        } else {
            Ok(
                UdpPacketView {
                    source_port: be16(buf[0], buf[1]),
                    destination_port: be16(buf[2], buf[3]),
                    length: be16(buf[4], buf[5]),
                    checksum: be16(buf[6], buf[7]),
                    payload: buf.skip(8),
                },
            )
        }
    }

    /// Reading back a written datagram gives the same datagram.
    pub proof fn lemma_parse_serialize(self)
        ensures
            UdpPacketView::parse(self.bytes()) == Ok::<UdpPacketView, PacketError>(self),
    {
        let b = self.bytes();
        lemma_be16_bytes_roundtrip(self.source_port);
        assert(b[0] == be16_bytes(self.source_port)[0] && b[1] == be16_bytes(self.source_port)[1]);
        lemma_be16_bytes_roundtrip(self.destination_port);
        assert(b[2] == be16_bytes(self.destination_port)[0] && b[3] == be16_bytes(self.destination_port)[1]);
        lemma_be16_bytes_roundtrip(self.length);
        assert(b[4] == be16_bytes(self.length)[0] && b[5] == be16_bytes(self.length)[1]);
        lemma_be16_bytes_roundtrip(self.checksum);
        assert(b[6] == be16_bytes(self.checksum)[0] && b[7] == be16_bytes(self.checksum)[1]);
        assert(b.skip(8) =~= self.payload);
    }

    /// Writing a datagram that was read gives back the bytes read.
    pub proof fn lemma_serialize_parse(buf: Seq<u8>)
        requires
            UdpPacketView::parse(buf) is Ok,
        ensures
            UdpPacketView::parse(buf)->Ok_0.bytes() == buf,
    {
        lemma_be16_bytes_of(buf[0], buf[1]);
        lemma_be16_bytes_of(buf[2], buf[3]);
        lemma_be16_bytes_of(buf[4], buf[5]);
        lemma_be16_bytes_of(buf[6], buf[7]);
        assert(UdpPacketView::parse(buf)->Ok_0.bytes() =~= buf);
    }
}

impl Serialize for UdpPacket {
    open spec fn wire(&self) -> Seq<u8> {
        self@.bytes()
    }

    fn serialize(self, buf: &mut Vec<u8>) {
        push_be16(buf, self.source_port);
        push_be16(buf, self.destination_port);
        push_be16(buf, self.length);
        push_be16(buf, self.checksum);
        push_bytes(buf, self.payload.as_slice());
        assert(final(buf)@ =~= old(buf)@ + self@.bytes());
    }
}

impl Deserialize for UdpPacket {
    open spec fn deserialize_requires(buf: Seq<u8>) -> bool {
        true
    }

    open spec fn spec_deserialize(buf: Seq<u8>) -> Result<UdpPacketView, PacketError> {
        UdpPacketView::parse(buf)
    }

    fn deserialize(buf: &[u8]) -> (r: Result<Self, PacketError>) {
        if buf.len() < HEADER_LEN {
            return Err(PacketError::InvalidUdp);
        }
        Ok(
            Self {
                source_port: u16_from_be(buf[0], buf[1]),
                destination_port: u16_from_be(buf[2], buf[3]),
                length: u16_from_be(buf[4], buf[5]),
                checksum: u16_from_be(buf[6], buf[7]),
                payload: copy_from(buf, 8),
            },
        )
    }
}

} // verus!
