use vstd::prelude::*;

use crate::error::PacketError;
use crate::ip::{Deserialize, Serialize};
use crate::util::byte_extension::{
    be16, be16_bytes, copy_from, lemma_be16_bytes_of, lemma_be16_bytes_roundtrip, push_be16,
    push_bytes, u16_from_be,
};

use super::{IcmpPacket, IcmpPacketView, IcmpType, HEADER_LEN};

verus! {

impl IcmpPacketView {
    /// The message on the wire.
    pub open spec fn bytes(self) -> Seq<u8> {
        seq![self.icmp_type.number(), self.code] + be16_bytes(self.checksum) + be16_bytes(
            self.identifier,
        ) + be16_bytes(self.sequence_number) + self.payload
    }

    /// What reading a message from `buf` gives.
    pub open spec fn parse(buf: Seq<u8>) -> Result<IcmpPacketView, PacketError> {
        if buf.len() < HEADER_LEN {
            Err(PacketError::IcmpTooShort)
        } else {
            Ok(
                IcmpPacketView {
                    icmp_type: IcmpType::from_number(buf[0]),
                    code: buf[1],
                    checksum: be16(buf[2], buf[3]),
                    identifier: be16(buf[4], buf[5]),
                    sequence_number: be16(buf[6], buf[7]),
                    payload: buf.skip(8),
                },
            )
        }
    }

    /// Reading back a written message gives the same message.
    pub proof fn lemma_parse_serialize(self)
        ensures
            IcmpPacketView::parse(self.bytes()) == Ok::<IcmpPacketView, PacketError>(self),
    {
        let b = self.bytes();
        lemma_be16_bytes_roundtrip(self.checksum);
        assert(b[2] == be16_bytes(self.checksum)[0] && b[3] == be16_bytes(self.checksum)[1]);
        lemma_be16_bytes_roundtrip(self.identifier);
        assert(b[4] == be16_bytes(self.identifier)[0] && b[5] == be16_bytes(self.identifier)[1]);
        lemma_be16_bytes_roundtrip(self.sequence_number);
        assert(b[6] == be16_bytes(self.sequence_number)[0] && b[7] == be16_bytes(self.sequence_number)[1]);
        assert(b[0] == self.icmp_type.number() && b[1] == self.code);
        assert(IcmpType::from_number(self.icmp_type.number()) == self.icmp_type);
        assert(b.skip(8) =~= self.payload);
    }

    /// Writing a message that was read gives back the bytes read, when its
    /// type number is one that the message keeps.
    pub proof fn lemma_serialize_parse(buf: Seq<u8>)
        requires
            IcmpPacketView::parse(buf) is Ok,
            buf[0] == 0 || buf[0] == 8 || buf[0] == 9,
        ensures
            IcmpPacketView::parse(buf)->Ok_0.bytes() == buf,
    {
        lemma_be16_bytes_of(buf[2], buf[3]);
        lemma_be16_bytes_of(buf[4], buf[5]);
        lemma_be16_bytes_of(buf[6], buf[7]);
        assert(IcmpPacketView::parse(buf)->Ok_0.bytes() =~= buf);
    }
}

impl Serialize for IcmpPacket {
    open spec fn wire(&self) -> Seq<u8> {
        self@.bytes()
    }

    fn serialize(self, buf: &mut Vec<u8>) {
        buf.push(self.icmp_type.to_u8());
        buf.push(self.code);
        push_be16(buf, self.checksum);
        push_be16(buf, self.identifier);
        push_be16(buf, self.sequence_number);
        push_bytes(buf, self.payload.as_slice());
        assert(final(buf)@ =~= old(buf)@ + self@.bytes());
    }
}

impl Deserialize for IcmpPacket {
    open spec fn deserialize_requires(buf: Seq<u8>) -> bool {
        true
    }

    open spec fn spec_deserialize(buf: Seq<u8>) -> Result<IcmpPacketView, PacketError> {
        IcmpPacketView::parse(buf)
    }

    fn deserialize(buf: &[u8]) -> (r: Result<Self, PacketError>) {
        if buf.len() < HEADER_LEN {
            return Err(PacketError::IcmpTooShort);
        }
        Ok(
            Self {
                icmp_type: IcmpType::from_u8(buf[0]),
                code: buf[1],
                checksum: u16_from_be(buf[2], buf[3]),
                identifier: u16_from_be(buf[4], buf[5]),
                sequence_number: u16_from_be(buf[6], buf[7]),
                payload: copy_from(buf, 8),
            },
        )
    }
}

} // verus!
