use vstd::prelude::*;

use crate::error::PacketError;
use crate::ip::{Deserialize, Serialize};
use crate::util::byte_extension::{
    be16, be16_bytes, be32, be32_bytes, copy_from, copy_range, lemma_be16_bytes_of,
    lemma_be16_bytes_roundtrip, lemma_be32_bytes_of, lemma_be32_bytes_roundtrip, push_be16,
    push_be32, push_bytes, u16_from_be, u32_from_be,
};

use super::types::{DataOffsetReserved, TcpFlags};
use super::{TcpPacket, TcpPacketView, HEADER_MIN_LEN};

verus! {

impl TcpPacketView {
    /// Whether reading a segment from `buf` does not fail outright: either
    /// `buf` is shorter than a header, or the data offset lies between the
    /// fixed header's end and the end of `buf`.
    pub open spec fn parse_requires(buf: Seq<u8>) -> bool {
        buf.len() < HEADER_MIN_LEN || (HEADER_MIN_LEN <= DataOffsetReserved(buf[12]).offset()
            <= buf.len())
    }

    /// What reading a segment from `buf` gives.
    pub open spec fn parse(buf: Seq<u8>) -> Result<TcpPacketView, PacketError> {
        if buf.len() < HEADER_MIN_LEN {
            Err(PacketError::InvalidTcp)
        } else {
            let offset = DataOffsetReserved(buf[12]).offset() as int;
            Ok(
                TcpPacketView {
                    source_port: be16(buf[0], buf[1]),
                    destination_port: be16(buf[2], buf[3]),
                    sequence_number: be32(buf[4], buf[5], buf[6], buf[7]),
                    acknowledgment_number: be32(buf[8], buf[9], buf[10], buf[11]),
                    data_offset_reserved: DataOffsetReserved(buf[12]),
                    flags: TcpFlags(buf[13]),
                    window_size: be16(buf[14], buf[15]),
                    checksum: be16(buf[16], buf[17]),
                    urgent_pointer: be16(buf[18], buf[19]),
                    options: buf.subrange(HEADER_MIN_LEN as int, offset),
                    payload: buf.skip(offset),
                },
            )
        }
    }

    /// The options of a segment read from the wire are made of whole 32-bit
    /// words.
    pub proof fn lemma_parsed_options_aligned(buf: Seq<u8>)
        requires
            TcpPacketView::parse_requires(buf),
            TcpPacketView::parse(buf) is Ok,
        ensures
            TcpPacketView::parse(buf)->Ok_0.options.len() % 4 == 0,
    {
        let q = (buf[12] / 16) as int;
        assert(DataOffsetReserved(buf[12]).offset() == q * 4);
        assert((q * 4 - 20) % 4 == 0) by (nonlinear_arith);
    }

    /// The bytes of a segment, one header field at a time.
    proof fn lemma_bytes_fields(self)
        ensures
            self.bytes().subrange(0, 2) == be16_bytes(self.source_port),
            self.bytes().subrange(2, 4) == be16_bytes(self.destination_port),
            self.bytes().subrange(4, 8) == be32_bytes(self.sequence_number),
            self.bytes().subrange(8, 12) == be32_bytes(self.acknowledgment_number),
            self.bytes()[12] == self.data_offset_reserved.0,
            self.bytes()[13] == self.flags.0,
            self.bytes().subrange(14, 16) == be16_bytes(self.window_size),
            self.bytes().subrange(16, 18) == be16_bytes(self.checksum),
            self.bytes().subrange(18, 20) == be16_bytes(self.urgent_pointer),
            self.bytes().skip(20) == self.options + self.payload,
            self.bytes().len() == 20 + self.options.len() + self.payload.len(),
    {
        let b = self.bytes();
        assert(b.subrange(0, 2) =~= be16_bytes(self.source_port));
        assert(b.subrange(2, 4) =~= be16_bytes(self.destination_port));
        assert(b.subrange(4, 8) =~= be32_bytes(self.sequence_number));
        assert(b.subrange(8, 12) =~= be32_bytes(self.acknowledgment_number));
        assert(b.subrange(14, 16) =~= be16_bytes(self.window_size));
        assert(b.subrange(16, 18) =~= be16_bytes(self.checksum));
        assert(b.subrange(18, 20) =~= be16_bytes(self.urgent_pointer));
        assert(b.skip(20) =~= self.options + self.payload);
    }

    /// Reading back a written segment gives the same segment, when its data
    /// offset field tells where its options end.
    pub proof fn lemma_parse_serialize(self)
        requires
            self.data_offset_reserved.offset() == HEADER_MIN_LEN + self.options.len(),
        ensures
            TcpPacketView::parse_requires(self.bytes()),
            TcpPacketView::parse(self.bytes()) == Ok::<TcpPacketView, PacketError>(self),
    {
        let b = self.bytes();
        self.lemma_bytes_fields();
        lemma_be16_bytes_roundtrip(self.source_port);
        lemma_be16_bytes_roundtrip(self.destination_port);
        lemma_be32_bytes_roundtrip(self.sequence_number);
        lemma_be32_bytes_roundtrip(self.acknowledgment_number);
        lemma_be16_bytes_roundtrip(self.window_size);
        lemma_be16_bytes_roundtrip(self.checksum);
        lemma_be16_bytes_roundtrip(self.urgent_pointer);
        assert(b[0] == b.subrange(0, 2)[0] && b[1] == b.subrange(0, 2)[1]);
        assert(b[2] == b.subrange(2, 4)[0] && b[3] == b.subrange(2, 4)[1]);
        assert(b[4] == b.subrange(4, 8)[0] && b[5] == b.subrange(4, 8)[1] && b[6] == b.subrange(
            4,
            8,
        )[2] && b[7] == b.subrange(4, 8)[3]);
        assert(b[8] == b.subrange(8, 12)[0] && b[9] == b.subrange(8, 12)[1] && b[10]
            == b.subrange(8, 12)[2] && b[11] == b.subrange(8, 12)[3]);
        assert(b[14] == b.subrange(14, 16)[0] && b[15] == b.subrange(14, 16)[1]);
        assert(b[16] == b.subrange(16, 18)[0] && b[17] == b.subrange(16, 18)[1]);
        assert(b[18] == b.subrange(18, 20)[0] && b[19] == b.subrange(18, 20)[1]);
        let end = HEADER_MIN_LEN + self.options.len();
        assert(b.subrange(HEADER_MIN_LEN as int, end as int) =~= self.options);
        assert(b.skip(end as int) =~= self.payload);
    }

    /// Writing a segment that was read gives back the bytes read.
    pub proof fn lemma_serialize_parse(buf: Seq<u8>)
        requires
            TcpPacketView::parse_requires(buf),
            TcpPacketView::parse(buf) is Ok,
        ensures
            TcpPacketView::parse(buf)->Ok_0.bytes() == buf,
    {
        let p = TcpPacketView::parse(buf)->Ok_0;
        p.lemma_bytes_fields();
        lemma_be16_bytes_of(buf[0], buf[1]);
        lemma_be16_bytes_of(buf[2], buf[3]);
        lemma_be32_bytes_of(buf[4], buf[5], buf[6], buf[7]);
        lemma_be32_bytes_of(buf[8], buf[9], buf[10], buf[11]);
        lemma_be16_bytes_of(buf[14], buf[15]);
        lemma_be16_bytes_of(buf[16], buf[17]);
        lemma_be16_bytes_of(buf[18], buf[19]);
        let b = p.bytes();
        assert(b.skip(20) =~= buf.skip(20));
        assert forall|i: int| 0 <= i < 20 implies b[i] == buf[i] by {
            if i < 2 {
                assert(b[i] == b.subrange(0, 2)[i]);
            } else if i < 4 {
                assert(b[i] == b.subrange(2, 4)[i - 2]);
            } else if i < 8 {
                assert(b[i] == b.subrange(4, 8)[i - 4]);
            } else if i < 12 {
                assert(b[i] == b.subrange(8, 12)[i - 8]);
            } else if i < 14 {
            } else if i < 16 {
                assert(b[i] == b.subrange(14, 16)[i - 14]);
            } else if i < 18 {
                assert(b[i] == b.subrange(16, 18)[i - 16]);
            } else {
                assert(b[i] == b.subrange(18, 20)[i - 18]);
            }
        }
        assert forall|i: int| 20 <= i < buf.len() implies b[i] == buf[i] by {
            assert(b[i] == b.skip(20)[i - 20]);
            assert(buf[i] == buf.skip(20)[i - 20]);
        }
        assert(b =~= buf);
    }
}

impl Serialize for TcpPacket {
    open spec fn wire(&self) -> Seq<u8> {
        self@.bytes()
    }

    fn serialize(self, buf: &mut Vec<u8>) {
        push_be16(buf, self.source_port);
        push_be16(buf, self.destination_port);
        push_be32(buf, self.sequence_number);
        push_be32(buf, self.acknowledgment_number);
        buf.push(self.data_offset_reserved.value());
        buf.push(self.flags.bits());
        push_be16(buf, self.window_size);
        push_be16(buf, self.checksum);
        push_be16(buf, self.urgent_pointer);
        push_bytes(buf, self.options.as_slice());
        push_bytes(buf, self.payload.as_slice());
        assert(final(buf)@ =~= old(buf)@ + self@.bytes());
    }
}

impl Deserialize for TcpPacket {
    open spec fn deserialize_requires(buf: Seq<u8>) -> bool {
        TcpPacketView::parse_requires(buf)
    }

    open spec fn spec_deserialize(buf: Seq<u8>) -> Result<TcpPacketView, PacketError> {
        TcpPacketView::parse(buf)
    }

    fn deserialize(buf: &[u8]) -> (r: Result<Self, PacketError>) {
        if buf.len() < HEADER_MIN_LEN {
            return Err(PacketError::InvalidTcp);
        }
        let data_offset_reserved = DataOffsetReserved::new(buf[12]);
        let data_offset = data_offset_reserved.data_offset();
        let options = copy_range(buf, HEADER_MIN_LEN, data_offset as usize);
        let payload = copy_from(buf, data_offset as usize);
        Ok(
            Self {
                source_port: u16_from_be(buf[0], buf[1]),
                destination_port: u16_from_be(buf[2], buf[3]),
                sequence_number: u32_from_be(buf[4], buf[5], buf[6], buf[7]),
                acknowledgment_number: u32_from_be(buf[8], buf[9], buf[10], buf[11]),
                data_offset_reserved,
                flags: TcpFlags::from_bits_truncate(buf[13]),
                window_size: u16_from_be(buf[14], buf[15]),
                checksum: u16_from_be(buf[16], buf[17]),
                urgent_pointer: u16_from_be(buf[18], buf[19]),
                options,
                payload,
            },
        )
    }
}

} // verus!
