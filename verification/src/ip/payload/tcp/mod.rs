pub mod connection;
mod converts;
mod handle;
mod serializer;
pub mod types;

use vstd::prelude::*;

use crate::ip::addr::AddrPair;
use crate::ip::protocol::Protocol;
use crate::util::byte_extension::{be16, be16_bytes, be32_bytes};
use crate::util::checksum::{
    internet_checksum, lemma_checksum_verifies, lemma_word_sum_append, lemma_word_sum_nonneg, lemma_word_sum_be16,
    lemma_word_sum_be32, word_sum, Checksum,
};

use self::types::{DataOffsetReserved, TcpFlags};
use super::PacketFilter;



verus! {

/// Length of a TCP header without options.
pub const HEADER_MIN_LEN: usize = 20;

/// A TCP segment.
#[derive(Debug)]
pub struct TcpPacket {
    pub source_port: u16,
    pub destination_port: u16,
    pub sequence_number: u32,
    pub acknowledgment_number: u32,
    pub data_offset_reserved: DataOffsetReserved,
    pub flags: TcpFlags,
    pub window_size: u16,
    pub checksum: u16,
    pub urgent_pointer: u16,
    pub options: Vec<u8>,
    pub payload: Vec<u8>,
}

/// The contents of a TCP segment.
pub struct TcpPacketView {
    pub source_port: u16,
    pub destination_port: u16,
    pub sequence_number: u32,
    pub acknowledgment_number: u32,
    pub data_offset_reserved: DataOffsetReserved,
    pub flags: TcpFlags,
    pub window_size: u16,
    pub checksum: u16,
    pub urgent_pointer: u16,
    pub options: Seq<u8>,
    pub payload: Seq<u8>,
}

impl View for TcpPacket {
    type V = TcpPacketView;

    open spec fn view(&self) -> TcpPacketView {
        TcpPacketView {
            source_port: self.source_port,
            destination_port: self.destination_port,
            sequence_number: self.sequence_number,
            acknowledgment_number: self.acknowledgment_number,
            data_offset_reserved: self.data_offset_reserved,
            flags: self.flags,
            window_size: self.window_size,
            checksum: self.checksum,
            urgent_pointer: self.urgent_pointer,
            options: self.options@,
            payload: self.payload@,
        }
    }
}

/// The sum of the pseudo header's words: both addresses, the protocol
/// number and the segment length. It does not depend on which address is
/// the source.
pub open spec fn pseudo_sum(addr_pair: AddrPair, tcp_length: u32) -> int {
    addr_pair.src_addr.0 / 0x1_0000 + addr_pair.src_addr.0 % 0x1_0000 + addr_pair.dst_addr.0
        / 0x1_0000 + addr_pair.dst_addr.0 % 0x1_0000 + be16(0, Protocol::Tcp.number())
        + tcp_length / 0x1_0000 + tcp_length % 0x1_0000
}

impl TcpPacketView {
    /// The length of the segment on the wire.
    pub open spec fn size(self) -> int {
        HEADER_MIN_LEN + self.options.len() + self.payload.len()
    }

    /// The sum of the fixed header's words without the checksum field.
    pub open spec fn header_sum(self) -> int {
        self.source_port + self.destination_port + self.sequence_number / 0x1_0000
            + self.sequence_number % 0x1_0000 + self.acknowledgment_number / 0x1_0000
            + self.acknowledgment_number % 0x1_0000 + be16(
            self.data_offset_reserved.0,
            self.flags.0,
        ) + self.window_size + self.urgent_pointer
    }

    /// The sum that the checksum of the segment covers: pseudo header,
    /// header without the checksum field, options and data.
    pub open spec fn checksum_sum(self, addr_pair: AddrPair) -> int {
        pseudo_sum(addr_pair, self.size() as u32) + self.header_sum() + word_sum(self.options)
            + word_sum(self.payload)
    }

    /// The segment with its checksum computed for `addr_pair`.
    pub open spec fn with_checksum(self, addr_pair: AddrPair) -> TcpPacketView {
        TcpPacketView { checksum: internet_checksum(self.checksum_sum(addr_pair)), ..self }
    }

    /// The segment on the wire.
    pub open spec fn bytes(self) -> Seq<u8> {
        be16_bytes(self.source_port) + be16_bytes(self.destination_port) + be32_bytes(
            self.sequence_number,
        ) + be32_bytes(self.acknowledgment_number) + seq![
            self.data_offset_reserved.0,
            self.flags.0,
        ] + be16_bytes(self.window_size) + be16_bytes(self.checksum) + be16_bytes(
            self.urgent_pointer,
        ) + self.options + self.payload
    }

    /// The word sum of a segment on the wire, when its options hold whole
    /// words.
    pub proof fn lemma_word_sum_bytes(self)
        requires
            self.options.len() % 2 == 0,
        ensures
            word_sum(self.bytes()) == self.header_sum() + self.checksum + word_sum(self.options)
                + word_sum(self.payload),
            self.bytes().len() == self.size(),
    {
        let s1 = be16_bytes(self.source_port);
        let s2 = s1 + be16_bytes(self.destination_port);
        let s3 = s2 + be32_bytes(self.sequence_number);
        let s4 = s3 + be32_bytes(self.acknowledgment_number);
        let s5 = s4 + seq![self.data_offset_reserved.0, self.flags.0];
        let s6 = s5 + be16_bytes(self.window_size);
        let s7 = s6 + be16_bytes(self.checksum);
        let s8 = s7 + be16_bytes(self.urgent_pointer);
        let s9 = s8 + self.options;
        lemma_word_sum_be16(self.source_port);
        lemma_word_sum_be16(self.destination_port);
        lemma_word_sum_append(s1, be16_bytes(self.destination_port));
        lemma_word_sum_be32(self.sequence_number);
        lemma_word_sum_append(s2, be32_bytes(self.sequence_number));
        lemma_word_sum_be32(self.acknowledgment_number);
        lemma_word_sum_append(s3, be32_bytes(self.acknowledgment_number));
        crate::ip::header::lemma_word_sum_pair(self.data_offset_reserved.0, self.flags.0);
        lemma_word_sum_append(s4, seq![self.data_offset_reserved.0, self.flags.0]);
        lemma_word_sum_be16(self.window_size);
        lemma_word_sum_append(s5, be16_bytes(self.window_size));
        lemma_word_sum_be16(self.checksum);
        lemma_word_sum_append(s6, be16_bytes(self.checksum));
        lemma_word_sum_be16(self.urgent_pointer);
        lemma_word_sum_append(s7, be16_bytes(self.urgent_pointer));
        lemma_word_sum_append(s8, self.options);
        lemma_word_sum_append(s9, self.payload);
    }

    /// The checksum of a segment does not depend on which of the two
    /// addresses is taken as the source, so a reply may be checksummed with
    /// the request's address pair.
    pub proof fn lemma_checksum_symmetric(self, addr_pair: AddrPair)
        ensures
            self.checksum_sum(addr_pair) == self.checksum_sum(
                AddrPair { src_addr: addr_pair.dst_addr, dst_addr: addr_pair.src_addr },
            ),
            self.with_checksum(addr_pair) == self.with_checksum(
                AddrPair { src_addr: addr_pair.dst_addr, dst_addr: addr_pair.src_addr },
            ),
    {
    }

    /// A segment whose checksum was filled in for `addr_pair` checks to zero
    /// over the pseudo header and its bytes on the wire, whichever of the
    /// two addresses is taken as the source.
    pub proof fn lemma_checksum_valid(self, addr_pair: AddrPair)
        requires
            self.checksum == internet_checksum(self.checksum_sum(addr_pair)),
            self.options.len() % 2 == 0,
        ensures
            internet_checksum(pseudo_sum(addr_pair, self.size() as u32) + word_sum(self.bytes()))
                == 0,
            internet_checksum(
                pseudo_sum(AddrPair { src_addr: addr_pair.dst_addr, dst_addr: addr_pair.src_addr },
                self.size() as u32) + word_sum(self.bytes()),
            ) == 0,
    {
        self.lemma_word_sum_bytes();
        lemma_word_sum_nonneg(self.options);
        lemma_word_sum_nonneg(self.payload);
        lemma_checksum_verifies(self.checksum_sum(addr_pair));
        let swapped = AddrPair { src_addr: addr_pair.dst_addr, dst_addr: addr_pair.src_addr };
        assert(pseudo_sum(swapped, self.size() as u32) == pseudo_sum(addr_pair, self.size() as u32));
    }
}

impl TcpPacket {
    /// The length of the segment on the wire.
    pub fn size(&self) -> (r: usize)
        requires
            self@.size() <= usize::MAX,
        ensures
            r == self@.size(),
    {
        HEADER_MIN_LEN + self.options.len() + self.payload.len()
    }

    /// Passes segments addressed to `port`.
    pub fn filter(&self, port: u16) -> (r: PacketFilter)
        ensures
            r == (if self.destination_port == port {
                PacketFilter::Pass
            } else {
                PacketFilter::Drop
            }),
    {
        if self.destination_port == port {
            PacketFilter::Pass
        } else {
            PacketFilter::Drop
        }
    }

    /// Fills in the checksum for a segment sent between the addresses of
    /// `addr_pair`.
    pub fn update_checksum(&mut self, addr_pair: AddrPair)
        requires
            old(self)@.size() <= usize::MAX,
            old(self)@.checksum_sum(addr_pair) <= u32::MAX,
        ensures
            final(self)@ == old(self)@.with_checksum(addr_pair),
    {
        proof {
            lemma_word_sum_nonneg(self.options@);
            lemma_word_sum_nonneg(self.payload@);
        }
        let tcp_length = self.size() as u32;
        self.checksum = Checksum::new()
            // pseudo header
            .u32(addr_pair.src_addr.value()).u32(addr_pair.dst_addr.value()).u8(
            (0, Protocol::Tcp.to_u8()),
        ).u32(tcp_length)
            // header
            .u16(self.source_port).u16(self.destination_port).u32(self.sequence_number).u32(
            self.acknowledgment_number,
        ).u8((self.data_offset_reserved.value(), self.flags.bits())).u16(self.window_size).u16(
            self.urgent_pointer,
        ).vec(self.options.as_slice()).vec(self.payload.as_slice()).export();
    }
}

} // verus!
