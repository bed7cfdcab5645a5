pub mod flags_fragment_offset;
pub mod version_ihl;

use vstd::prelude::*;

use crate::error::PacketError;
use crate::util::byte_extension::{
    be16, be16_bytes, be32, be32_bytes, lemma_be16_bytes_of, lemma_be16_roundtrip,
    lemma_be32_bytes_of, lemma_be32_roundtrip, push_be16, push_be32, u16_from_be,
};
use crate::util::checksum::{
    internet_checksum, lemma_checksum_verifies, lemma_word_sum_append, lemma_word_sum_be16,
    lemma_word_sum_be32, word_sum, Checksum,
};

use self::{flags_fragment_offset::FlagsFragmentOffset, version_ihl::VersionIhl};
use super::{addr::{Addr, AddrPair}, protocol::Protocol, Deserialize, Serialize};

verus! {

/// Length of an IPv4 header without options.
pub const IP_HDR_SIZE_MIN: usize = 20;

/// An IPv4 header (options are not kept).
#[derive(Clone, Copy, PartialEq, Eq, Structural, Debug)]
pub struct IpHeader {
    pub version_ihl: VersionIhl,
    pub type_of_service: u8,
    pub total_length: u16,
    pub identification: u16,
    pub flags_fragment_offset: FlagsFragmentOffset,
    pub ttl: u8,
    pub protocol: Protocol,
    pub header_checksum: u16,
    pub source_address: Addr,
    pub destination_address: Addr,
}

impl View for IpHeader {
    type V = IpHeader;

    open spec fn view(&self) -> IpHeader {
        *self
    }
}

/// The word sum of two bytes is the word they make.
pub proof fn lemma_word_sum_pair(a: u8, b: u8)
    ensures
        word_sum(seq![a, b]) == be16(a, b),
{
    assert(seq![a, b].skip(2).len() == 0);
    assert(word_sum(seq![a, b].skip(2)) == 0);
}

impl IpHeader {
    /// The sum of the header's 16-bit words without the checksum field.
    pub open spec fn fields_sum(self) -> int {
        be16(self.version_ihl.0, self.type_of_service) + self.total_length + self.identification
            + self.flags_fragment_offset.0 + be16(self.ttl, self.protocol.number())
            + self.source_address.0 / 0x1_0000 + self.source_address.0 % 0x1_0000
            + self.destination_address.0 / 0x1_0000 + self.destination_address.0 % 0x1_0000
    }

    /// The header as it stands on the wire.
    pub open spec fn header_bytes(self) -> Seq<u8> {
        seq![self.version_ihl.0, self.type_of_service] + be16_bytes(self.total_length)
            + be16_bytes(self.identification) + be16_bytes(self.flags_fragment_offset.0) + seq![
            self.ttl,
            self.protocol.number(),
        ] + be16_bytes(self.header_checksum) + be32_bytes(self.source_address.0) + be32_bytes(
            self.destination_address.0,
        )
    }

    /// What reading a header from `buf` gives.
    pub open spec fn parse(buf: Seq<u8>) -> Result<IpHeader, PacketError> {
        if buf.len() < IP_HDR_SIZE_MIN {
            Err(PacketError::PacketDropSilent)
        } else if buf[0] / 16 != version_ihl::IP_VERSION_IPV4 {
            Err(PacketError::PacketDropSilent)
        } else {
            Ok(
                IpHeader {
                    version_ihl: VersionIhl(buf[0]),
                    type_of_service: buf[1],
                    total_length: be16(buf[2], buf[3]),
                    identification: be16(buf[4], buf[5]),
                    flags_fragment_offset: FlagsFragmentOffset(be16(buf[6], buf[7])),
                    ttl: buf[8],
                    protocol: Protocol::from_number(buf[9]),
                    header_checksum: be16(buf[10], buf[11]),
                    source_address: Addr(be32(buf[12], buf[13], buf[14], buf[15])),
                    destination_address: Addr(be32(buf[16], buf[17], buf[18], buf[19])),
                },
            )
        }
    }

    /// The header of a reply to a packet with this header: the addresses
    /// swapped, the total length and checksum cleared, everything else kept.
    pub open spec fn reply_header(self) -> IpHeader {
        IpHeader {
            total_length: 0,
            header_checksum: 0,
            source_address: self.destination_address,
            destination_address: self.source_address,
            ..self
        }
    }

    /// The carried protocol.
    pub fn protocol(&self) -> (r: &Protocol)
        ensures
            *r == self.protocol,
    {
        &self.protocol
    }

    /// The length of the header as written.
    pub fn size(&self) -> (r: usize)
        ensures
            r == IP_HDR_SIZE_MIN,
    {
        IP_HDR_SIZE_MIN
    }

    /// The source and destination addresses.
    pub fn create_addr_pair(&self) -> (r: AddrPair)
        ensures
            r.src_addr == self.source_address,
            r.dst_addr == self.destination_address,
    {
        AddrPair::new(self.source_address, self.destination_address)
    }

    /// Sets the total length for a payload of `data_length` bytes; the
    /// length is kept modulo 2^16.
    pub fn update_payload_length(&mut self, data_length: usize)
        requires
            data_length <= usize::MAX - IP_HDR_SIZE_MIN,
        ensures
            *final(self) == (IpHeader {
                total_length: (IP_HDR_SIZE_MIN + data_length) as u16,
                ..*old(self)
            }),
    {
        self.total_length = (self.size() + data_length) as u16;
    }

    /// Fills in the header checksum.
    pub fn update_checksum(&mut self)
        ensures
            *final(self) == (IpHeader {
                header_checksum: internet_checksum(old(self).fields_sum()),
                ..*old(self)
            }),
    {
        self.header_checksum = Checksum::new().u8(
            (self.version_ihl.value(), self.type_of_service),
        ).u16(self.total_length).u16(self.identification).u16(
            self.flags_fragment_offset.value(),
        ).u8((self.ttl, self.protocol.to_u8())).u32(self.source_address.value()).u32(
            self.destination_address.value(),
        ).export();
    }

    /// The header of a reply: the addresses are swapped and the total length
    /// and checksum are cleared; everything else is kept.
    pub fn prepare_reply(&self) -> (r: Self)
        ensures
            r == self.reply_header(),
    {
        Self {
            version_ihl: self.version_ihl,
            type_of_service: self.type_of_service,
            total_length: 0,
            identification: self.identification,
            flags_fragment_offset: self.flags_fragment_offset,
            ttl: self.ttl,
            protocol: self.protocol,
            header_checksum: 0,
            source_address: self.destination_address,
            destination_address: self.source_address,
        }
    }

    /// A reply header goes back to the sender: the addresses are swapped,
    /// the protocol, version and header length, type of service,
    /// identification, flags and fragment offset, and time to live are
    /// those of the request, and the length and checksum are left to fill in.
    pub proof fn lemma_reply_header_fields(self)
        ensures
            self.reply_header().source_address == self.destination_address,
            self.reply_header().destination_address == self.source_address,
            self.reply_header().protocol == self.protocol,
            self.reply_header().version_ihl == self.version_ihl,
            self.reply_header().type_of_service == self.type_of_service,
            self.reply_header().identification == self.identification,
            self.reply_header().flags_fragment_offset == self.flags_fragment_offset,
            self.reply_header().ttl == self.ttl,
            self.reply_header().total_length == 0,
            self.reply_header().header_checksum == 0,
    {
    }

    /// A reply to a reply goes back to the first sender.
    pub proof fn lemma_reply_of_reply(self)
        ensures
            self.reply_header().reply_header().source_address == self.source_address,
            self.reply_header().reply_header().destination_address == self.destination_address,
    {
    }

    /// The word sum of the header on the wire is the sum of its fields plus
    /// its checksum.
    pub proof fn lemma_header_word_sum(self)
        ensures
            self.header_bytes().len() == IP_HDR_SIZE_MIN,
            word_sum(self.header_bytes()) == self.fields_sum() + self.header_checksum,
    {
        let s1 = seq![self.version_ihl.0, self.type_of_service];
        let s2 = s1 + be16_bytes(self.total_length);
        let s3 = s2 + be16_bytes(self.identification);
        let s4 = s3 + be16_bytes(self.flags_fragment_offset.0);
        let s5 = s4 + seq![self.ttl, self.protocol.number()];
        let s6 = s5 + be16_bytes(self.header_checksum);
        let s7 = s6 + be32_bytes(self.source_address.0);
        let s8 = s7 + be32_bytes(self.destination_address.0);
        lemma_word_sum_pair(self.version_ihl.0, self.type_of_service);
        lemma_word_sum_be16(self.total_length);
        lemma_word_sum_append(s1, be16_bytes(self.total_length));
        lemma_word_sum_be16(self.identification);
        lemma_word_sum_append(s2, be16_bytes(self.identification));
        lemma_word_sum_be16(self.flags_fragment_offset.0);
        lemma_word_sum_append(s3, be16_bytes(self.flags_fragment_offset.0));
        lemma_word_sum_pair(self.ttl, self.protocol.number());
        lemma_word_sum_append(s4, seq![self.ttl, self.protocol.number()]);
        lemma_word_sum_be16(self.header_checksum);
        lemma_word_sum_append(s5, be16_bytes(self.header_checksum));
        lemma_word_sum_be32(self.source_address.0);
        lemma_word_sum_append(s6, be32_bytes(self.source_address.0));
        lemma_word_sum_be32(self.destination_address.0);
        lemma_word_sum_append(s7, be32_bytes(self.destination_address.0));
        assert(s8 == self.header_bytes());
    }

    /// A header whose checksum was filled in by `update_checksum` checks to
    /// zero over its 20 bytes on the wire.
    pub proof fn lemma_checksum_valid(self)
        requires
            self.header_checksum == internet_checksum(self.fields_sum()),
        ensures
            internet_checksum(word_sum(self.header_bytes())) == 0,
    {
        self.lemma_header_word_sum();
        lemma_checksum_verifies(self.fields_sum());
    }

    /// The header bytes, one by one.
    pub proof fn lemma_header_bytes_flat(self)
        ensures
            self.header_bytes() == seq![
                self.version_ihl.0,
                self.type_of_service,
                (self.total_length / 256) as u8,
                (self.total_length % 256) as u8,
                (self.identification / 256) as u8,
                (self.identification % 256) as u8,
                (self.flags_fragment_offset.0 / 256) as u8,
                (self.flags_fragment_offset.0 % 256) as u8,
                self.ttl,
                self.protocol.number(),
                (self.header_checksum / 256) as u8,
                (self.header_checksum % 256) as u8,
                (self.source_address.0 / 0x100_0000) as u8,
                (self.source_address.0 / 0x1_0000 % 256) as u8,
                (self.source_address.0 / 0x100 % 256) as u8,
                (self.source_address.0 % 256) as u8,
                (self.destination_address.0 / 0x100_0000) as u8,
                (self.destination_address.0 / 0x1_0000 % 256) as u8,
                (self.destination_address.0 / 0x100 % 256) as u8,
                (self.destination_address.0 % 256) as u8,
            ],
    {
        assert(self.header_bytes() =~= seq![
            self.version_ihl.0,
            self.type_of_service,
            (self.total_length / 256) as u8,
            (self.total_length % 256) as u8,
            (self.identification / 256) as u8,
            (self.identification % 256) as u8,
            (self.flags_fragment_offset.0 / 256) as u8,
            (self.flags_fragment_offset.0 % 256) as u8,
            self.ttl,
            self.protocol.number(),
            (self.header_checksum / 256) as u8,
            (self.header_checksum % 256) as u8,
            (self.source_address.0 / 0x100_0000) as u8,
            (self.source_address.0 / 0x1_0000 % 256) as u8,
            (self.source_address.0 / 0x100 % 256) as u8,
            (self.source_address.0 % 256) as u8,
            (self.destination_address.0 / 0x100_0000) as u8,
            (self.destination_address.0 / 0x1_0000 % 256) as u8,
            (self.destination_address.0 / 0x100 % 256) as u8,
            (self.destination_address.0 % 256) as u8,
        ]);
    }

    /// Reading back a written IPv4 header gives the same header.
    pub proof fn lemma_parse_serialize(self)
        requires
            self.version_ihl.0 / 16 == version_ihl::IP_VERSION_IPV4,
        ensures
            IpHeader::parse(self.header_bytes()) == Ok::<IpHeader, PacketError>(self),
    {
        self.lemma_header_bytes_flat();
        lemma_be16_roundtrip(self.total_length);
        lemma_be16_roundtrip(self.identification);
        lemma_be16_roundtrip(self.flags_fragment_offset.0);
        lemma_be16_roundtrip(self.header_checksum);
        lemma_be32_roundtrip(self.source_address.0);
        lemma_be32_roundtrip(self.destination_address.0);
        assert(Protocol::from_number(self.protocol.number()) == self.protocol);
    }

    /// Writing a header that was read gives back the first 20 bytes read,
    /// when the protocol number is one that the header keeps.
    pub proof fn lemma_serialize_parse(buf: Seq<u8>)
        requires
            IpHeader::parse(buf) is Ok,
            buf[9] == 1 || buf[9] == 6 || buf[9] == 17 || buf[9] == 18,
        ensures
            IpHeader::parse(buf)->Ok_0.header_bytes() == buf.take(20),
    {
        let h = IpHeader::parse(buf)->Ok_0;
        h.lemma_header_bytes_flat();
        lemma_be16_bytes_of(buf[2], buf[3]);
        lemma_be16_bytes_of(buf[4], buf[5]);
        lemma_be16_bytes_of(buf[6], buf[7]);
        lemma_be16_bytes_of(buf[10], buf[11]);
        lemma_be32_bytes_of(buf[12], buf[13], buf[14], buf[15]);
        lemma_be32_bytes_of(buf[16], buf[17], buf[18], buf[19]);
        assert(h.header_bytes() =~= buf.take(20));
    }
}

impl Serialize for IpHeader {
    open spec fn wire(&self) -> Seq<u8> {
        self.header_bytes()
    }

    fn serialize(self, buf: &mut Vec<u8>) {
        buf.push(self.version_ihl.value());
        buf.push(self.type_of_service);
        push_be16(buf, self.total_length);
        push_be16(buf, self.identification);
        push_be16(buf, self.flags_fragment_offset.value());
        buf.push(self.ttl);
        buf.push(self.protocol.to_u8());
        push_be16(buf, self.header_checksum);
        push_be32(buf, self.source_address.value());
        push_be32(buf, self.destination_address.value());
        assert(final(buf)@ =~= old(buf)@ + self.header_bytes());
    }
}

impl Deserialize for IpHeader {
    open spec fn deserialize_requires(buf: Seq<u8>) -> bool {
        true
    }

    open spec fn spec_deserialize(buf: Seq<u8>) -> Result<IpHeader, PacketError> {
        IpHeader::parse(buf)
    }

    fn deserialize(buf: &[u8]) -> (r: Result<Self, PacketError>) {
        if buf.len() < IP_HDR_SIZE_MIN {
            return Err(PacketError::PacketDropSilent);
        }
        let version_ihl = VersionIhl::new(buf[0]);
        if !version_ihl.is_supported() {
            return Err(PacketError::PacketDropSilent);
        }
        Ok(
            IpHeader {
                version_ihl,
                type_of_service: buf[1],
                total_length: u16_from_be(buf[2], buf[3]),
                identification: u16_from_be(buf[4], buf[5]),
                flags_fragment_offset: FlagsFragmentOffset::new([buf[6], buf[7]]),
                ttl: buf[8],
                protocol: Protocol::from_u8(buf[9]),
                header_checksum: u16_from_be(buf[10], buf[11]),
                source_address: Addr::from_octets([buf[12], buf[13], buf[14], buf[15]]),
                destination_address: Addr::from_octets([buf[16], buf[17], buf[18], buf[19]]),
            },
        )
    }
}

} // verus!
