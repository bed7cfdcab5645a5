use vstd::prelude::*;

use crate::error::PacketError;
use crate::util::byte_extension::be32_bytes;
use crate::util::checksum::{internet_checksum, word_sum};

use super::header::{IpHeader, IP_HDR_SIZE_MIN};
use super::payload::handle::{HandleStatus, HandleStatusView};
use super::payload::tcp::connection::ConnectionPool;
use super::payload::{IpPayload, IpPayloadView};
use super::addr::AddrPair;
use super::{Buf, Deserialize, Serialize};

verus! {

/// An IPv4 packet.
#[derive(Debug)]
pub struct IpPacket {
    pub header: IpHeader,
    pub payload: IpPayload,
}

/// The contents of an IPv4 packet.
pub struct IpPacketView {
    pub header: IpHeader,
    pub payload: IpPayloadView,
}

impl View for IpPacket {
    type V = IpPacketView;

    open spec fn view(&self) -> IpPacketView {
        IpPacketView { header: self.header, payload: self.payload@ }
    }
}

/// The header length, in bytes, that the first byte of a packet gives.
pub open spec fn header_length(first: u8) -> int {
    (first % 16) * 4
}

impl IpHeader {
    /// This header, ready to be sent in front of a payload of
    /// `payload_size` bytes: total length (modulo 2^16) and checksum filled in.
    pub open spec fn ready_for(self, payload_size: int) -> IpHeader {
        let h = IpHeader { total_length: (IP_HDR_SIZE_MIN + payload_size) as u16, ..self };
        IpHeader { header_checksum: internet_checksum(h.fields_sum()), ..h }
    }
}

impl IpPacketView {
    /// The packet on the wire.
    pub open spec fn bytes(self) -> Seq<u8> {
        self.header.header_bytes() + self.payload.bytes()
    }

    /// Whether reading a packet from `buf` does not fail outright: the
    /// frame is not empty, the header length that it gives lies within it,
    /// and a TCP segment's data offset lies within the segment.
    pub open spec fn parse_requires(buf: Seq<u8>) -> bool {
        &&& buf.len() > 0
        &&& header_length(buf[0]) <= buf.len()
        &&& IpHeader::parse(buf.take(header_length(buf[0]))) matches Ok(h)
            ==> IpPayloadView::parse_requires(h.protocol, buf.skip(header_length(buf[0])))
    }

    /// What reading a packet from `buf` gives: the header from the first
    /// `header_length` bytes, the payload from the rest.
    pub open spec fn parse(buf: Seq<u8>) -> Result<IpPacketView, PacketError> {
        let ihl = header_length(buf[0]);
        match IpHeader::parse(buf.take(ihl)) {
            Err(e) => Err(e),
            Ok(h) => match IpPayloadView::parse(h.protocol, buf.skip(ihl)) {
                Err(e) => Err(e),
                Ok(p) => Ok(IpPacketView { header: h, payload: p }),
            },
        }
    }
}

impl IpHeader {
    /// The frame that carries `payload` back to the sender of a packet with
    /// this header.
    pub open spec fn reply_frame(self, payload: IpPayloadView) -> Seq<u8> {
        IpPacketView {
            header: self.reply_header().ready_for(payload.size()),
            payload,
        }.bytes()
    }
}

impl IpHeader {
    /// A reply frame goes back to the sender: its header holds the swapped
    /// addresses and the frame's length (as a 16-bit number), checks to zero over
    /// its 20 bytes, and is followed by the payload's bytes.
    pub proof fn lemma_reply_frame(self, payload: IpPayloadView)
        ensures
            ({
                let frame = self.reply_frame(payload);
                let h = self.reply_header().ready_for(payload.size());
                &&& frame.len() == IP_HDR_SIZE_MIN + payload.size()
                &&& frame.take(20) == h.header_bytes()
                &&& frame.skip(20) == payload.bytes()
                &&& h.source_address == self.destination_address
                &&& h.destination_address == self.source_address
                &&& h.total_length == frame.len() as u16
                &&& internet_checksum(word_sum(frame.take(20))) == 0
            }),
    {
        let h = self.reply_header().ready_for(payload.size());
        let frame = self.reply_frame(payload);
        assert(frame == h.header_bytes() + payload.bytes());
        assert(h.header_bytes().len() == 20) by {
            h.lemma_header_word_sum();
        }
        assert(payload.bytes().len() == payload.size()) by {
            payload.lemma_size_is_length();
        }
        assert(internet_checksum(word_sum(h.header_bytes())) == 0) by {
            h.lemma_checksum_valid();
        }
        assert(frame.take(20) =~= h.header_bytes());
        assert(frame.skip(20) =~= payload.bytes());
    }
}

impl IpHeader {
    /// A reply frame carries the request's protocol number, version and
    /// header length, type of service and time to live, and is sent from the
    /// request's destination to its source.
    pub proof fn lemma_reply_frame_bytes(self, payload: IpPayloadView)
        ensures
            ({
                let frame = self.reply_frame(payload);
                &&& frame[0] == self.version_ihl.0
                &&& frame[1] == self.type_of_service
                &&& frame[8] == self.ttl
                &&& frame[9] == self.protocol.number()
                &&& frame.subrange(12, 16) == be32_bytes(self.destination_address.0)
                &&& frame.subrange(16, 20) == be32_bytes(self.source_address.0)
            }),
    {
        let h = self.reply_header().ready_for(payload.size());
        let frame = self.reply_frame(payload);
        self.lemma_reply_frame(payload);
        h.lemma_header_bytes_flat();
        assert(frame[9] == frame.take(20)[9]);
        assert(frame[0] == frame.take(20)[0] && frame[1] == frame.take(20)[1] && frame[8]
            == frame.take(20)[8]);
        assert(frame.subrange(12, 16) =~= be32_bytes(self.destination_address.0));
        assert(frame.subrange(16, 20) =~= be32_bytes(self.source_address.0));
    }
}

impl IpPacketView {
    /// Reading back a written packet gives the same packet, when its header
    /// is a plain IPv4 header (first byte 0x45) and names the protocol of
    /// its payload.
    pub proof fn lemma_parse_serialize(self)
        requires
            self.header.version_ihl.0 == 0x45,
            self.payload.carried_by(self.header.protocol),
        ensures
            IpPacketView::parse_requires(self.bytes()),
            IpPacketView::parse(self.bytes()) == Ok::<IpPacketView, PacketError>(self),
    {
        let b = self.bytes();
        self.header.lemma_header_word_sum();
        self.header.lemma_header_bytes_flat();
        self.header.lemma_parse_serialize();
        self.payload.lemma_parse_serialize(self.header.protocol);
        assert(b[0] == 0x45u8);
        assert(header_length(b[0]) == 20);
        assert(b.take(20) =~= self.header.header_bytes());
        assert(b.skip(20) =~= self.payload.bytes());
    }

    /// The sender and receiver of the packet.
    pub open spec fn addr_pair(self) -> AddrPair {
        AddrPair { src_addr: self.header.source_address, dst_addr: self.header.destination_address }
    }

    /// The frames that answer this packet.
    pub open spec fn reply_frames(self, status: HandleStatusView) -> Seq<Seq<u8>> {
        match status {
            HandleStatusView::Send(payloads) => payloads.map_values(
                |p: IpPayloadView| self.header.reply_frame(p),
            ),
            HandleStatusView::Stop => Seq::empty(),
        }
    }
}

/// Whether every payload fits behind an IPv4 header within the machine's
/// lengths.
pub open spec fn payloads_fit(payloads: Seq<IpPayloadView>) -> bool {
    forall|i: int|
        0 <= i < payloads.len() ==> #[trigger] payloads[i].size() <= usize::MAX - IP_HDR_SIZE_MIN
}

/// Whether every payload of an answer fits behind an IPv4 header within the
/// machine's lengths.
pub open spec fn replies_fit(status: HandleStatusView) -> bool {
    match status {
        HandleStatusView::Send(payloads) => payloads_fit(payloads),
        HandleStatusView::Stop => true,
    }
}

/// The frame that carries `payload` back to the sender of a packet with
/// header `request`.
fn reply_frame_for(request: &IpHeader, payload: IpPayload) -> (r: Buf)
    requires
        payload@.size() <= usize::MAX - IP_HDR_SIZE_MIN,
    ensures
        r@ == request.reply_frame(payload@),
{
    let mut reply = IpPacket { header: request.prepare_reply(), payload };
    reply.prepare_send();
    let mut buf: Buf = Vec::new();
    reply.serialize(&mut buf);
    assert(buf@ =~= request.reply_frame(payload@));
    buf
}

/// The frames that carry `payloads` back to the sender of a packet with
/// header `request`, or `None` where one of them is too long.
fn frames_for(request: &IpHeader, payloads: Vec<IpPayload>) -> (r: Option<Vec<Buf>>)
    ensures
        r is Some <==> payloads_fit(payloads@.map_values(|p: IpPayload| p@)),
        r matches Some(frames) ==> frames@.map_values(|f: Vec<u8>| f@) == payloads@.map_values(
            |p: IpPayload| p@,
        ).map_values(|p: IpPayloadView| request.reply_frame(p)),
{
    let ghost ps = payloads@.map_values(|p: IpPayload| p@);
    let n = payloads.len();
    let mut i: usize = 0;
    while i < n
        invariant
            n == payloads@.len(),
            ps == payloads@.map_values(|p: IpPayload| p@),
            i <= n,
            forall|j: int| 0 <= j < i ==> #[trigger] ps[j].size() <= usize::MAX - IP_HDR_SIZE_MIN,
        decreases n - i,
    {
        assert(ps[i as int] == payloads@[i as int]@);
        if !payloads[i].size_at_most(usize::MAX - IP_HDR_SIZE_MIN) {
            assert(!payloads_fit(ps));
            return None;
        }
        i = i + 1;
    }
    let mut rest = payloads;
    let mut frames: Vec<Buf> = Vec::new();
    let mut k: usize = 0;
    while k < n
        invariant
            n == ps.len(),
            k <= n,
            rest@.len() == n - k,
            forall|j: int| 0 <= j < rest@.len() ==> #[trigger] rest@[j]@ == ps[k + j],
            payloads_fit(ps),
            frames@.len() == k,
            forall|j: int| 0 <= j < k ==> #[trigger] frames@[j]@ == request.reply_frame(ps[j]),
        decreases n - k,
    {
        let ghost before = rest@;
        assert(before[0]@ == ps[k + 0]);
        let payload = rest.remove(0);
        assert forall|j: int| 0 <= j < rest@.len() implies #[trigger] rest@[j]@ == ps[(k + 1)
            + j] by {
            assert(rest@[j] == before[j + 1]);
            assert(before[j + 1]@ == ps[k + (j + 1)]);
        }
        assert(ps[k as int].size() <= usize::MAX - IP_HDR_SIZE_MIN);
        let buf = reply_frame_for(request, payload);
        frames.push(buf);
        k = k + 1;
    }
    assert(frames@.map_values(|f: Vec<u8>| f@) =~= ps.map_values(
        |p: IpPayloadView| request.reply_frame(p),
    ));
    Some(frames)
}

/// Handles a received packet and returns the frames to send back; `None`
/// where handling would fail outright (a number or checksum sum of a reply
/// that does not fit its type, or a reply too long for the machine).
pub fn respond(packet: &IpPacket, pool: &mut ConnectionPool) -> (r: Option<Vec<Buf>>)
    ensures
        !packet@.payload.handle_requires(old(pool)@, packet@.addr_pair()) ==> r is None
            && final(pool)@ == old(pool)@,
        packet@.payload.handle_requires(old(pool)@, packet@.addr_pair()) ==> final(pool)@
            == packet@.payload.handle_result(old(pool)@, packet@.addr_pair()).0,
        packet@.payload.handle_requires(old(pool)@, packet@.addr_pair()) ==> (r is Some
            <==> replies_fit(packet@.payload.handle_result(old(pool)@, packet@.addr_pair()).1)),
        r matches Some(frames) ==> frames@.map_values(|f: Vec<u8>| f@) == packet@.reply_frames(
            packet@.payload.handle_result(old(pool)@, packet@.addr_pair()).1,
        ),
{
    let addr_pair = packet.header.create_addr_pair();
    if !packet.payload.can_handle(pool, addr_pair) {
        return None;
    }
    match packet.payload.handle(addr_pair, pool) {
        HandleStatus::Stop => {
            let frames: Vec<Buf> = Vec::new();
            assert(frames@.map_values(|f: Vec<u8>| f@) =~= Seq::<Seq<u8>>::empty());
            Some(frames)
        },
        HandleStatus::Send(payloads) => frames_for(&packet.header, payloads),
    }
}

impl IpPacket {
    /// Fills in the total length and the header checksum.
    pub fn prepare_send(&mut self)
        requires
            old(self)@.payload.size() <= usize::MAX - IP_HDR_SIZE_MIN,
        ensures
            final(self)@.header == old(self)@.header.ready_for(old(self)@.payload.size()),
            final(self)@.payload == old(self)@.payload,
    {
        let size = self.payload.size();
        self.header.update_payload_length(size);
        self.header.update_checksum();
    }

    /// Whether reading a packet from `buf` does not fail outright.
    pub fn is_well_framed(buf: &[u8]) -> (r: bool)
        ensures
            r == IpPacketView::parse_requires(buf@),
    {
        if buf.len() == 0 {
            return false;
        }
        let ihl = (buf[0] & 0x0F) as usize * 4;
        let first = buf[0];
        assert(first & 0x0F == first % 16) by (bit_vector);
        if ihl > buf.len() {
            return false;
        }
        let header_buf = &buf[0..ihl];
        assert(header_buf@ =~= buf@.take(ihl as int));
        match IpHeader::deserialize(header_buf) {
            Err(_) => true,
            Ok(h) => {
                let data_buf = &buf[ihl..buf.len()];
                assert(data_buf@ =~= buf@.skip(ihl as int));
                match h.protocol {
                    super::protocol::Protocol::Tcp => {
                        let n = data_buf.len();
                        if n < 20 {
                            true
                        } else {
                            let b = data_buf[12];
                            assert(b >> 4 == b / 16) by (bit_vector);
                            let offset = (b >> 4) as usize * 4;
                            20 <= offset && offset <= n
                        }
                    },
                    _ => true,
                }
            },
        }
    }
}

impl Serialize for IpPacket {
    open spec fn wire(&self) -> Seq<u8> {
        self@.bytes()
    }

    fn serialize(self, buf: &mut Vec<u8>) {
        self.header.serialize(buf);
        self.payload.serialize(buf);
        assert(final(buf)@ =~= old(buf)@ + self@.bytes());
    }
}

impl Deserialize for IpPacket {
    open spec fn deserialize_requires(buf: Seq<u8>) -> bool {
        IpPacketView::parse_requires(buf)
    }

    open spec fn spec_deserialize(buf: Seq<u8>) -> Result<IpPacketView, PacketError> {
        IpPacketView::parse(buf)
    }

    fn deserialize(buf: &[u8]) -> (r: Result<Self, PacketError>) {
        let first = buf[0];
        assert(first & 0x0F == first % 16) by (bit_vector);
        let ihl = (buf[0] & 0x0F) as usize * 4;
        let (header_buf, data_buf) = (&buf[0..ihl], &buf[ihl..buf.len()]);
        assert(header_buf@ =~= buf@.take(ihl as int));
        assert(data_buf@ =~= buf@.skip(ihl as int));
        let header = IpHeader::deserialize(header_buf)?;
        let payload = IpPayload::deserialize(header.protocol(), data_buf)?;
        Ok(Self { header, payload })
    }
}

} // verus!
