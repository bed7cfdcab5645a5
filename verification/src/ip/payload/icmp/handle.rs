use vstd::prelude::*;

use crate::ip::addr::AddrPair;
use crate::ip::header::lemma_word_sum_pair;
use crate::ip::payload::handle::{HandlePacket, HandleStatus, HandleStatusView};
use crate::ip::payload::tcp::connection::{Connection, ConnectionPool};
use crate::ip::payload::IpPayloadView;
use crate::util::byte_extension::{be16, be16_bytes, copy_all, widen16};
use crate::util::checksum::{
    internet_checksum, lemma_checksum_verifies, lemma_word_sum_append, lemma_word_sum_bound, lemma_word_sum_nonneg, lemma_word_sum_be16,
    sum_fits, word_sum, Checksum,
};

use super::{IcmpPacket, IcmpPacketView, IcmpType};

verus! {

impl IcmpPacketView {
    /// The word sum of the echo reply to this message, without its checksum
    /// field (the reply's type and code are both zero).
    pub open spec fn echo_reply_sum(self) -> int {
        be16(IcmpType::EchoReply.number(), 0) + self.identifier + self.sequence_number + word_sum(
            self.payload,
        )
    }

    /// The echo reply to this message: same identifier, sequence number and
    /// data, with its checksum filled in.
    pub open spec fn echo_reply(self) -> IcmpPacketView {
        IcmpPacketView {
            icmp_type: IcmpType::EchoReply,
            code: 0,
            checksum: internet_checksum(self.echo_reply_sum()),
            identifier: self.identifier,
            sequence_number: self.sequence_number,
            payload: self.payload,
        }
    }

    /// The messages for which handling does not fail outright: the checksum
    /// sum of an echo reply fits in 32 bits.
    pub open spec fn handle_requires(self) -> bool {
        self.icmp_type == IcmpType::EchoRequest ==> self.echo_reply_sum() <= u32::MAX
    }

    /// The answer to this message.
    pub open spec fn handle_result(self) -> HandleStatusView {
        if self.icmp_type == IcmpType::EchoRequest {
            HandleStatusView::Send(seq![IpPayloadView::Icmp(self.echo_reply())])
        } else {
            HandleStatusView::Stop
        }
    }

    /// Handling fails outright only for an echo request whose reply's sum of
    /// identifier, sequence number and data words does not fit in 32 bits.
    pub proof fn lemma_handle_requires_exactly(self)
        ensures
            self.handle_requires() <==> (self.icmp_type == IcmpType::EchoRequest
                ==> self.identifier + self.sequence_number + word_sum(self.payload) <= u32::MAX),
    {
    }

    /// Every echo request with at most 131066 bytes of data (far more than
    /// fits in a frame) is answered with exactly one echo reply carrying its
    /// identifier, sequence number and data, type 0 and code 0; every other
    /// message is not answered.
    pub proof fn lemma_echo_request_answered(self)
        ensures
            self.icmp_type == IcmpType::EchoRequest && self.payload.len() <= 131066 ==> {
                &&& self.handle_requires()
                &&& self.handle_result() matches HandleStatusView::Send(ps)
                &&& ps.len() == 1
                &&& ps[0] matches IpPayloadView::Icmp(r)
                &&& r.icmp_type == IcmpType::EchoReply
                &&& r.code == 0
                &&& r.identifier == self.identifier
                &&& r.sequence_number == self.sequence_number
                &&& r.payload == self.payload
            },
            self.icmp_type != IcmpType::EchoRequest ==> self.handle_requires()
                && self.handle_result() == HandleStatusView::Stop,
    {
        lemma_word_sum_bound(self.payload);
        let n = self.payload.len();
        if n <= 131066 {
            assert((n + 1) / 2 <= 65533);
            assert(0xFFFF * ((n + 1) / 2) <= 0xFFFF * 65533) by (nonlinear_arith)
                requires
                    (n + 1) / 2 <= 65533,
            ;
        }
    }

    /// The word sum of a message on the wire is the sum of its fields.
    pub proof fn lemma_word_sum_bytes(self)
        ensures
            word_sum(self.bytes()) == be16(self.icmp_type.number(), self.code) + self.checksum
                + self.identifier + self.sequence_number + word_sum(self.payload),
    {
        let s1 = seq![self.icmp_type.number(), self.code];
        let s2 = s1 + be16_bytes(self.checksum);
        let s3 = s2 + be16_bytes(self.identifier);
        let s4 = s3 + be16_bytes(self.sequence_number);
        lemma_word_sum_pair(self.icmp_type.number(), self.code);
        lemma_word_sum_be16(self.checksum);
        lemma_word_sum_append(s1, be16_bytes(self.checksum));
        lemma_word_sum_be16(self.identifier);
        lemma_word_sum_append(s2, be16_bytes(self.identifier));
        lemma_word_sum_be16(self.sequence_number);
        lemma_word_sum_append(s3, be16_bytes(self.sequence_number));
        lemma_word_sum_append(s4, self.payload);
    }

    /// An echo reply checks to zero over its bytes on the wire.
    pub proof fn lemma_echo_reply_checksum_valid(self)
        ensures
            internet_checksum(word_sum(self.echo_reply().bytes())) == 0,
    {
        self.echo_reply().lemma_word_sum_bytes();
        lemma_word_sum_nonneg(self.payload);
        lemma_checksum_verifies(self.echo_reply_sum());
    }
}

impl IcmpPacket {
    /// Whether handling this message does not fail outright.
    pub fn can_handle(&self) -> (r: bool)
        ensures
            r == self@.handle_requires(),
    {
        match self.icmp_type {
            IcmpType::EchoRequest => sum_fits(
                widen16(self.identifier) + widen16(self.sequence_number),
                self.payload.as_slice(),
            ),
            _ => true,
        }
    }
}

impl HandlePacket for IcmpPacket {
    open spec fn handle_requires(&self, conns: Map<u64, Connection>, addr_pair: AddrPair) -> bool {
        self@.handle_requires()
    }

    /// An echo request is answered with its echo reply; any other message
    /// with nothing.
    fn handle_packet(&self, addr_pair: AddrPair, pool: &mut ConnectionPool) -> (r: HandleStatus)
        ensures
            r@ == self@.handle_result(),
            final(pool)@ == old(pool)@,
    {
        match self.icmp_type {
            IcmpType::EchoRequest => {
                let mut reply = Self {
                    icmp_type: IcmpType::EchoReply,
                    code: 0,
                    checksum: 0,
                    identifier: self.identifier,
                    sequence_number: self.sequence_number,
                    payload: copy_all(self.payload.as_slice()),
                };
                reply.checksum = Checksum::new().u8((reply.icmp_type.to_u8(), reply.code))
                    // the checksum field itself is left out
                    .u16(reply.identifier).u16(reply.sequence_number).vec(
                    reply.payload.as_slice(),
                ).export();
                let mut v: Vec<crate::ip::payload::IpPayload> = Vec::new();
                v.push(reply.into());
                assert(v@.map_values(|p: crate::ip::payload::IpPayload| p@) =~= seq![
                    IpPayloadView::Icmp(self@.echo_reply()),
                ]);
                HandleStatus::Send(v)
            },
            _ => HandleStatus::Stop,
        }
    }
}

} // verus!
