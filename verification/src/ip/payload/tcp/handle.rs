use vstd::prelude::*;

use crate::ip::addr::AddrPair;
use crate::ip::payload::handle::{HandlePacket, HandleStatus, HandleStatusView};
use crate::ip::payload::{IpPayload, IpPayloadView};
use crate::ip::protocol::Protocol;
use crate::util::byte_extension::{copy_all, push_bytes};
use crate::util::checksum::{lemma_word_sum_append, lemma_word_sum_nonneg, lemma_word_sum_pad, sum_fits};

use super::connection::{lookup, Connection, ConnectionPool, SockAddr, TcpState};
use super::types::{DataOffsetReserved, TcpFlags};
use super::{TcpPacket, TcpPacketView};

verus! {

impl TcpPacketView {
    /// An empty segment back to the sender of this one, with the given
    /// numbers and flags, the header length of a header without options
    /// (0x50), the sender's window, these options, and a zero checksum.
    pub open spec fn reply(self, sequence_number: u32, acknowledgment_number: u32, flags: u8) -> TcpPacketView {
        TcpPacketView {
            source_port: self.destination_port,
            destination_port: self.source_port,
            sequence_number,
            acknowledgment_number,
            data_offset_reserved: DataOffsetReserved(0x50),
            flags: TcpFlags(flags),
            window_size: self.window_size,
            checksum: 0,
            urgent_pointer: 0,
            options: self.options,
            payload: Seq::empty(),
        }
    }

    /// The remote endpoint of a segment received from `addr_pair.src_addr`.
    pub open spec fn remote(self, addr_pair: AddrPair) -> SockAddr {
        SockAddr { addr: addr_pair.src_addr, port: self.source_port }
    }

    /// Whether the numbers of the reply to this segment in `state` would
    /// not fit in 32 bits.
    pub open spec fn seq_overflows(self, state: TcpState) -> bool {
        match state {
            TcpState::Listen => self.flags.has(TcpFlags::SYN) && self.sequence_number + 1
                > u32::MAX,
            TcpState::Established => if self.flags.has(TcpFlags::FIN) {
                self.sequence_number + 1 > u32::MAX
            } else {
                self.sequence_number + (self.payload.len() as u32) > u32::MAX
            },
            _ => false,
        }
    }

    /// The segments and states for which handling does not fail outright:
    /// the reply's numbers and its checksum sum fit their types.
    pub open spec fn step_requires(self, state: TcpState, addr_pair: AddrPair) -> bool {
        &&& !self.seq_overflows(state)
        &&& match tcp_step(state, self).1 {
            Some(reply) => reply.size() <= usize::MAX && reply.checksum_sum(addr_pair)
                <= u32::MAX,
            None => true,
        }
    }

    /// The segments for which handling does not fail outright, given the
    /// connections that the pool holds.
    pub open spec fn handle_requires(self, conns: Map<u64, Connection>, addr_pair: AddrPair) -> bool {
        self.step_requires(lookup(conns, self.remote(addr_pair)).state, addr_pair)
    }

    /// The connections and answer after this segment is handled.
    pub open spec fn handle_result(self, conns: Map<u64, Connection>, addr_pair: AddrPair) -> (
        Map<u64, Connection>,
        HandleStatusView,
    ) {
        let remote = self.remote(addr_pair);
        let step = tcp_step(lookup(conns, remote).state, self);
        (
            conns.insert(remote.key(), Connection { state: step.0 }),
            match step.1 {
                Some(reply) => HandleStatusView::Send(
                    seq![IpPayloadView::Tcp(reply.with_checksum(addr_pair))],
                ),
                None => HandleStatusView::Stop,
            },
        )
    }
}

/// The server side of a TCP connection: the next state and the reply (its
/// checksum not yet filled in) for a segment received in `state`.
///
/// - Listen: a SYN is answered with SYN+ACK (sequence number 1,
///   acknowledging the SYN) and the connection is half open; anything else
///   is ignored.
/// - SynReceived: an ACK establishes the connection.
/// - Established: a FIN is acknowledged and closes the connection (at once
///   if it also carries an ACK, else after the last ACK); any other segment
///   is acknowledged up to the end of its data.
/// - LastAck: an ACK closes the connection.
/// - Closed: everything is ignored.
pub open spec fn tcp_step(state: TcpState, seg: TcpPacketView) -> (TcpState, Option<TcpPacketView>) {
    match state {
        TcpState::Listen => if seg.flags.has(TcpFlags::SYN) {
            (
                TcpState::SynReceived,
                Some(
                    seg.reply(
                        1,
                        (seg.sequence_number + 1) as u32,
                        TcpFlags::SYN | TcpFlags::ACK,
                    ),
                ),
            )
        } else {
            (TcpState::Listen, None)
        },
        TcpState::SynReceived => if seg.flags.has(TcpFlags::ACK) {
            (TcpState::Established, None)
        } else {
            (TcpState::SynReceived, None)
        },
        TcpState::Established => if seg.flags.has(TcpFlags::FIN) {
            (
                if seg.flags.has(TcpFlags::ACK) {
                    TcpState::Closed
                } else {
                    TcpState::LastAck
                },
                Some(
                    seg.reply(
                        seg.acknowledgment_number,
                        (seg.sequence_number + 1) as u32,
                        TcpFlags::ACK,
                    ),
                ),
            )
        } else {
            (
                TcpState::Established,
                Some(
                    seg.reply(
                        seg.acknowledgment_number,
                        (seg.sequence_number + (seg.payload.len() as u32)) as u32,
                        TcpFlags::ACK,
                    ),
                ),
            )
        },
        TcpState::LastAck => if seg.flags.has(TcpFlags::ACK) {
            (TcpState::Closed, None)
        } else {
            (TcpState::LastAck, None)
        },
        TcpState::Closed => (TcpState::Closed, None),
    }
}

/// Handling a segment changes the pool's connection with its sender only.
pub proof fn lemma_handle_touches_sender_only(
    seg: TcpPacketView,
    conns: Map<u64, Connection>,
    addr_pair: AddrPair,
    other: SockAddr,
)
    requires
        other != seg.remote(addr_pair),
    ensures
        lookup(seg.handle_result(conns, addr_pair).0, other) == lookup(conns, other),
{
    other.lemma_key_injective(seg.remote(addr_pair));
}

/// The order in which a connection passes through its states.
pub open spec fn state_rank(state: TcpState) -> int {
    match state {
        TcpState::Listen => 0,
        TcpState::SynReceived => 1,
        TcpState::Established => 2,
        TcpState::LastAck => 3,
        TcpState::Closed => 4,
    }
}

/// A connection never goes back to an earlier state, and a closed one stays
/// closed and answers nothing.
pub proof fn lemma_state_progress(state: TcpState, seg: TcpPacketView)
    ensures
        state_rank(tcp_step(state, seg).0) >= state_rank(state),
        state == TcpState::Closed ==> tcp_step(state, seg) == (TcpState::Closed, None::<TcpPacketView>),
{
}

/// In Listen, a SYN is answered with a SYN+ACK of sequence number 1 that
/// acknowledges exactly the SYN's sequence number plus one, whatever options
/// or data the SYN carries, and the connection becomes half open; a segment
/// without SYN is ignored.
pub proof fn lemma_listen_answers_syn(seg: TcpPacketView)
    ensures
        seg.flags.has(TcpFlags::SYN) ==> {
            &&& tcp_step(TcpState::Listen, seg).0 == TcpState::SynReceived
            &&& tcp_step(TcpState::Listen, seg).1 matches Some(r)
            &&& r.sequence_number == 1
            &&& r.acknowledgment_number == (seg.sequence_number + 1) as u32
            &&& r.flags.0 == 0x12
            &&& r.source_port == seg.destination_port
            &&& r.destination_port == seg.source_port
            &&& r.payload.len() == 0
        },
        !seg.flags.has(TcpFlags::SYN) ==> tcp_step(TcpState::Listen, seg) == (
            TcpState::Listen,
            None::<TcpPacketView>,
        ),
{
    assert(0x02u8 | 0x10u8 == 0x12u8) by (bit_vector);
}

/// In SynReceived an ACK establishes the connection, and in LastAck an ACK
/// closes it; neither state answers anything.
pub proof fn lemma_ack_advances(seg: TcpPacketView)
    ensures
        tcp_step(TcpState::SynReceived, seg).1 is None,
        tcp_step(TcpState::SynReceived, seg).0 == (if seg.flags.has(TcpFlags::ACK) {
            TcpState::Established
        } else {
            TcpState::SynReceived
        }),
        tcp_step(TcpState::LastAck, seg).1 is None,
        tcp_step(TcpState::LastAck, seg).0 == (if seg.flags.has(TcpFlags::ACK) {
            TcpState::Closed
        } else {
            TcpState::LastAck
        }),
{
}

/// In Established, every segment is answered with an ACK whose sequence
/// number is the segment's acknowledgment number. A segment without FIN is
/// acknowledged up to the end of its data (its sequence number plus the
/// length of its data, whatever options it carries) and the connection stays
/// established; a FIN is acknowledged as one more number, and closes the
/// connection at once if it also carries an ACK, else after the last ACK.
pub proof fn lemma_established_acknowledges(seg: TcpPacketView)
    ensures
        tcp_step(TcpState::Established, seg).1 matches Some(r) && r.sequence_number
            == seg.acknowledgment_number && r.flags.0 == TcpFlags::ACK && r.source_port
            == seg.destination_port && r.destination_port == seg.source_port
            && r.payload.len() == 0,
        !seg.flags.has(TcpFlags::FIN) ==> {
            &&& tcp_step(TcpState::Established, seg).0 == TcpState::Established
            &&& tcp_step(TcpState::Established, seg).1->Some_0.acknowledgment_number == (
            seg.sequence_number + (seg.payload.len() as u32)) as u32
        },
        seg.flags.has(TcpFlags::FIN) ==> {
            &&& tcp_step(TcpState::Established, seg).0 == (if seg.flags.has(TcpFlags::ACK) {
                TcpState::Closed
            } else {
                TcpState::LastAck
            })
            &&& tcp_step(TcpState::Established, seg).1->Some_0.acknowledgment_number == (
            seg.sequence_number + 1) as u32
        },
{
}

/// What the stack sends for a segment is one segment back to its sender
/// whose numbers are those above (only its checksum is filled in), and the
/// sender's connection moves on as above.
pub proof fn lemma_handle_sends_step_reply(
    seg: TcpPacketView,
    conns: Map<u64, Connection>,
    addr_pair: AddrPair,
)
    ensures
        ({
            let state = lookup(conns, seg.remote(addr_pair)).state;
            let result = seg.handle_result(conns, addr_pair);
            &&& lookup(result.0, seg.remote(addr_pair)).state == tcp_step(state, seg).0
            &&& (tcp_step(state, seg).1 is None ==> result.1 == HandleStatusView::Stop)
            &&& (tcp_step(state, seg).1 matches Some(r) ==> {
                &&& result.1 matches HandleStatusView::Send(ps)
                &&& ps.len() == 1
                &&& ps[0] matches IpPayloadView::Tcp(sent)
                &&& sent.source_port == r.source_port
                &&& sent.destination_port == r.destination_port
                &&& sent.sequence_number == r.sequence_number
                &&& sent.acknowledgment_number == r.acknowledgment_number
                &&& sent.flags == r.flags
                &&& sent.options == r.options
                &&& sent.payload == r.payload
            })
        }),
{
}

/// Every reply goes back to the sender's port from the port it was sent to,
/// acknowledges, carries no data, and has only the segment's options after a
/// header of 20 bytes; a reply is sent only in Listen and Established.
pub proof fn lemma_reply_shape(state: TcpState, seg: TcpPacketView)
    ensures
        tcp_step(state, seg).1 matches Some(reply) ==> {
            &&& reply.source_port == seg.destination_port
            &&& reply.destination_port == seg.source_port
            &&& reply.flags.has(TcpFlags::ACK)
            &&& reply.payload.len() == 0
            &&& reply.options == seg.options
            &&& reply.data_offset_reserved.offset() == 20
            &&& (state == TcpState::Listen || state == TcpState::Established)
        },
{
    assert((0x02u8 | 0x10u8) & 0x10u8 == 0x10u8) by (bit_vector);
    assert(0x10u8 & 0x10u8 == 0x10u8) by (bit_vector);
}

impl TcpPacket {
    fn reply(&self, sequence_number: u32, acknowledgment_number: u32, flags: u8) -> (r: TcpPacket)
        ensures
            r@ == self@.reply(sequence_number, acknowledgment_number, flags),
    {
        let r = TcpPacket {
            source_port: self.destination_port,
            destination_port: self.source_port,
            sequence_number,
            acknowledgment_number,
            data_offset_reserved: DataOffsetReserved::new(0x50),
            flags: TcpFlags::from_bits_truncate(flags),
            window_size: self.window_size,
            checksum: 0,
            urgent_pointer: 0,
            options: copy_all(self.options.as_slice()),
            payload: Vec::new(),
        };
        assert(r@.payload =~= Seq::<u8>::empty());
        r
    }
}

impl TcpPacket {
    /// Whether the checksum sum of this segment fits in 32 bits.
    fn checksum_sum_fits(&self, addr_pair: AddrPair) -> (r: bool)
        requires
            self@.size() <= usize::MAX,
        ensures
            r == (self@.checksum_sum(addr_pair) <= u32::MAX),
    {
        let src = addr_pair.src_addr.value() as u64;
        let dst = addr_pair.dst_addr.value() as u64;
        let len = self.size() as u32 as u64;
        let seq = self.sequence_number as u64;
        let ack = self.acknowledgment_number as u64;
        let fixed: u64 = src / 0x1_0000 + src % 0x1_0000 + dst / 0x1_0000 + dst % 0x1_0000
            + Protocol::Tcp.to_u8() as u64 + len / 0x1_0000 + len % 0x1_0000
            + self.source_port as u64 + self.destination_port as u64 + seq / 0x1_0000 + seq
            % 0x1_0000 + ack / 0x1_0000 + ack % 0x1_0000 + (self.data_offset_reserved.value()
            as u64) * 256 + self.flags.bits() as u64 + self.window_size as u64
            + self.urgent_pointer as u64;
        proof {
            lemma_word_sum_nonneg(self.options@);
            lemma_word_sum_nonneg(self.payload@);
        }
        if !sum_fits(fixed, self.options.as_slice()) {
            return false;
        }
        let mut both: Vec<u8> = copy_all(self.options.as_slice());
        if self.options.len() % 2 == 1 {
            // the options' last byte was padded; keep the data's words apart
            both.push(0);
        }
        let ghost padded = both@;
        push_bytes(&mut both, self.payload.as_slice());
        proof {
            if self.options@.len() % 2 == 1 {
                lemma_word_sum_pad(self.options@);
            }
            lemma_word_sum_append(padded, self.payload@);
        }
        sum_fits(fixed, both.as_slice())
    }

    /// Whether handling this segment in `state` does not fail outright.
    pub fn can_handle(&self, state: TcpState, addr_pair: AddrPair) -> (r: bool)
        ensures
            r == self@.step_requires(state, addr_pair),
    {
        if self.options.len() > usize::MAX - 20 {
            return match state {
                TcpState::Listen => !self.flags.contains(TcpFlags::SYN),
                TcpState::Established => false,
                _ => true,
            };
        }
        match state {
            TcpState::Listen => {
                if !self.flags.contains(TcpFlags::SYN) {
                    true
                } else if self.sequence_number == u32::MAX {
                    false
                } else {
                    let reply = self.reply(
                        1,
                        self.sequence_number + 1,
                        TcpFlags::SYN | TcpFlags::ACK,
                    );
                    reply.checksum_sum_fits(addr_pair)
                }
            },
            TcpState::Established => {
                if self.flags.contains(TcpFlags::FIN) {
                    if self.sequence_number == u32::MAX {
                        false
                    } else {
                        let reply = self.reply(
                            self.acknowledgment_number,
                            self.sequence_number + 1,
                            TcpFlags::ACK,
                        );
                        reply.checksum_sum_fits(addr_pair)
                    }
                } else {
                    let len = self.payload.len() as u32;
                    if self.sequence_number as u64 + len as u64 > u32::MAX as u64 {
                        false
                    } else {
                        let reply = self.reply(
                            self.acknowledgment_number,
                            self.sequence_number + len,
                            TcpFlags::ACK,
                        );
                        reply.checksum_sum_fits(addr_pair)
                    }
                }
            },
            _ => true,
        }
    }
}

fn send_one(packet: TcpPacket) -> (r: HandleStatus)
    ensures
        r@ == HandleStatusView::Send(seq![IpPayloadView::Tcp(packet@)]),
{
    let ghost v = packet@;
    let mut payloads: Vec<IpPayload> = Vec::new();
    payloads.push(packet.into());
    assert(payloads@.map_values(|p: IpPayload| p@) =~= seq![IpPayloadView::Tcp(v)]);
    HandleStatus::Send(payloads)
}

impl HandlePacket for TcpPacket {
    open spec fn handle_requires(&self, conns: Map<u64, Connection>, addr_pair: AddrPair) -> bool {
        self@.handle_requires(conns, addr_pair)
    }

    /// Runs the segment through its connection's state machine (see
    /// `tcp_step`), keeps the connection's new state in the pool and answers
    /// with the reply, its checksum filled in.
    fn handle_packet(&self, addr_pair: AddrPair, pool: &mut ConnectionPool) -> (r: HandleStatus)
        ensures
            final(pool)@ == self@.handle_result(old(pool)@, addr_pair).0,
            r@ == self@.handle_result(old(pool)@, addr_pair).1,
    {
        let remote = SockAddr::new(addr_pair.src_addr, self.source_port);
        let mut con = pool.get(remote);
        let ghost step = tcp_step(con.state, self@);
        let status = match con.state {
            TcpState::Listen => {
                if self.flags.contains(TcpFlags::SYN) {
                    let mut reply = self.reply(
                        1,
                        self.sequence_number + 1,
                        TcpFlags::SYN | TcpFlags::ACK,
                    );
                    con.state = TcpState::SynReceived;
                    reply.update_checksum(addr_pair);
                    send_one(reply)
                } else {
                    HandleStatus::Stop
                }
            },
            TcpState::SynReceived => {
                if self.flags.contains(TcpFlags::ACK) {
                    con.state = TcpState::Established;
                }
                HandleStatus::Stop
            },
            TcpState::Established => {
                if self.flags.contains(TcpFlags::FIN) {
                    let mut reply = self.reply(
                        self.acknowledgment_number,
                        self.sequence_number + 1,
                        TcpFlags::ACK,
                    );
                    if self.flags.contains(TcpFlags::ACK) {
                        con.state = TcpState::Closed;
                    } else {
                        con.state = TcpState::LastAck;
                    }
                    reply.update_checksum(addr_pair);
                    send_one(reply)
                } else {
                    let mut reply = self.reply(
                        self.acknowledgment_number,
                        self.sequence_number + self.payload.len() as u32,
                        TcpFlags::ACK,
                    );
                    reply.update_checksum(addr_pair);
                    send_one(reply)
                }
            },
            TcpState::LastAck => {
                if self.flags.contains(TcpFlags::ACK) {
                    con.state = TcpState::Closed;
                }
                HandleStatus::Stop
            },
            TcpState::Closed => HandleStatus::Stop,
        };
        assert(con.state == step.0);
        pool.update(remote, con);
        assert(pool@ =~= self@.handle_result(old(pool)@, addr_pair).0);
        status
    }
}

} // verus!
