use vstd::prelude::*;

use crate::ip::addr::AddrPair;

use super::tcp::connection::{Connection, ConnectionPool};
use super::{IpPayload, IpPayloadView};

verus! {

/// What the stack does after handling a packet.
#[derive(Debug)]
pub enum HandleStatus {
    /// Send these payloads back to the sender.
    Send(Vec<IpPayload>),
    /// Send nothing.
    Stop,
}

/// What the stack does after handling a packet.
pub enum HandleStatusView {
    Send(Seq<IpPayloadView>),
    Stop,
}

impl View for HandleStatus {
    type V = HandleStatusView;

    open spec fn view(&self) -> HandleStatusView {
        match self {
            HandleStatus::Send(v) => HandleStatusView::Send(v@.map_values(|p: IpPayload| p@)),
            HandleStatus::Stop => HandleStatusView::Stop,
        }
    }
}

/// A packet that the stack answers.
pub trait HandlePacket {
    /// The packets and connection states for which handling does not fail
    /// outright.
    spec fn handle_requires(&self, conns: Map<u64, Connection>, addr_pair: AddrPair) -> bool;

    /// Handles a packet from `addr_pair.src_addr` to `addr_pair.dst_addr`.
    fn handle_packet(&self, addr_pair: AddrPair, pool: &mut ConnectionPool) -> HandleStatus
        requires
            self.handle_requires(old(pool)@, addr_pair),
    ;
}

} // verus!
