use vstd::prelude::*;

use crate::ip::addr::AddrPair;
use crate::ip::payload::handle::{HandlePacket, HandleStatus, HandleStatusView};
use crate::ip::payload::tcp::connection::{Connection, ConnectionPool};

use super::UdpPacket;

verus! {

impl HandlePacket for UdpPacket {
    open spec fn handle_requires(&self, conns: Map<u64, Connection>, addr_pair: AddrPair) -> bool {
        true
    }

    /// Datagrams are received and answered with nothing.
    fn handle_packet(&self, addr_pair: AddrPair, pool: &mut ConnectionPool) -> (r: HandleStatus)
        ensures
            r@ == HandleStatusView::Stop,
            final(pool)@ == old(pool)@,
    {
        HandleStatus::Stop
    }
}

} // verus!
