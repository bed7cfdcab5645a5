use std::collections::HashMap;

use vstd::prelude::*;

use crate::ip::addr::Addr;

verus! {

/// A TCP endpoint: an address and a port.
#[derive(Clone, Copy, PartialEq, Eq, Structural, Hash, Debug)]
pub struct SockAddr {
    pub addr: Addr,
    pub port: u16,
}

impl SockAddr {
    pub fn new(addr: Addr, port: u16) -> (r: Self)
        ensures
            r.addr == addr,
            r.port == port,
    {
        SockAddr { addr, port }
    }

    /// The number under which the endpoint is kept in a pool.
    pub open spec fn key(self) -> u64 {
        (self.addr.0 * 0x1_0000 + self.port) as u64
    }

    /// The number under which the endpoint is kept in a pool.
    pub fn pool_key(&self) -> (r: u64)
        ensures
            r == self.key(),
    {
        (self.addr.0 as u64) * 0x1_0000 + (self.port as u64)
    }

    /// Different endpoints are kept under different numbers.
    pub proof fn lemma_key_injective(self, other: SockAddr)
        ensures
            self.key() == other.key() ==> self == other,
    {
        if self.key() == other.key() {
            let a = self.addr.0 as int;
            let b = other.addr.0 as int;
            let p = self.port as int;
            let q = other.port as int;
            assert(a * 0x1_0000 + p == b * 0x1_0000 + q);
            assert(a == b && p == q) by (nonlinear_arith)
                requires
                    a * 0x1_0000 + p == b * 0x1_0000 + q,
                    0 <= p < 0x1_0000,
                    0 <= q < 0x1_0000,
            ;
        }
    }
}

/// The states of a server-side TCP connection.
#[derive(Clone, Copy, PartialEq, Eq, Structural, Debug)]
pub enum TcpState {
    Listen,
    SynReceived,
    Established,
    LastAck,
    Closed,
}

/// A TCP connection.
#[derive(Clone, Copy, PartialEq, Eq, Structural, Debug)]
pub struct Connection {
    pub state: TcpState,
}

impl Connection {
    /// A connection that waits for a peer to open it.
    pub fn new_server() -> (r: Self)
        ensures
            r.state == TcpState::Listen,
    {
        Connection::new(TcpState::Listen)
    }

    fn new(state: TcpState) -> (r: Self)
        ensures
            r.state == state,
    {
        Connection { state }
    }
}

/// The connection that a pool holds for `remote`: a listening one where it
/// holds none yet.
pub open spec fn lookup(conns: Map<u64, Connection>, remote: SockAddr) -> Connection {
    if conns.contains_key(remote.key()) {
        conns[remote.key()]
    } else {
        Connection { state: TcpState::Listen }
    }
}

/// The connections of this stack, one per remote endpoint.
#[derive(Debug)]
pub struct ConnectionPool {
    connections: HashMap<u64, Connection>,
}

impl View for ConnectionPool {
    type V = Map<u64, Connection>;

    closed spec fn view(&self) -> Map<u64, Connection> {
        self.connections@
    }
}

impl ConnectionPool {
    /// A pool without connections.
    pub fn new() -> (r: Self)
        ensures
            r@ == Map::<u64, Connection>::empty(),
    {
        ConnectionPool { connections: HashMap::new() }
    }

    /// The connection with `remote`; a new listening one is added first
    /// where there is none.
    pub fn get(&mut self, remote_addr: SockAddr) -> (r: Connection)
        ensures
            r == lookup(old(self)@, remote_addr),
            final(self)@ == old(self)@.insert(remote_addr.key(), r),
    {
        let key = remote_addr.pool_key();
        match self.connections.get(&key) {
            Some(con) => {
                let c = *con;
                assert(old(self)@.insert(key, c) =~= old(self)@);
                c
            },
            None => {
                let con = Connection::new_server();
                self.connections.insert(key, con);
                con
            },
        }
    }

    /// The connection with `remote`, or a new listening one where there is
    /// none; the pool is left as it is.
    pub fn peek(&self, remote_addr: SockAddr) -> (r: Connection)
        ensures
            r == lookup(self@, remote_addr),
    {
        let key = remote_addr.pool_key();
        match self.connections.get(&key) {
            Some(con) => *con,
            None => Connection::new_server(),
        }
    }

    /// Stores the connection with `remote`.
    pub fn update(&mut self, remote_addr: SockAddr, con: Connection)
        ensures
            final(self)@ == old(self)@.insert(remote_addr.key(), con),
    {
        let key = remote_addr.pool_key();
        self.connections.insert(key, con);
    }
}

} // verus!
