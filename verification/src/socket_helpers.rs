//! How TCP sockets are set up.

use vstd::prelude::*;

use crate::sockaddr::{SocketAddr, SocketAddrV6, AF_INET, AF_INET6};
use crate::time::Duration;

verus! {

/// How many connections may wait to be accepted.
pub const LISTEN_BACKLOG: i32 = 128;

/// When a connection on which nothing happens is probed.
#[derive(Clone, Copy, Debug, PartialEq, Eq, Structural)]
pub struct KeepAlive {
    /// How long before the first probe.
    pub idle: Duration,
    /// How long between probes.
    pub interval: Duration,
    /// How many probes before the connection counts as dead.
    pub probes: u32,
}

/// The keep-alive of connections: a dead one is found within a minute after it fell idle.
pub fn keep_alive() -> (k: KeepAlive)
    ensures
        k.idle@ == 30_000_000_000,
        k.interval@ == 1_000_000_000,
        k.probes == 30,
        k.idle@ + k.interval@ * k.probes == 60_000_000_000,
{
    KeepAlive { idle: Duration::from_secs(30), interval: Duration::from_secs(1), probes: 30 }
}

/// The address that a server listens on: all interfaces, at this port.
pub fn server_address(port: u16) -> (a: SocketAddrV6)
    ensures
        forall|i: int| 0 <= i < 16 ==> a.octets@[i] == 0,
        a.port == port,
        a.flowinfo == 0,
        a.scope_id == 0,
{
    SocketAddrV6 { octets: [0u8; 16], port, flowinfo: 0, scope_id: 0 }
}

/// The address family of a client socket for this address.
pub fn client_domain(addr: &SocketAddr) -> (domain: u16)
    ensures
        domain == (if addr is V4 {
            AF_INET
        } else {
            AF_INET6
        }),
{
    match addr {
        SocketAddr::V4(_) => AF_INET,
        SocketAddr::V6(_) => AF_INET6,
    }
}

} // verus!
