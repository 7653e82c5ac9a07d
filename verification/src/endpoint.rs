//! Targets of pooled connections: a hostname for TLS identity checks and a
//! resolved network address for dialing.

use vstd::prelude::*;

verus! {

/// A resolved IP address, held as plain values.
#[derive(Clone, Copy, Debug, PartialEq, Eq, Structural)]
pub enum IpAddress {
    /// The four octets of an IPv4 address, most significant first.
    V4(u8, u8, u8, u8),
    /// The eight 16-bit segments of an IPv6 address, most significant first.
    V6(u16, u16, u16, u16, u16, u16, u16, u16),
}

/// A socket address: an IP address plus a port.
#[derive(Clone, Copy, Debug, PartialEq, Eq, Structural)]
pub struct SocketAddress {
    pub ip: IpAddress,
    pub port: u16,
}

/// One target of pooled connections. The hostname identifies the peer for
/// certificate checks; the address says which socket to dial. Created once
/// per distinct target and never mutated afterwards.
#[derive(Clone, Debug)]
pub struct Endpoint {
    pub host: String,
    pub addr: SocketAddress,
}

impl Endpoint {
    /// An endpoint for the given hostname and resolved address.
    pub fn new(host: String, addr: SocketAddress) -> (r: Self)
        ensures
            r.host@ == host@,
            r.addr == addr,
    {
        Endpoint { host, addr }
    }
}

} // verus!
