//! Network endpoints as plain values.

use vstd::prelude::*;

verus! {

/// An IP address: the integer that its bytes spell in network order.
#[derive(Clone, Copy, Debug, PartialEq, Eq, Structural)]
pub enum IpAddress {
    V4(u32),
    V6(u128),
}

/// A version 4 endpoint.
#[derive(Clone, Copy, Debug, PartialEq, Eq, Structural)]
pub struct SocketAddressV4 {
    pub ip: u32,
    pub port: u16,
}

/// A version 6 endpoint, with its flow label and the number of its scope.
#[derive(Clone, Copy, Debug, PartialEq, Eq, Structural)]
pub struct SocketAddressV6 {
    pub ip: u128,
    pub port: u16,
    pub flowinfo: u32,
    pub scope_id: u32,
}

/// A network endpoint, host and port.
///
/// Two endpoints are the same when every field is: for version 6 the flow
/// label and the scope too.
#[derive(Clone, Copy, Debug, PartialEq, Eq, Structural)]
pub enum SocketAddress {
    V4(SocketAddressV4),
    V6(SocketAddressV6),
}

/// The integer of the version 4 address `a.b.c.d`.
pub open spec fn octets_value(a: u8, b: u8, c: u8, d: u8) -> int {
    a as int * 0x100_0000 + b as int * 0x1_0000 + c as int * 0x100 + d as int
}

impl IpAddress {
    /// The version 4 address `a.b.c.d`.
    pub fn from_octets(a: u8, b: u8, c: u8, d: u8) -> (ip: IpAddress)
        ensures
            ip == IpAddress::V4(octets_value(a, b, c, d) as u32),
            octets_value(a, b, c, d) <= u32::MAX,
    {
        let high: u32 = a as u32 * 0x100_0000 + b as u32 * 0x1_0000;
        let low: u32 = c as u32 * 0x100 + d as u32;
        IpAddress::V4(high + low)
    }
}

impl SocketAddress {
    /// The host of this endpoint.
    pub open spec fn ip_spec(self) -> IpAddress {
        match self {
            SocketAddress::V4(v4) => IpAddress::V4(v4.ip),
            SocketAddress::V6(v6) => IpAddress::V6(v6.ip),
        }
    }

    /// The port of this endpoint.
    pub open spec fn port_spec(self) -> u16 {
        match self {
            SocketAddress::V4(v4) => v4.port,
            SocketAddress::V6(v6) => v6.port,
        }
    }

    /// The endpoint of `ip` and `port`; for version 6 with flow label and
    /// scope zero.
    pub open spec fn of(ip: IpAddress, port: u16) -> SocketAddress {
        match ip {
            IpAddress::V4(ip) => SocketAddress::V4(SocketAddressV4 { ip, port }),
            IpAddress::V6(ip) => SocketAddress::V6(
                SocketAddressV6 { ip, port, flowinfo: 0, scope_id: 0 },
            ),
        }
    }

    /// Builds the endpoint of a host and a port.
    pub fn new(ip: IpAddress, port: u16) -> (address: SocketAddress)
        ensures
            address == SocketAddress::of(ip, port),
    {
        match ip {
            IpAddress::V4(ip) => SocketAddress::V4(SocketAddressV4 { ip, port }),
            IpAddress::V6(ip) => SocketAddress::V6(
                SocketAddressV6 { ip, port, flowinfo: 0, scope_id: 0 },
            ),
        }
    }

    /// The host.
    pub fn ip(&self) -> (ip: IpAddress)
        ensures
            ip == self.ip_spec(),
    {
        match self {
            SocketAddress::V4(v4) => IpAddress::V4(v4.ip),
            SocketAddress::V6(v6) => IpAddress::V6(v6.ip),
        }
    }

    /// The port.
    pub fn port(&self) -> (port: u16)
        ensures
            port == self.port_spec(),
    {
        match self {
            SocketAddress::V4(v4) => v4.port,
            SocketAddress::V6(v6) => v6.port,
        }
    }
}

/// Where a listener is bound: chosen once at startup.
#[derive(Clone, Copy, Debug, PartialEq, Eq, Structural)]
pub enum BindAddress {
    /// A Unix domain socket that the process already holds, by its descriptor.
    UnixSocket(i32),
    /// A TCP endpoint.
    TcpSocket(SocketAddress),
}

/// Anything that stands for one network endpoint.
pub trait ToSocketAddr {
    /// The endpoint this value stands for.
    spec fn endpoint(&self) -> SocketAddress;

    fn address(&self) -> (address: &SocketAddress)
        ensures
            *address == self.endpoint(),
    ;
}

} // verus!
