//! Addresses and endpoints.

use vstd::prelude::*;

verus! {

/// An IPv4 address, as its four octets in network order.
#[derive(Clone, Copy, Debug, PartialEq, Eq, Hash, Structural)]
pub struct Ipv4Address(pub u8, pub u8, pub u8, pub u8);

impl Ipv4Address {
    /// The address `0.0.0.0`, which stands for every local interface.
    pub open spec fn wildcard() -> Ipv4Address {
        Ipv4Address(0, 0, 0, 0)
    }

    /// Membership in `224.0.0.0/4`, the block reserved for multicast groups.
    pub open spec fn spec_is_multicast(self) -> bool {
        224 <= self.0 <= 239
    }

    /// Tells whether the address names a multicast group.
    #[verifier::when_used_as_spec(spec_is_multicast)]
    pub fn is_multicast(self) -> (r: bool)
        ensures
            r == self.spec_is_multicast(),
    {
        224 <= self.0 && self.0 <= 239
    }
}

/// An IPv6 address, as its 128 bits in network order.
#[derive(Clone, Copy, Debug, PartialEq, Eq, Hash, Structural)]
pub struct Ipv6Address(pub u128);

/// An IPv4 address with a port.
#[derive(Clone, Copy, Debug, PartialEq, Eq, Hash, Structural)]
pub struct SocketV4 {
    pub ip: Ipv4Address,
    pub port: u16,
}

/// An IPv6 address with a port, a flow label and a scope.
#[derive(Clone, Copy, Debug, PartialEq, Eq, Hash, Structural)]
pub struct SocketV6 {
    pub ip: Ipv6Address,
    pub port: u16,
    pub flowinfo: u32,
    pub scope_id: u32,
}

/// The address of a datagram socket.
#[derive(Clone, Copy, Debug, PartialEq, Eq, Hash, Structural)]
pub enum SocketAddress {
    V4(SocketV4),
    V6(SocketV6),
}

/// The source or the destination of a datagram.
///
/// A relay resolves a domain name itself; a socket of the operating system
/// only ever sees IP endpoints.
#[derive(Clone, Debug, PartialEq, Eq, Hash)]
pub enum Endpoint {
    Ip(SocketAddress),
    Domain(String, u16),
}

impl Endpoint {
    /// Tells whether the endpoint is an IP address rather than a domain name.
    pub fn is_ip(&self) -> (r: bool)
        ensures
            r == (*self is Ip),
    {
        match self {
            Endpoint::Ip(_) => true,
            Endpoint::Domain(_, _) => false,
        }
    }
}

} // verus!
