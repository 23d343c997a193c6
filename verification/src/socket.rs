//! Plans for configuring and binding a datagram socket.

use vstd::prelude::*;
use crate::address::Ipv4Address;
use crate::address::SocketAddress;

verus! {

/// The address family of a socket.
#[derive(Clone, Copy, Debug, PartialEq, Eq, Hash, Structural)]
pub enum Family {
    V4,
    V6,
}

/// What the platform offers for sharing a local port.
#[derive(Clone, Copy, Debug, PartialEq, Eq, Hash, Structural)]
pub enum Platform {
    /// Port reuse is an option of its own, beside address reuse.
    PosixLike,
    /// Address reuse is the only option, and the nearest there is to port
    /// reuse. How datagrams are shared between sockets bound to one port is
    /// then up to the platform.
    AddressReuseOnly,
}

/// One operation on a socket that is being set up.
///
/// A plan is a list of steps for the I/O driver to carry out in order, on one
/// socket. The first failure ends the setup.
#[derive(Clone, Copy, Debug, PartialEq, Eq, Hash, Structural)]
pub enum SocketStep {
    /// Create a datagram socket of this family.
    Open { family: Family },
    /// Let other sockets bind the same port.
    ReusePort,
    /// Let other sockets bind the same address.
    ReuseAddress,
    /// Bound every blocking read by this many milliseconds.
    ReadTimeout { ms: u64 },
    /// Join the multicast group on the interface.
    JoinMulticastV4 { group: Ipv4Address, interface: Ipv4Address },
    /// Say whether the host receives the multicast datagrams it sends itself.
    MulticastLoopV4 { enabled: bool },
    /// Send multicast datagrams out through the interface.
    MulticastIfV4 { interface: Ipv4Address },
    /// Bind the socket to the local address.
    Bind { local: SocketAddress },
}

impl SocketAddress {
    /// The family that the form of the address selects.
    pub open spec fn spec_family(self) -> Family {
        match self {
            SocketAddress::V4(_) => Family::V4,
            SocketAddress::V6(_) => Family::V6,
        }
    }

    /// The family of a socket that can bind this address.
    #[verifier::when_used_as_spec(spec_family)]
    pub fn family(self) -> (r: Family)
        ensures
            r == self.spec_family(),
    {
        match self {
            SocketAddress::V4(_) => Family::V4,
            SocketAddress::V6(_) => Family::V6,
        }
    }
}

/// The shape of every plan: it opens the socket first, binds it last, and
/// sets nothing but options in between.
pub open spec fn is_plan(steps: Seq<SocketStep>) -> bool {
    &&& steps.len() >= 2
    &&& steps[0] is Open
    &&& steps.last() is Bind
    &&& forall|i: int|
        0 < i < steps.len() - 1 ==> !(#[trigger] steps[i] is Open) && !(steps[i] is Bind)
}

/// The options that a request for reuse turns on: port reuse where the
/// platform has it, then address reuse; none without the request.
pub open spec fn reuse_steps(reuse: bool, platform: Platform) -> Seq<SocketStep> {
    if !reuse {
        seq![]
    } else if platform == Platform::PosixLike {
        seq![SocketStep::ReusePort, SocketStep::ReuseAddress]
    } else {
        seq![SocketStep::ReuseAddress]
    }
}

/// The steps that make a socket bound to `addr`: open it in the family of
/// `addr`, set the options, bind.
pub open spec fn socket_steps(addr: SocketAddress, options: Seq<SocketStep>) -> Seq<SocketStep> {
    seq![SocketStep::Open { family: addr.family() }] + options + seq![
        SocketStep::Bind { local: addr },
    ]
}

/// Plans a datagram socket bound to `addr`, which other sockets may share
/// the port with if `reuse` is set.
pub fn new_socket(addr: SocketAddress, reuse: bool, platform: Platform) -> (plan: Vec<SocketStep>)
    ensures
        plan@ == socket_steps(addr, reuse_steps(reuse, platform)),
        is_plan(plan@),
{
    let mut plan: Vec<SocketStep> = Vec::new();
    plan.push(SocketStep::Open { family: addr.family() });
    if reuse {
        match platform {
            Platform::PosixLike => {
                plan.push(SocketStep::ReusePort);
            },
            Platform::AddressReuseOnly => {},
        }
        plan.push(SocketStep::ReuseAddress);
    }
    plan.push(SocketStep::Bind { local: addr });
    plan
}

} // verus!
