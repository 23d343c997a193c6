//! The plan for an IPv4 multicast socket.

use vstd::prelude::*;
use crate::address::Ipv4Address;
use crate::address::SocketAddress;
use crate::address::SocketV4;
use crate::socket::is_plan;
use crate::socket::Family;
use crate::socket::SocketStep;

verus! {

/// The bound, in milliseconds, on one blocking read of a multicast socket.
///
/// A read that may block without bound can starve the timers of a cooperative
/// scheduler. The bound makes the driver poll again often enough; the protocol
/// itself does not need it.
pub const READ_TIMEOUT_MS: u64 = 100;

/// The steps that make a multicast socket.
///
/// Either way the socket allows address reuse, bounds its reads and binds on
/// every interface. With a group it joins the group, hears its own sends and
/// binds the group's port. Without one it only chooses the interface for
/// sending and binds a port that the system picks.
pub open spec fn multicast_steps(maddr: Option<SocketV4>) -> Seq<SocketStep> {
    let any = Ipv4Address::wildcard();
    let setup = seq![
        SocketStep::Open { family: Family::V4 },
        SocketStep::ReuseAddress,
        SocketStep::ReadTimeout { ms: READ_TIMEOUT_MS },
    ];
    match maddr {
        Some(group) => setup + seq![
            SocketStep::JoinMulticastV4 { group: group.ip, interface: any },
            SocketStep::MulticastLoopV4 { enabled: true },
            SocketStep::Bind { local: SocketAddress::V4(SocketV4 { ip: any, port: group.port }) },
        ],
        None => setup + seq![
            SocketStep::MulticastIfV4 { interface: any },
            SocketStep::Bind { local: SocketAddress::V4(SocketV4 { ip: any, port: 0 }) },
        ],
    }
}

/// Plans a socket for IPv4 multicast: a member of the group `maddr` if one is
/// given, a sender only if not.
///
/// A group address that is no multicast address is a mistake of the caller,
/// and no plan exists for it.
pub fn bind_multicast(maddr: Option<SocketV4>) -> (plan: Vec<SocketStep>)
    requires
        maddr matches Some(group) ==> group.ip.is_multicast(),
    ensures
        plan@ == multicast_steps(maddr),
        is_plan(plan@),
{
    let any = Ipv4Address(0, 0, 0, 0);
    let mut plan: Vec<SocketStep> = Vec::new();
    plan.push(SocketStep::Open { family: Family::V4 });
    plan.push(SocketStep::ReuseAddress);
    plan.push(SocketStep::ReadTimeout { ms: READ_TIMEOUT_MS });
    match maddr {
        Some(group) => {
            plan.push(SocketStep::JoinMulticastV4 { group: group.ip, interface: any });
            plan.push(SocketStep::MulticastLoopV4 { enabled: true });
            plan.push(
                SocketStep::Bind { local: SocketAddress::V4(SocketV4 { ip: any, port: group.port }) },
            );
        },
        None => {
            plan.push(SocketStep::MulticastIfV4 { interface: any });
            plan.push(SocketStep::Bind { local: SocketAddress::V4(SocketV4 { ip: any, port: 0 }) });
        },
    }
    plan
}

} // verus!
