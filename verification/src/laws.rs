//! What holds of the transport's operations taken together.

use vstd::prelude::*;
use bytes::Bytes;
use crate::address::Endpoint;
use crate::address::SocketAddress;
use crate::error::TransportError;
use crate::payload::bytes_of;
use crate::transport::awaited;
use crate::transport::outgoing;
use crate::transport::received;
use crate::transport::Arrival;
use crate::transport::DirectSocket;
use crate::transport::Frame;
use crate::transport::FrameView;
use crate::transport::FramedSocket;
use crate::transport::Wait;

verus! {

/// The form in which the backend of `socket` hands over `data` that `source`
/// sent: as it comes from the operating system, or unwrapped by a relay at
/// `relay` that names the sender faithfully.
pub open spec fn arrival_at(
    socket: FramedSocket,
    data: Bytes,
    source: SocketAddress,
    relay: SocketAddress,
) -> Arrival {
    match socket {
        FramedSocket::Direct(_) => Arrival::Datagram { data, source },
        FramedSocket::ProxySocks(_) => Arrival::Relayed {
            data,
            sender: Endpoint::Ip(source),
            relay,
        },
    }
}

/// Round trip. Let one direct transport send `payload` to the address that
/// another is bound to, and let the network carry the frame unchanged, so
/// that `data` holds the payload and the sender's address stands for its
/// source. Then the frame on the wire holds the payload for the receiver's
/// address, and the receiver is told the payload with the sender's address.
pub proof fn lemma_round_trip(
    sender: DirectSocket,
    receiver: DirectSocket,
    payload: Seq<u8>,
    data: Bytes,
)
    requires
        bytes_of(data) == payload,
    ensures
        FramedSocket::Direct(sender).reaches(Endpoint::Ip(receiver.local)),
        outgoing(payload, Some(Endpoint::Ip(receiver.local))) == Ok::<FrameView, TransportError>(
            FrameView { payload, endpoint: Endpoint::Ip(receiver.local) },
        ),
        FramedSocket::Direct(receiver).serves(Arrival::Datagram { data, source: sender.local }),
        received(Arrival::Datagram { data, source: sender.local }) matches Some(Ok(frame))
            && frame@ == (FrameView { payload, endpoint: Endpoint::Ip(sender.local) }),
{
}

/// One step of a session, as the caller and the network make it.
pub enum Step {
    /// The caller sends `payload` to the IP endpoint `target`.
    Send { payload: Seq<u8>, target: SocketAddress },
    /// The caller waits, and `data` comes in from `source`.
    Receive { data: Bytes, source: SocketAddress },
    /// The caller waits, and the read fails.
    Failure { cause: String },
    /// The caller waits, and the backend closes.
    Closure,
    /// The caller waits with a deadline, and nothing comes in time.
    Silence,
}

/// What the caller sees of one step.
pub enum Seen {
    /// The frame that went on the wire, or why none did.
    Sent(Result<FrameView, TransportError>),
    /// What a receive returned.
    Got(Option<Result<Frame, TransportError>>),
}

/// What the backend of `socket` hands over at the end of a step that waits.
pub open spec fn wait_at(socket: FramedSocket, step: Step, relay: SocketAddress) -> Wait {
    match step {
        Step::Receive { data, source } => Wait::Completed(arrival_at(socket, data, source, relay)),
        Step::Failure { cause } => Wait::Completed(Arrival::Failed(cause)),
        Step::Closure => Wait::Completed(Arrival::Closed),
        _ => Wait::Elapsed,
    }
}

/// What the caller of `socket` sees of `step`.
pub open spec fn seen(socket: FramedSocket, step: Step, relay: SocketAddress) -> Seen {
    match step {
        Step::Send { payload, target } => Seen::Sent(outgoing(payload, Some(Endpoint::Ip(target)))),
        _ => Seen::Got(awaited(wait_at(socket, step, relay))),
    }
}

/// What the caller of `socket` sees of a whole session.
pub open spec fn transcript(socket: FramedSocket, steps: Seq<Step>, relay: SocketAddress) -> Seq<
    Seen,
> {
    Seq::new(steps.len(), |i: int| seen(socket, steps[i], relay))
}

/// Mode transparency. The same session against a direct transport and
/// against a relay session, on the same traffic, shows the caller the same
/// frames in the same order. Every step of it is one that either transport
/// accepts.
pub proof fn lemma_mode_transparency(
    direct: FramedSocket,
    relayed: FramedSocket,
    steps: Seq<Step>,
    relay: SocketAddress,
)
    requires
        direct is Direct,
        relayed is ProxySocks,
    ensures
        transcript(direct, steps, relay) == transcript(relayed, steps, relay),
        forall|i: int|
            0 <= i < steps.len() ==> match #[trigger] steps[i] {
                Step::Send { payload, target } => direct.reaches(Endpoint::Ip(target))
                    && relayed.reaches(Endpoint::Ip(target)),
                Step::Receive { data, source } => direct.serves(
                    arrival_at(direct, data, source, relay),
                ) && relayed.serves(arrival_at(relayed, data, source, relay)),
                _ => true,
            },
{
    assert(transcript(direct, steps, relay) =~= transcript(relayed, steps, relay));
}

/// A direct transport deals in IP endpoints only: whatever it may send goes
/// to one, and whatever it receives comes from one.
pub proof fn lemma_direct_is_ip_only(socket: FramedSocket, target: Endpoint, arrival: Arrival)
    requires
        socket is Direct,
    ensures
        socket.reaches(target) ==> target is Ip,
        socket.serves(arrival) ==> (received(arrival) matches Some(Ok(frame))
            ==> frame.endpoint is Ip),
{
}

} // verus!
