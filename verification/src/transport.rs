//! The transport: one interface over two backends.

use vstd::prelude::*;
use bytes::Bytes;
use crate::address::Endpoint;
use crate::address::SocketAddress;
use crate::error::TransportError;
use crate::payload::bytes_of;
use crate::payload::from_static;
use crate::payload::from_vec;
use crate::socket::is_plan;
use crate::socket::new_socket;
use crate::socket::reuse_steps;
use crate::socket::socket_steps;
use crate::socket::Platform;
use crate::socket::SocketStep;
use crate::text::blank;
use crate::text::is_blank;

verus! {

/// A byte payload with the endpoint it goes to or came from.
#[derive(Debug, PartialEq, Eq)]
pub struct Frame {
    pub payload: Bytes,
    pub endpoint: Endpoint,
}

/// What a [`Frame`] holds, with the payload as a sequence of bytes.
pub struct FrameView {
    pub payload: Seq<u8>,
    pub endpoint: Endpoint,
}

impl View for Frame {
    type V = FrameView;

    open spec fn view(&self) -> FrameView {
        FrameView { payload: bytes_of(self.payload), endpoint: self.endpoint }
    }
}

/// A socket of the operating system, bound to `local`.
#[derive(Clone, Debug, PartialEq, Eq)]
pub struct DirectSocket {
    pub local: SocketAddress,
}

/// A datagram association with a SOCKS5 relay.
///
/// `local` is the address that the session is bound to, where the system
/// tells it, and `relay` the address that the relay gave for datagrams.
#[derive(Clone, Debug, PartialEq, Eq)]
pub struct RelaySession {
    pub local: Option<SocketAddress>,
    pub relay: Endpoint,
}

/// A datagram transport in one of its two modes.
///
/// The mode is chosen when the transport is made and never changes: no
/// operation takes the transport mutably.
#[derive(Debug, PartialEq, Eq)]
pub enum FramedSocket {
    Direct(DirectSocket),
    ProxySocks(RelaySession),
}

/// How to authenticate to a relay.
#[derive(Clone, Debug, PartialEq, Eq)]
pub enum Credentials {
    Anonymous,
    Password { username: String, password: String },
}

/// The handshake to make with a relay.
#[derive(Clone, Debug, PartialEq, Eq)]
pub struct ProxyPlan {
    pub credentials: Credentials,
    /// The bound on the whole handshake, in milliseconds.
    pub timeout_ms: u64,
}

/// How a handshake with a relay ended.
#[derive(Clone, Debug, PartialEq, Eq)]
pub enum Handshake {
    /// The bound passed first.
    Elapsed,
    /// The relay could not be reached, or the negotiation failed.
    Refused(String),
    /// The relay opened a datagram association.
    Established(RelaySession),
}

/// What a backend hands over when a read on it ends.
#[derive(Debug, PartialEq, Eq)]
pub enum Arrival {
    /// The operating system delivered a datagram from `source`.
    Datagram { data: Bytes, source: SocketAddress },
    /// The relay at `relay` forwarded a datagram, and names `sender` as the
    /// one who sent it.
    Relayed { data: Bytes, sender: Endpoint, relay: SocketAddress },
    /// The read failed.
    Failed(String),
    /// The backend is closed for good.
    Closed,
}

/// How a bounded wait for an arrival ended.
#[derive(Debug, PartialEq, Eq)]
pub enum Wait {
    /// The deadline passed first.
    Elapsed,
    /// The read ended first.
    Completed(Arrival),
}

/// `r` is the plan for binding the first of the candidate addresses with the
/// options, or the failure to resolve where there is no candidate.
pub open spec fn plans_first(
    candidates: Seq<SocketAddress>,
    options: Seq<SocketStep>,
    r: Result<Vec<SocketStep>, TransportError>,
) -> bool {
    if candidates.len() == 0 {
        r == Err::<Vec<SocketStep>, TransportError>(TransportError::Resolution)
    } else {
        r matches Ok(plan) && plan@ == socket_steps(candidates[0], options) && is_plan(plan@)
    }
}

/// What the caller is told of an arrival: the payload with the endpoint of
/// the one who sent it, the failure of the read, or `None` once the backend is
/// closed. The address of a relay that forwarded the datagram is left out.
pub open spec fn received(arrival: Arrival) -> Option<Result<Frame, TransportError>> {
    match arrival {
        Arrival::Datagram { data, source } => Some(
            Ok(Frame { payload: data, endpoint: Endpoint::Ip(source) }),
        ),
        Arrival::Relayed { data, sender, relay } => Some(
            Ok(Frame { payload: data, endpoint: sender }),
        ),
        Arrival::Failed(cause) => Some(Err(TransportError::Receive(cause))),
        Arrival::Closed => None,
    }
}

/// What the caller is told after a bounded wait: nothing if the deadline
/// passed first, else what the arrival is worth.
pub open spec fn awaited(wait: Wait) -> Option<Result<Frame, TransportError>> {
    match wait {
        Wait::Elapsed => None,
        Wait::Completed(arrival) => received(arrival),
    }
}

/// The outcome of a send as far as the wire is concerned: the frame to
/// write, by its view, or the failure that kept it off the wire.
pub open spec fn wire(r: Result<Frame, TransportError>) -> Result<FrameView, TransportError> {
    match r {
        Ok(frame) => Ok(frame@),
        Err(e) => Err(e),
    }
}

/// The frame that carries `payload` to `target`. A target that did not
/// resolve to an endpoint gets none.
pub open spec fn outgoing(payload: Seq<u8>, target: Option<Endpoint>) -> Result<
    FrameView,
    TransportError,
> {
    match target {
        Some(endpoint) => Ok(FrameView { payload, endpoint }),
        None => Err(TransportError::Address),
    }
}

/// The frame that carries a message to `target`. A target that did not
/// resolve is the first thing to go wrong, a message that the codec refused
/// the second.
pub open spec fn outgoing_message(
    encoded: Result<Vec<u8>, String>,
    target: Option<Endpoint>,
) -> Result<FrameView, TransportError> {
    match target {
        None => Err(TransportError::Address),
        Some(endpoint) => match encoded {
            Err(cause) => Err(TransportError::Encode(cause)),
            Ok(bytes) => Ok(FrameView { payload: bytes@, endpoint }),
        },
    }
}

impl FramedSocket {
    /// Plans a socket bound to the first of the addresses that the caller
    /// resolved a local address to, without reuse.
    pub fn new(candidates: &[SocketAddress]) -> (r: Result<Vec<SocketStep>, TransportError>)
        ensures
            plans_first(candidates@, seq![], r),
    {
        if candidates.len() == 0 {
            Err(TransportError::Resolution)
        } else {
            // Without reuse the platform makes no difference.
            Ok(new_socket(candidates[0], false, Platform::AddressReuseOnly))
        }
    }

    /// Plans a socket bound to the first of the candidate addresses, with
    /// reuse. Later candidates are never tried.
    pub fn new_reuse(candidates: &[SocketAddress], platform: Platform) -> (r: Result<
        Vec<SocketStep>,
        TransportError,
    >)
        ensures
            plans_first(candidates@, reuse_steps(true, platform), r),
    {
        if candidates.len() == 0 {
            Err(TransportError::Resolution)
        } else {
            Ok(new_socket(candidates[0], true, platform))
        }
    }

    /// Makes the transport of a socket once its plan was carried out.
    ///
    /// `outcome` is the address that the socket is bound to, or the reason
    /// why a step of the plan failed.
    pub fn bound(outcome: Result<SocketAddress, String>) -> (r: Result<FramedSocket, TransportError>)
        ensures
            r == match outcome {
                Ok(local) => Ok::<FramedSocket, TransportError>(
                    FramedSocket::Direct(DirectSocket { local }),
                ),
                Err(cause) => Err(TransportError::Bind(cause)),
            },
    {
        match outcome {
            Ok(local) => Ok(FramedSocket::Direct(DirectSocket { local })),
            Err(cause) => Err(TransportError::Bind(cause)),
        }
    }

    /// Plans the handshake with a relay: without authentication if the user
    /// name is blank, else with the user name and the password as given, and
    /// in either case within `ms_timeout` milliseconds.
    pub fn new_proxy(username: &str, password: &str, ms_timeout: u64) -> (plan: ProxyPlan)
        ensures
            plan.timeout_ms == ms_timeout,
            is_blank(username@) ==> plan.credentials == Credentials::Anonymous,
            !is_blank(username@) ==> (plan.credentials matches Credentials::Password {
                username: u,
                password: p,
            } && u@ == username@ && p@ == password@),
    {
        let credentials = if blank(username) {
            Credentials::Anonymous
        } else {
            Credentials::Password { username: username.to_owned(), password: password.to_owned() }
        };
        ProxyPlan { credentials, timeout_ms: ms_timeout }
    }

    /// Makes the transport of a relay session once the handshake ended.
    pub fn connected(outcome: Handshake) -> (r: Result<FramedSocket, TransportError>)
        ensures
            r == match outcome {
                Handshake::Elapsed => Err::<FramedSocket, TransportError>(TransportError::Timeout),
                Handshake::Refused(cause) => Err(TransportError::Proxy(cause)),
                Handshake::Established(session) => Ok(FramedSocket::ProxySocks(session)),
            },
    {
        match outcome {
            Handshake::Elapsed => Err(TransportError::Timeout),
            Handshake::Refused(cause) => Err(TransportError::Proxy(cause)),
            Handshake::Established(session) => Ok(FramedSocket::ProxySocks(session)),
        }
    }

    /// A socket of the operating system reaches IP endpoints only; a relay
    /// reaches every endpoint.
    pub open spec fn reaches(self, target: Endpoint) -> bool {
        self is Direct ==> target is Ip
    }

    /// Tells whether this transport can send to the target.
    pub fn can_reach(&self, target: &Endpoint) -> (r: bool)
        ensures
            r == self.reaches(*target),
    {
        match self {
            FramedSocket::Direct(_) => target.is_ip(),
            FramedSocket::ProxySocks(_) => true,
        }
    }

    /// Frames an encoded message for `target`.
    ///
    /// `target` is the endpoint that the caller resolved the destination to,
    /// if it resolved, and `encoded` what the codec made of the message. The
    /// frame is for the backend to write as one datagram.
    ///
    /// To hand a direct transport a domain name is a mistake of the caller.
    pub fn send(&self, encoded: Result<Vec<u8>, String>, target: Option<Endpoint>) -> (r: Result<
        Frame,
        TransportError,
    >)
        requires
            target matches Some(endpoint) ==> self.reaches(endpoint),
        ensures
            wire(r) == outgoing_message(encoded, target),
    {
        match target {
            None => Err(TransportError::Address),
            Some(endpoint) => match encoded {
                Err(cause) => Err(TransportError::Encode(cause)),
                Ok(bytes) => Ok(Frame { payload: from_vec(bytes), endpoint }),
            },
        }
    }

    /// Frames bytes that are already encoded for `target`: the same bytes
    /// can then go to several targets without being encoded again.
    ///
    /// To hand a direct transport a domain name is a mistake of the caller.
    pub fn send_raw(&self, msg: &'static [u8], target: Option<Endpoint>) -> (r: Result<
        Frame,
        TransportError,
    >)
        requires
            target matches Some(endpoint) ==> self.reaches(endpoint),
        ensures
            wire(r) == outgoing(msg@, target),
    {
        match target {
            None => Err(TransportError::Address),
            Some(endpoint) => Ok(Frame { payload: from_static(msg), endpoint }),
        }
    }

    /// Reports how the write of a frame ended.
    pub fn sent(outcome: Result<(), String>) -> (r: Result<(), TransportError>)
        ensures
            r == match outcome {
                Ok(()) => Ok::<(), TransportError>(()),
                Err(cause) => Err(TransportError::Send(cause)),
            },
    {
        match outcome {
            Ok(()) => Ok(()),
            Err(cause) => Err(TransportError::Send(cause)),
        }
    }

    /// An arrival comes from the backend of this transport: a socket of the
    /// operating system never relays, and a relay session hands over nothing
    /// that was not relayed.
    pub open spec fn serves(self, arrival: Arrival) -> bool {
        match self {
            FramedSocket::Direct(_) => !(arrival is Relayed),
            FramedSocket::ProxySocks(_) => !(arrival is Datagram),
        }
    }

    /// Turns an arrival into what the caller of a receive is told.
    ///
    /// A failed read is reported and leaves the transport as it was; only a
    /// closed backend gives `None`.
    pub fn next(&self, arrival: Arrival) -> (r: Option<Result<Frame, TransportError>>)
        requires
            self.serves(arrival),
        ensures
            r == received(arrival),
    {
        match arrival {
            Arrival::Datagram { data, source } => Some(
                Ok(Frame { payload: data, endpoint: Endpoint::Ip(source) }),
            ),
            Arrival::Relayed { data, sender, relay: _ } => Some(
                Ok(Frame { payload: data, endpoint: sender }),
            ),
            Arrival::Failed(cause) => Some(Err(TransportError::Receive(cause))),
            Arrival::Closed => None,
        }
    }

    /// Turns the end of a bounded wait into what the caller is told.
    ///
    /// `None` after a deadline says that nothing came in time, not that the
    /// backend is closed. A read that ended first is reported as by
    /// [`FramedSocket::next`].
    pub fn next_timeout(&self, wait: Wait) -> (r: Option<Result<Frame, TransportError>>)
        requires
            wait matches Wait::Completed(arrival) ==> self.serves(arrival),
        ensures
            r == awaited(wait),
    {
        match wait {
            Wait::Elapsed => None,
            Wait::Completed(arrival) => self.next(arrival),
        }
    }
}

} // verus!
