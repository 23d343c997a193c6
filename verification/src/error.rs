//! The failures that a transport reports.

use vstd::prelude::*;

verus! {

/// A failure of one transport operation.
///
/// Every failure is reported once, to the caller of the operation that met
/// it; nothing is retried. Where the backend gave a reason, the variant
/// carries it as text.
#[derive(Clone, Debug, PartialEq, Eq)]
pub enum TransportError {
    /// A local address resolved to no address at all.
    Resolution,
    /// The socket could not be configured or bound.
    Bind(String),
    /// The relay refused or broke off the handshake.
    Proxy(String),
    /// A bounded operation did not end in time.
    Timeout,
    /// A send target is no usable endpoint.
    Address,
    /// A message could not be put into bytes.
    Encode(String),
    /// The backend failed to write a datagram.
    Send(String),
    /// The backend failed to read a datagram.
    Receive(String),
}

} // verus!
