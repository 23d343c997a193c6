//! Payloads as byte buffers of the `bytes` crate.

use vstd::prelude::*;
use bytes::Bytes;

verus! {

/// `bytes::Bytes`: an immutable buffer of bytes that is cheap to clone.
#[verifier::external_type_specification]
#[verifier::external_body]
pub struct ExBytes(bytes::Bytes);

/// The bytes that a buffer holds, in order.
pub uninterp spec fn bytes_of(buffer: Bytes) -> Seq<u8>;

/// Calls `bytes::Bytes::from` on a `Vec<u8>`. The buffer that comes back
/// holds the bytes of the vector, in their order.
#[verifier::external_body]
pub(crate) fn from_vec(bytes: Vec<u8>) -> (buffer: Bytes)
    ensures
        bytes_of(buffer) == bytes@,
{
    Bytes::from(bytes)
}

/// Calls `bytes::Bytes::from` on a `&'static [u8]`, which is
/// `Bytes::from_static`. The buffer that comes back holds the bytes of the
/// slice, in their order.
#[verifier::external_body]
pub(crate) fn from_static(bytes: &'static [u8]) -> (buffer: Bytes)
    ensures
        bytes_of(buffer) == bytes@,
{
    Bytes::from(bytes)
}

} // verus!
