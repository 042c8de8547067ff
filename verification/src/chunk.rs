//! The frozen wire form of one record: an immutable block of bytes from the
//! `bytes` crate, produced exactly once per record at hand-off time.

use vstd::prelude::*;

verus! {

/// The immutable, shareable byte block of the `bytes` crate; one response
/// chunk on the wire.
#[verifier::external_type_specification]
#[verifier::external_body]
pub struct ExBytes(bytes::Bytes);

/// The byte contents of a frozen `bytes::Bytes` block.
pub uninterp spec fn bytes_view(b: bytes::Bytes) -> Seq<u8>;

/// Relies on `impl From<Vec<u8>> for bytes::Bytes`: the block takes over the
/// vector's buffer without copying, so it holds the same bytes in the same
/// order.
#[verifier::external_body]
pub(crate) fn bytes_from_vec(v: Vec<u8>) -> (r: bytes::Bytes)
    ensures
        bytes_view(r) == v@,
{
    bytes::Bytes::from(v)
}

} // verus!
