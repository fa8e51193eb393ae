//! The payload template every generated record carries: a `bytes::Bytes`
//! value held opaquely and duplicated cheaply for each emitted record.

use vstd::prelude::*;

verus! {

/// `bytes::Bytes` carried opaquely through the scheduler: an immutable,
/// cheaply cloneable byte payload.
#[verifier::external_type_specification]
#[verifier::external_body]
pub struct ExBytes(bytes::Bytes);

/// The byte contents viewed by a `bytes::Bytes` payload.
pub uninterp spec fn byte_content(b: bytes::Bytes) -> Seq<u8>;

/// Relies on `Clone for bytes::Bytes`: a clone is a shallow copy that views
/// exactly the same bytes as the original.
#[verifier::external_body]
pub(crate) fn clone_payload(b: &bytes::Bytes) -> (r: bytes::Bytes)
    ensures
        byte_content(r) == byte_content(*b),
{
    b.clone()
}

/// Relies on `Deref<Target = [u8]> for bytes::Bytes` together with
/// `slice::to_vec`: the bytes the payload views, copied into a fresh vector.
#[verifier::external_body]
pub(crate) fn payload_to_vec(b: &bytes::Bytes) -> (r: Vec<u8>)
    ensures
        r@ == byte_content(*b),
{
    b.to_vec()
}

} // verus!
