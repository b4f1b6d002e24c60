//! Shared immutable byte buffers. A block's payloads, its signature and its
//! cached serialization are held in reference-counted buffers so that a
//! verified block can be duplicated cheaply: duplicates observe identical
//! contents. The buffer type comes from an outside crate and is used here
//! through a small trusted boundary.

use std::sync::Arc;

use bytes::Bytes;
use vstd::prelude::*;

verus! {

/// `bytes::Bytes`: an immutable, reference-counted byte buffer whose clones
/// share one allocation.
#[verifier::external_type_specification]
#[verifier::external_body]
pub struct ExBytes(Bytes);

/// The byte contents of a `Bytes` buffer.
pub uninterp spec fn bytes_content(b: Bytes) -> Seq<u8>;

/// Relies on `bytes::Bytes::new`: returns a buffer with no bytes.
#[verifier::external_body]
pub(crate) fn bytes_new() -> (r: Bytes)
    ensures
        bytes_content(r) == Seq::<u8>::empty(),
{
    Bytes::new()
}

/// Relies on `impl From<Vec<u8>> for bytes::Bytes`: takes ownership of the
/// bytes, contents unchanged.
#[verifier::external_body]
pub(crate) fn bytes_from_vec(v: Vec<u8>) -> (r: Bytes)
    ensures
        bytes_content(r) == v@,
{
    Bytes::from(v)
}

/// Relies on `impl Clone for bytes::Bytes`: a clone shares the same contents.
#[verifier::external_body]
pub(crate) fn bytes_clone(b: &Bytes) -> (r: Bytes)
    ensures
        bytes_content(r) == bytes_content(*b),
{
    b.clone()
}

/// Relies on `impl Deref for bytes::Bytes`: views the contents as a slice.
#[verifier::external_body]
pub(crate) fn bytes_as_slice(b: &Bytes) -> (r: &[u8])
    ensures
        r@ == bytes_content(*b),
{
    b
}

/// Relies on `std::sync::Arc::clone`: a clone is a handle to the same value.
#[verifier::external_body]
pub(crate) fn arc_clone<T>(a: &Arc<T>) -> (r: Arc<T>)
    ensures
        r == *a,
{
    Arc::clone(a)
}

} // verus!
