//! Errors surfaced by the signing, verification and serialization entry
//! points. All of them signal malicious or corrupted remote data, or a local
//! invariant violation; none is transient, so callers must not retry.

use vstd::prelude::*;

verus! {

/// Errors raised by this crate. All are deterministic functions of the block
/// content and the committee keys.
#[derive(Clone, Copy, PartialEq, Eq, Debug)]
pub enum ConsensusError {
    /// The claimed author index is outside the committee's valid range.
    InvalidAuthorityIndex { index: u32, max: usize },
    /// The signature bytes cannot be parsed into the scheme's expected shape.
    MalformedSignature,
    /// A well-formed signature that fails cryptographic validation.
    SignatureVerificationFailure,
    /// Canonical encoding of a value failed. The verified encoder of this
    /// crate is total, so its entry points never produce this value; it is
    /// part of the error taxonomy for consumers that decode untrusted bytes.
    SerializationFailure,
}

pub type ConsensusResult<T> = Result<T, ConsensusError>;

} // verus!
