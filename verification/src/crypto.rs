//! The cryptographic boundary of the crate: Blake2b-256 hashing and Ed25519
//! signing and verification, from an outside crate. Verified code reaches them
//! only through the trusted items below, whose contracts speak of the byte
//! values alone; key material is modeled by the 32-byte private seed that
//! determines an Ed25519 keypair.

use fastcrypto::ed25519::{Ed25519KeyPair, Ed25519PublicKey, Ed25519Signature};
use fastcrypto::hash::{Blake2b256, HashFunction};
use fastcrypto::traits::{KeyPair, Signer, ToFromBytes, VerifyingKey};
use vstd::prelude::*;

verus! {

/// `fastcrypto::ed25519::Ed25519KeyPair`: a private key with its derived
/// public key.
#[verifier::external_type_specification]
#[verifier::external_body]
pub struct ExEd25519KeyPair(Ed25519KeyPair);

/// `fastcrypto::ed25519::Ed25519PublicKey`: a parsed Ed25519 public key.
#[verifier::external_type_specification]
#[verifier::external_body]
pub struct ExEd25519PublicKey(Ed25519PublicKey);

/// `fastcrypto::ed25519::Ed25519Signature`: a parsed Ed25519 signature.
#[verifier::external_type_specification]
#[verifier::external_body]
pub struct ExEd25519Signature(Ed25519Signature);

/// The 32-byte Blake2b-256 digest of a byte string.
pub uninterp spec fn blake2b256_of(data: Seq<u8>) -> Seq<u8>;

/// The encoding of the Ed25519 public key derived from a 32-byte private seed.
pub uninterp spec fn ed25519_public_of(seed: Seq<u8>) -> Seq<u8>;

/// The Ed25519 signature over `msg` by the key with private seed `seed`
/// (Ed25519 signing is deterministic).
pub uninterp spec fn ed25519_signature_of(seed: Seq<u8>, msg: Seq<u8>) -> Seq<u8>;

/// Whether Ed25519 verification of `sig` over `msg` under the public key
/// encoded by `key` succeeds.
pub uninterp spec fn ed25519_verifies(key: Seq<u8>, msg: Seq<u8>, sig: Seq<u8>) -> bool;

/// A protocol signing keypair, determined by its 32-byte private seed.
/// The parsed keypair is kept beside the seed it was derived from.
pub struct ProtocolKeyPair {
    seed: Vec<u8>,
    inner: Ed25519KeyPair,
}

impl View for ProtocolKeyPair {
    type V = Seq<u8>;

    closed spec fn view(&self) -> Seq<u8> {
        self.seed@
    }
}

/// A protocol public key, kept beside its 32-byte encoding.
pub struct ProtocolPublicKey {
    bytes: Vec<u8>,
    inner: Ed25519PublicKey,
}

impl View for ProtocolPublicKey {
    type V = Seq<u8>;

    closed spec fn view(&self) -> Seq<u8> {
        self.bytes@
    }
}

/// A well-formed protocol signature, kept beside its 64-byte encoding.
pub struct ProtocolKeySignature {
    bytes: Vec<u8>,
    inner: Ed25519Signature,
}

impl View for ProtocolKeySignature {
    type V = Seq<u8>;

    closed spec fn view(&self) -> Seq<u8> {
        self.bytes@
    }
}

impl ProtocolKeyPair {
    /// Relies on `Ed25519KeyPair::from_bytes`: it derives the keypair from a
    /// private seed, succeeding exactly on 32-byte input.
    #[verifier::external_body]
    pub fn from_bytes(seed: &[u8]) -> (r: Option<ProtocolKeyPair>)
        ensures
            r is Some <==> seed@.len() == 32,
            r matches Some(kp) ==> kp@ == seed@,
    {
        match Ed25519KeyPair::from_bytes(seed) {
            Ok(inner) => Some(ProtocolKeyPair { seed: seed.to_vec(), inner }),
            Err(_) => None,
        }
    }

    /// Relies on `KeyPair::public` for `Ed25519KeyPair`: the public key is
    /// derived from the private seed alone and encodes as 32 bytes.
    #[verifier::external_body]
    pub fn public(&self) -> (r: ProtocolPublicKey)
        ensures
            r@ == ed25519_public_of(self@),
            r@.len() == 32,
    {
        let pk = self.inner.public().clone();
        let bytes = pk.as_ref().to_vec();
        ProtocolPublicKey { bytes, inner: pk }
    }

    /// Relies on `Signer::sign` for `Ed25519KeyPair`: Ed25519 signing is a
    /// deterministic function of the private seed and the message, produces a
    /// 64-byte signature, and a signature so produced verifies under the
    /// keypair's public key.
    #[verifier::external_body]
    pub(crate) fn sign(&self, msg: &[u8]) -> (r: Vec<u8>)
        ensures
            r@ == ed25519_signature_of(self@, msg@),
            r@.len() == 64,
            ed25519_verifies(ed25519_public_of(self@), msg@, r@),
    {
        self.inner.sign(msg).as_ref().to_vec()
    }
}

impl ProtocolKeySignature {
    /// Relies on `Ed25519Signature::from_bytes`: it succeeds exactly on
    /// 64-byte input and preserves the signature bytes.
    #[verifier::external_body]
    pub(crate) fn from_bytes(bytes: &[u8]) -> (r: Option<ProtocolKeySignature>)
        ensures
            r is Some <==> bytes@.len() == 64,
            r matches Some(s) ==> s@ == bytes@,
    {
        match Ed25519Signature::from_bytes(bytes) {
            Ok(inner) => Some(ProtocolKeySignature { bytes: bytes.to_vec(), inner }),
            Err(_) => None,
        }
    }
}

impl ProtocolPublicKey {
    /// Relies on `VerifyingKey::verify` for `Ed25519PublicKey`: the outcome is
    /// a deterministic function of the key, message and signature bytes.
    #[verifier::external_body]
    pub(crate) fn verify(&self, msg: &[u8], sig: &ProtocolKeySignature) -> (r: bool)
        ensures
            r == ed25519_verifies(self@, msg@, sig@),
    {
        self.inner.verify(msg, &sig.inner).is_ok()
    }

    /// The 32-byte encoding of this public key.
    pub fn as_bytes(&self) -> (r: &Vec<u8>)
        ensures
            r@ == self@,
    {
        &self.bytes
    }
}

/// Relies on `HashFunction::digest` for `Blake2b256`: the 32-byte Blake2b-256
/// digest is a function of the input bytes alone.
#[verifier::external_body]
pub(crate) fn blake2b256(data: &[u8]) -> (r: [u8; 32])
    ensures
        r@ == blake2b256_of(data@),
{
    Blake2b256::digest(data).digest
}

} // verus!
