//! The signature protocol and the signed-block envelope. Two distinct digests
//! exist and are never conflated: the inner digest (hash of the block alone),
//! which is only the payload that gets signed, and the identity digest (hash
//! of block and signature together), which is the block's DAG-visible
//! identity. The signed payload is wrapped in a domain-separation envelope so
//! a block signature can never be replayed as any other protocol message.

use bytes::Bytes;
use vstd::prelude::*;

use crate::block::{Block, BlockAPI, BlockContent, BlockData, BlockRef, CommitVote,
    MisbehaviorReport, Slot, Transaction};
use crate::codec::{append_byte_slice, encode_byte_slice, encode_bytes};
use crate::committee::{CommitteeData, Context};
use crate::crypto::{
    blake2b256, blake2b256_of, ed25519_public_of, ed25519_signature_of, ed25519_verifies,
    ProtocolKeyPair, ProtocolKeySignature, ProtocolPublicKey,
};
use crate::encode::{encode_block, serialize_block};
use crate::error::{ConsensusError, ConsensusResult};
use crate::shared::{bytes_as_slice, bytes_content, bytes_from_vec, bytes_new};
use crate::{BlockTimestampMs, Epoch, Round, DIGEST_LENGTH};

verus! {

/// Identifier of the "consensus block" message scope inside the
/// domain-separation envelope. Every other signed artifact of the wider
/// protocol uses a different scope.
pub const INTENT_SCOPE_CONSENSUS_BLOCK: u8 = 8;

/// Version of the domain-separation envelope format.
pub const INTENT_VERSION: u8 = 0;

/// Identifier of the consensus application inside the domain-separation
/// envelope.
pub const INTENT_APP_CONSENSUS: u8 = 2;

/// Digest of a block, covering all block fields without its signature. Used
/// only during signing and signature verification, never as a block identity.
struct InnerBlockDigest([u8; DIGEST_LENGTH]);

/// The digest that gets signed: the hash of the block's canonical encoding.
pub open spec fn inner_block_digest_of(b: BlockData) -> Seq<u8> {
    blake2b256_of(encode_block(b))
}

/// The domain-separation envelope around a signed digest: scope, envelope
/// version and application identifier, then the digest bytes.
pub open spec fn intent_envelope(digest: Seq<u8>) -> Seq<u8> {
    seq![INTENT_SCOPE_CONSENSUS_BLOCK, INTENT_VERSION, INTENT_APP_CONSENSUS] + digest
}

/// The exact bytes that are signed for a block: the domain-separation
/// envelope around its inner digest.
pub open spec fn block_sign_message(b: BlockData) -> Seq<u8> {
    intent_envelope(inner_block_digest_of(b))
}

/// Computes the inner digest of a block, only for signing and verification.
fn compute_inner_block_digest(block: &Block) -> (r: InnerBlockDigest)
    ensures
        r.0@ == inner_block_digest_of(block@),
{
    let bytes = serialize_block(block);
    InnerBlockDigest(blake2b256(bytes.as_slice()))
}

/// Wraps an inner block digest in the domain-separation envelope.
fn to_consensus_block_intent(digest: InnerBlockDigest) -> (r: Vec<u8>)
    ensures
        r@ == intent_envelope(digest.0@),
{
    let mut out: Vec<u8> = Vec::new();
    out.push(INTENT_SCOPE_CONSENSUS_BLOCK);
    out.push(INTENT_VERSION);
    out.push(INTENT_APP_CONSENSUS);
    append_byte_slice(digest.0.as_slice(), &mut out);
    assert(out@ =~= intent_envelope(digest.0@));
    out
}

/// Signs a block: hash its canonical encoding, wrap the digest in the
/// domain-separation envelope, and sign the envelope bytes.
pub fn compute_block_signature(block: &Block, protocol_keypair: &ProtocolKeyPair) -> (r: Vec<u8>)
    ensures
        r@ == ed25519_signature_of(protocol_keypair@, block_sign_message(block@)),
        r@.len() == 64,
        ed25519_verifies(ed25519_public_of(protocol_keypair@), block_sign_message(block@), r@),
{
    let digest = compute_inner_block_digest(block);
    let message = to_consensus_block_intent(digest);
    protocol_keypair.sign(message.as_slice())
}

/// The outcome of checking signature bytes over block `b` against public key
/// `key`: a signature that does not parse is malformed; a well-formed one
/// that the key rejects fails verification; otherwise the check succeeds.
pub open spec fn spec_verify_block_signature(b: BlockData, sig: Seq<u8>, key: Seq<u8>) -> Result<
    (),
    ConsensusError,
> {
    if sig.len() != 64 {
        Err(ConsensusError::MalformedSignature)
    } else if !ed25519_verifies(key, block_sign_message(b), sig) {
        Err(ConsensusError::SignatureVerificationFailure)
    } else {
        Ok(())
    }
}

/// Verifies a block signature: recomputes the envelope bytes from the
/// received block and validates the signature against them under
/// `protocol_pubkey`.
pub fn verify_block_signature(
    block: &Block,
    signature: &[u8],
    protocol_pubkey: &ProtocolPublicKey,
) -> (r: ConsensusResult<()>)
    ensures
        r == spec_verify_block_signature(block@, signature@, protocol_pubkey@),
{
    let digest = compute_inner_block_digest(block);
    let message = to_consensus_block_intent(digest);
    match ProtocolKeySignature::from_bytes(signature) {
        None => Err(ConsensusError::MalformedSignature),
        Some(sig) => {
            if protocol_pubkey.verify(message.as_slice(), &sig) {
                Ok(())
            } else {
                Err(ConsensusError::SignatureVerificationFailure)
            }
        },
    }
}

/// The model of a signed block: the block with its raw signature bytes.
pub ghost struct SignedBlockData {
    pub block: BlockData,
    pub signature: Seq<u8>,
}

/// The canonical wire encoding of a signed block: the block's encoding, then
/// the signature as a length-prefixed byte field. The identity digest is
/// defined over exactly these bytes.
pub open spec fn encode_signed_block(sb: SignedBlockData) -> Seq<u8> {
    encode_block(sb.block) + encode_bytes(sb.signature)
}

/// The outcome of verifying a signed block against a committee: the claimed
/// author index must name a committee member, and the signature must parse
/// and validate under the key registered at that index.
pub open spec fn spec_verify_signature(sb: SignedBlockData, c: CommitteeData) -> Result<
    (),
    ConsensusError,
> {
    let author = sb.block.content().author;
    if author >= c.keys.len() {
        Err(
            ConsensusError::InvalidAuthorityIndex {
                index: author,
                max: (c.keys.len() - 1) as usize,
            },
        )
    } else {
        spec_verify_block_signature(sb.block, sb.signature, c.keys[author as int])
    }
}

/// A block with its raw signature, before verification. It may come from an
/// adversarial peer; nothing is assumed of it until `verify_signature`
/// succeeds.
pub struct SignedBlock {
    inner: Block,
    signature: Bytes,
}

impl View for SignedBlock {
    type V = SignedBlockData;

    closed spec fn view(&self) -> SignedBlockData {
        SignedBlockData { block: self.inner@, signature: bytes_content(self.signature) }
    }
}

impl SignedBlock {
    /// Wraps a genesis block with an empty signature. Genesis blocks are a
    /// protocol-defined constant, not received from the network, so they are
    /// not signed.
    pub fn new_genesis(block: Block) -> (r: SignedBlock)
        ensures
            r@ == (SignedBlockData { block: block@, signature: Seq::<u8>::empty() }),
    {
        SignedBlock { inner: block, signature: bytes_new() }
    }

    /// Signs `block` with `protocol_keypair` and wraps the two together. The
    /// signature produced verifies under the keypair's public key.
    pub fn new(block: Block, protocol_keypair: &ProtocolKeyPair) -> (r: ConsensusResult<
        SignedBlock,
    >)
        ensures
            r matches Ok(sb) && sb@.block == block@ && sb@.signature == ed25519_signature_of(
                protocol_keypair@,
                block_sign_message(block@),
            ) && sb@.signature.len() == 64 && ed25519_verifies(
                ed25519_public_of(protocol_keypair@),
                block_sign_message(block@),
                sb@.signature,
            ),
    {
        let signature = compute_block_signature(&block, protocol_keypair);
        Ok(SignedBlock { inner: block, signature: bytes_from_vec(signature) })
    }

    /// The raw signature bytes.
    pub fn signature(&self) -> (r: &Bytes)
        ensures
            bytes_content(*r) == self@.signature,
    {
        &self.signature
    }

    /// Verifies only this block's signature against the committee of
    /// `context`; structural verification of the full block is a separate,
    /// external step.
    pub fn verify_signature(&self, context: &Context) -> (r: ConsensusResult<()>)
        requires
            context.committee@.keys.len() >= 1,
        ensures
            r == spec_verify_signature(self@, context.committee@),
    {
        let committee = &context.committee;
        let author = self.inner.author();
        if !committee.is_valid_index(author) {
            return Err(
                ConsensusError::InvalidAuthorityIndex {
                    index: author.value,
                    max: committee.size() - 1,
                },
            );
        }
        let authority = committee.authority(author);
        verify_block_signature(
            &self.inner,
            bytes_as_slice(&self.signature),
            &authority.protocol_key,
        )
    }

    /// The canonical serialization of this signed block. The verified encoder
    /// is total: serialization of an in-memory block cannot fail.
    pub fn serialize(&self) -> (r: Bytes)
        ensures
            bytes_content(r) == encode_signed_block(self@),
    {
        let mut out = serialize_block(&self.inner);
        encode_byte_slice(bytes_as_slice(&self.signature), &mut out);
        let r = bytes_from_vec(out);
        assert(bytes_content(r) =~= encode_signed_block(self@));
        r
    }

    /// Replaces the signature with an empty one, leaving the block content in
    /// place; for tests that need a signature that does not match the block.
    pub fn clear_signature(&mut self)
        ensures
            final(self)@ == (SignedBlockData {
                block: old(self)@.block,
                signature: Seq::<u8>::empty(),
            }),
    {
        self.signature = bytes_new();
    }

    /// The wrapped block.
    pub fn block(&self) -> (r: &Block)
        ensures
            r@ == self@.block,
    {
        &self.inner
    }
}

impl BlockAPI for SignedBlock {
    open spec fn content(&self) -> BlockContent {
        self@.block.content()
    }

    fn epoch(&self) -> (r: Epoch) {
        self.inner.epoch()
    }

    fn round(&self) -> (r: Round) {
        self.inner.round()
    }

    fn author(&self) -> (r: crate::committee::AuthorityIndex) {
        self.inner.author()
    }

    fn slot(&self) -> (r: Slot) {
        self.inner.slot()
    }

    fn timestamp_ms(&self) -> (r: BlockTimestampMs) {
        self.inner.timestamp_ms()
    }

    fn ancestors(&self) -> (r: &[BlockRef]) {
        self.inner.ancestors()
    }

    fn transactions(&self) -> (r: &[Transaction]) {
        self.inner.transactions()
    }

    fn commit_votes(&self) -> (r: &[CommitVote]) {
        self.inner.commit_votes()
    }

    fn misbehavior_reports(&self) -> (r: &[MisbehaviorReport]) {
        self.inner.misbehavior_reports()
    }
}

/// Signs `block` with `protocol_keypair` and immediately verifies the result
/// against the committee of `context`. The outcome is exactly the
/// verification outcome of the signed block that signing produces; in
/// particular, whenever the committee registers the keypair's public key at
/// the block's claimed author index, verification of a freshly produced
/// signature is proved to succeed.
pub fn sign_and_verify(
    block: Block,
    protocol_keypair: &ProtocolKeyPair,
    context: &Context,
) -> (r: ConsensusResult<()>)
    requires
        context.committee@.keys.len() >= 1,
    ensures
        r == spec_verify_signature(
            SignedBlockData {
                block: block@,
                signature: ed25519_signature_of(protocol_keypair@, block_sign_message(block@)),
            },
            context.committee@,
        ),
        (block@.content().author < context.committee@.keys.len()
            && context.committee@.keys[block@.content().author as int] == ed25519_public_of(
            protocol_keypair@,
        )) ==> r is Ok,
{
    match SignedBlock::new(block, protocol_keypair) {
        Ok(sb) => sb.verify_signature(context),
        Err(e) => Err(e),
    }
}

/// A block signed with the keypair whose public key the committee registers
/// at the block's author index passes signature verification. The premises
/// are exactly what `SignedBlock::new` ensures of the signature it produces,
/// together with the registration of the matching public key.
pub proof fn lemma_signed_by_registered_author_verifies(
    sb: SignedBlockData,
    c: CommitteeData,
    seed: Seq<u8>,
)
    requires
        sb.block.content().author < c.keys.len(),
        c.keys[sb.block.content().author as int] == ed25519_public_of(seed),
        sb.signature.len() == 64,
        ed25519_verifies(ed25519_public_of(seed), block_sign_message(sb.block), sb.signature),
    ensures
        spec_verify_signature(sb, c) == Ok::<(), ConsensusError>(()),
{
}

} // verus!
