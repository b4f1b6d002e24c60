//! The verified-block handle and the genesis generator. A `VerifiedBlock` is
//! terminal and immutable: it is created only by the verification entry point
//! (after the signature check) or by the genesis generator, and it caches its
//! identity digest and canonical serialization, computed exactly once.

use std::sync::Arc;

use bytes::Bytes;
use vstd::prelude::*;

use crate::block::{
    digest_eq, genesis_block_content, Block, BlockAPI, BlockContent, BlockData, BlockDigest,
    BlockRef, BlockRefData, BlockV1, CommitVote, MisbehaviorReport, Slot, Transaction,
};
use crate::committee::{AuthorityIndex, CommitteeData, Context};
use crate::crypto::{blake2b256, blake2b256_of};
use crate::shared::{arc_clone, bytes_as_slice, bytes_clone, bytes_content};
use crate::signed_block::{encode_signed_block, SignedBlock, SignedBlockData};
use crate::{BlockTimestampMs, Epoch, Round};

verus! {

/// An authenticated, immutable block. Cloning is cheap: clones share the
/// wrapped signed block and its cached values, and all duplicates observe the
/// identical digest and serialization.
pub struct VerifiedBlock {
    block: Arc<SignedBlock>,
    digest: BlockDigest,
    serialized: Bytes,
}

impl View for VerifiedBlock {
    type V = SignedBlockData;

    closed spec fn view(&self) -> SignedBlockData {
        self.block@
    }
}

impl VerifiedBlock {
    /// The cached identity digest, as a spec value.
    pub closed spec fn digest_spec(&self) -> Seq<u8> {
        self.digest@
    }

    /// The cached canonical serialization, as a spec value.
    pub closed spec fn serialized_spec(&self) -> Seq<u8> {
        bytes_content(self.serialized)
    }

    /// Well-formedness: the cached serialization is the canonical encoding of
    /// the wrapped signed block, and the cached digest is its hash. Every
    /// constructor establishes this and no operation disturbs it.
    pub closed spec fn wf(&self) -> bool {
        &&& self.serialized_spec() == encode_signed_block(self@)
        &&& self.digest_spec() == blake2b256_of(self.serialized_spec())
    }

    /// Creates a `VerifiedBlock` from a signed block whose signature has been
    /// checked, together with its canonical serialized bytes. The digest is
    /// computed here, exactly once; later reads only return the cache.
    pub fn new_verified(signed_block: SignedBlock, serialized: Bytes) -> (r: VerifiedBlock)
        requires
            bytes_content(serialized) == encode_signed_block(signed_block@),
        ensures
            r@ == signed_block@,
            r.wf(),
    {
        let digest = Self::compute_digest(bytes_as_slice(&serialized));
        VerifiedBlock { block: Arc::new(signed_block), digest, serialized }
    }

    /// Computes an identity digest from the serialized block with signature.
    pub fn compute_digest(serialized: &[u8]) -> (r: BlockDigest)
        ensures
            r@ == blake2b256_of(serialized@),
    {
        BlockDigest(blake2b256(serialized))
    }

    /// The reference other blocks use to point at this block in the DAG.
    pub fn reference(&self) -> (r: BlockRef)
        ensures
            r@ == (BlockRefData {
                round: self@.block.content().round,
                author: self@.block.content().author,
                digest: self.digest_spec(),
            }),
    {
        BlockRef::new(self.round(), self.author(), self.digest())
    }

    /// The cached identity digest.
    pub fn digest(&self) -> (r: BlockDigest)
        ensures
            r@ == self.digest_spec(),
    {
        self.digest
    }

    /// The cached serialized block with signature.
    pub fn serialized(&self) -> (r: &Bytes)
        ensures
            bytes_content(*r) == self.serialized_spec(),
    {
        &self.serialized
    }

    /// Whether two verified blocks have the same identity. Digest equality
    /// identifies a block: the digest covers content and signature together.
    pub fn equals(&self, other: &VerifiedBlock) -> (r: bool)
        ensures
            r == (self.digest_spec() == other.digest_spec()),
    {
        digest_eq(&self.digest, &other.digest)
    }
}

impl Clone for VerifiedBlock {
    /// Duplication never diverges: a clone shares the wrapped block and
    /// observes the identical cached digest and serialization.
    fn clone(&self) -> (r: Self)
        ensures
            r@ == self@,
            r.digest_spec() == self.digest_spec(),
            r.serialized_spec() == self.serialized_spec(),
            self.wf() ==> r.wf(),
    {
        VerifiedBlock {
            block: arc_clone(&self.block),
            digest: self.digest,
            serialized: bytes_clone(&self.serialized),
        }
    }
}

impl BlockAPI for VerifiedBlock {
    open spec fn content(&self) -> BlockContent {
        self@.block.content()
    }

    fn epoch(&self) -> (r: Epoch) {
        (&*self.block).epoch()
    }

    fn round(&self) -> (r: Round) {
        (&*self.block).round()
    }

    fn author(&self) -> (r: AuthorityIndex) {
        (&*self.block).author()
    }

    fn slot(&self) -> (r: Slot) {
        (&*self.block).slot()
    }

    fn timestamp_ms(&self) -> (r: BlockTimestampMs) {
        (&*self.block).timestamp_ms()
    }

    fn ancestors(&self) -> (r: &[BlockRef]) {
        (&*self.block).ancestors()
    }

    fn transactions(&self) -> (r: &[Transaction]) {
        (&*self.block).transactions()
    }

    fn commit_votes(&self) -> (r: &[CommitVote]) {
        (&*self.block).commit_votes()
    }

    fn misbehavior_reports(&self) -> (r: &[MisbehaviorReport]) {
        (&*self.block).misbehavior_reports()
    }
}

/// The model of the genesis signed block of `author` in `epoch`: genesis
/// content with an empty signature.
pub open spec fn genesis_signed_block_data(epoch: Epoch, author: u32) -> SignedBlockData {
    SignedBlockData {
        block: BlockData::V1(genesis_block_content(epoch, author)),
        signature: Seq::empty(),
    }
}

/// What the genesis generator returns for committee `c`: one well-formed
/// verified block per committee member, each wrapping the genesis block of
/// its authority, in increasing authority index order.
pub open spec fn is_genesis_output(r: Seq<VerifiedBlock>, c: CommitteeData) -> bool {
    &&& r.len() == c.keys.len()
    &&& forall|i: int|
        0 <= i < r.len() ==> (#[trigger] r[i])@ == genesis_signed_block_data(c.epoch, i as u32)
    &&& forall|i: int| 0 <= i < r.len() ==> (#[trigger] r[i]).wf()
}

/// Generates the genesis blocks for the committee of `context`: exactly one
/// unsigned verified block per committee member, at round 0 with empty
/// content, returned in authority index order. Deterministic in the
/// committee.
#[verifier::loop_isolation(false)]
pub fn genesis_blocks(context: &Context) -> (r: Vec<VerifiedBlock>)
    requires
        context.committee@.keys.len() <= u32::MAX,
    ensures
        is_genesis_output(r@, context.committee@),
{
    let committee = &context.committee;
    let epoch = committee.epoch();
    let size = committee.size();
    let mut out: Vec<VerifiedBlock> = Vec::new();
    let mut i: usize = 0;
    while i < size
        invariant
            0 <= i <= size,
            out@.len() == i,
            forall|j: int|
                0 <= j < i ==> (#[trigger] out@[j])@ == genesis_signed_block_data(epoch, j as u32),
            forall|j: int| 0 <= j < i ==> (#[trigger] out@[j]).wf(),
        decreases size - i,
    {
        let author = AuthorityIndex::new(i as u32);
        let block = Block::V1(BlockV1::genesis_block(epoch, author));
        let signed_block = SignedBlock::new_genesis(block);
        let serialized = signed_block.serialize();
        let vb = VerifiedBlock::new_verified(signed_block, serialized);
        out.push(vb);
        i = i + 1;
    }
    out
}

/// The identity digest of a verified block is the hash of its cached
/// serialization, which is the canonical encoding of its block and signature;
/// `reference()` carries that same digest.
pub proof fn lemma_digest_covers_serialization(v: VerifiedBlock)
    requires
        v.wf(),
    ensures
        v.digest_spec() == blake2b256_of(v.serialized_spec()),
        v.serialized_spec() == encode_signed_block(v@),
{
}

/// Two well-formed verified blocks wrapping equal signed-block values agree
/// on their serialization and their identity digest: read-only duplication
/// and reconstruction never diverge.
pub proof fn lemma_equal_content_equal_digest(v1: VerifiedBlock, v2: VerifiedBlock)
    requires
        v1.wf(),
        v2.wf(),
        v1@ == v2@,
    ensures
        v1.digest_spec() == v2.digest_spec(),
        v1.serialized_spec() == v2.serialized_spec(),
{
}

/// Genesis generation is idempotent: two outputs for the same committee agree
/// pointwise in content, serialization and identity digest.
pub proof fn lemma_genesis_idempotent(
    xs: Seq<VerifiedBlock>,
    ys: Seq<VerifiedBlock>,
    c: CommitteeData,
)
    requires
        is_genesis_output(xs, c),
        is_genesis_output(ys, c),
    ensures
        xs.len() == ys.len(),
        forall|i: int|
            0 <= i < xs.len() ==> (#[trigger] xs[i])@ == ys[i]@ && xs[i].digest_spec()
                == ys[i].digest_spec() && xs[i].serialized_spec() == ys[i].serialized_spec(),
{
    assert forall|i: int|
        0 <= i < xs.len() implies (#[trigger] xs[i])@ == ys[i]@ && xs[i].digest_spec()
        == ys[i].digest_spec() && xs[i].serialized_spec() == ys[i].serialized_spec() by {
        lemma_equal_content_equal_digest(xs[i], ys[i]);
    }
}

} // verus!
