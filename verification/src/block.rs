//! The block data model: transactions, the versioned block, its DAG
//! coordinates (`Slot`, `BlockRef`), its identity digest, and misbehavior
//! reports. A block names its position (round, author), its ancestors, and
//! the payload it carries; a `BlockRef` points at exactly one signed block.

use bytes::Bytes;
use vstd::prelude::*;

use crate::committee::AuthorityIndex;
use crate::shared::{bytes_as_slice, bytes_content, bytes_from_vec};
use crate::{BlockTimestampMs, Epoch, Round, DIGEST_LENGTH};

verus! {

broadcast use vstd::array::group_array_axioms;

/// Round number of the genesis blocks.
pub const GENESIS_ROUND: Round = 0;

/// A transaction in serialized bytes. Opaque to this crate: equality is
/// byte-wise and no parsing is performed here.
pub struct Transaction {
    data: Bytes,
}

impl View for Transaction {
    type V = Seq<u8>;

    closed spec fn view(&self) -> Seq<u8> {
        bytes_content(self.data)
    }
}

impl Transaction {
    pub fn new(data: Vec<u8>) -> (r: Transaction)
        ensures
            r@ == data@,
    {
        Transaction { data: bytes_from_vec(data) }
    }

    pub fn data(&self) -> (r: &[u8])
        ensures
            r@ == self@,
    {
        bytes_as_slice(&self.data)
    }

    pub fn into_data(self) -> (r: Bytes)
        ensures
            bytes_content(r) == self@,
    {
        self.data
    }
}

/// A vote on a commit, embedded in a block verbatim. Opaque serialized bytes:
/// this crate carries it but does not interpret it.
pub struct CommitVote {
    data: Bytes,
}

impl View for CommitVote {
    type V = Seq<u8>;

    closed spec fn view(&self) -> Seq<u8> {
        bytes_content(self.data)
    }
}

impl CommitVote {
    pub fn new(data: Vec<u8>) -> (r: CommitVote)
        ensures
            r@ == data@,
    {
        CommitVote { data: bytes_from_vec(data) }
    }

    pub fn data(&self) -> (r: &[u8])
        ensures
            r@ == self@,
    {
        bytes_as_slice(&self.data)
    }
}

/// Digest of a verified block, covering the block content and its signature
/// together. Ordered lexicographically by its bytes.
#[derive(Clone, Copy, PartialEq, Eq, Debug, Hash)]
pub struct BlockDigest(pub [u8; DIGEST_LENGTH]);

impl View for BlockDigest {
    type V = Seq<u8>;

    open spec fn view(&self) -> Seq<u8> {
        self.0@
    }
}

impl BlockDigest {
    /// The lexicographically least digest: all bytes zero.
    pub fn min_value() -> (r: BlockDigest)
        ensures
            r@ == zero_bytes(DIGEST_LENGTH as nat),
    {
        let r = BlockDigest([0u8; DIGEST_LENGTH]);
        assert(r@ =~= zero_bytes(DIGEST_LENGTH as nat));
        r
    }

    /// The lexicographically greatest digest: all bytes 255.
    pub fn max_value() -> (r: BlockDigest)
        ensures
            r@ == max_bytes(DIGEST_LENGTH as nat),
    {
        let r = BlockDigest([255u8; DIGEST_LENGTH]);
        assert(r@ =~= max_bytes(DIGEST_LENGTH as nat));
        r
    }
}

/// The model of a `BlockRef`: the coordinates and identity of one concrete
/// signed block.
pub ghost struct BlockRefData {
    pub round: Round,
    pub author: u32,
    pub digest: Seq<u8>,
}

/// `BlockRef` uniquely identifies a verified block via `digest`. It also
/// carries the slot (round and author), so it can be used in logic such as
/// aggregating stakes for a round. Ordered by round, then author, then digest.
#[derive(Clone, Copy, PartialEq, Eq, Debug, Hash)]
pub struct BlockRef {
    pub round: Round,
    pub author: AuthorityIndex,
    pub digest: BlockDigest,
}

impl View for BlockRef {
    type V = BlockRefData;

    open spec fn view(&self) -> BlockRefData {
        BlockRefData { round: self.round, author: self.author.value, digest: self.digest@ }
    }
}

impl BlockRef {
    pub fn new(round: Round, author: AuthorityIndex, digest: BlockDigest) -> (r: BlockRef)
        ensures
            r@ == (BlockRefData { round, author: author.value, digest: digest@ }),
    {
        BlockRef { round, author, digest }
    }

    /// The least constructible reference: round 0, author 0, zero digest.
    pub fn min_value() -> (r: BlockRef)
        ensures
            r@ == min_block_ref(),
    {
        BlockRef {
            round: 0,
            author: AuthorityIndex::new(0),
            digest: BlockDigest::min_value(),
        }
    }

    /// The greatest constructible reference.
    pub fn max_value() -> (r: BlockRef)
        ensures
            r@ == max_block_ref(),
    {
        BlockRef {
            round: u32::MAX,
            author: AuthorityIndex::new(u32::MAX),
            digest: BlockDigest::max_value(),
        }
    }

    /// Whether `self` orders strictly before `other`: by round, then author,
    /// then digest bytes, in that priority.
    pub fn lt(&self, other: &BlockRef) -> (r: bool)
        ensures
            r == block_ref_lt(self@, other@),
    {
        if self.round != other.round {
            self.round < other.round
        } else if self.author.value != other.author.value {
            self.author.value < other.author.value
        } else {
            digest_lt(&self.digest, &other.digest)
        }
    }
}

/// A sequence of all-zero bytes.
pub open spec fn zero_bytes(n: nat) -> Seq<u8> {
    Seq::new(n, |i: int| 0u8)
}

/// A sequence of all-255 bytes.
pub open spec fn max_bytes(n: nat) -> Seq<u8> {
    Seq::new(n, |i: int| 255u8)
}

/// Strict lexicographic order on byte strings.
pub open spec fn bytes_lt(a: Seq<u8>, b: Seq<u8>) -> bool
    decreases a.len(),
{
    if a.len() == 0 {
        b.len() > 0
    } else if b.len() == 0 {
        false
    } else if a[0] != b[0] {
        a[0] < b[0]
    } else {
        bytes_lt(a.drop_first(), b.drop_first())
    }
}

/// The model of the sentinel `BlockRef::min_value()`.
pub open spec fn min_block_ref() -> BlockRefData {
    BlockRefData { round: 0, author: 0, digest: zero_bytes(DIGEST_LENGTH as nat) }
}

/// The model of the sentinel `BlockRef::max_value()`.
pub open spec fn max_block_ref() -> BlockRefData {
    BlockRefData { round: u32::MAX, author: u32::MAX, digest: max_bytes(DIGEST_LENGTH as nat) }
}

/// Strict order on block references: round first, then author, then digest.
pub open spec fn block_ref_lt(a: BlockRefData, b: BlockRefData) -> bool {
    ||| a.round < b.round
    ||| (a.round == b.round && a.author < b.author)
    ||| (a.round == b.round && a.author == b.author && bytes_lt(a.digest, b.digest))
}

/// Reflexive order on block references.
pub open spec fn block_ref_le(a: BlockRefData, b: BlockRefData) -> bool {
    block_ref_lt(a, b) || a == b
}

/// If the first `i` bytes of `a` and `b` agree, the order of `a` and `b` is
/// the order of their tails from `i` on.
proof fn lemma_bytes_lt_skip(a: Seq<u8>, b: Seq<u8>, i: int)
    requires
        0 <= i <= a.len(),
        i <= b.len(),
        forall|j: int| 0 <= j < i ==> a[j] == b[j],
    ensures
        bytes_lt(a, b) == bytes_lt(a.skip(i), b.skip(i)),
    decreases i,
{
    if i > 0 {
        lemma_bytes_lt_skip(a.drop_first(), b.drop_first(), i - 1);
        assert(a.drop_first().skip(i - 1) =~= a.skip(i));
        assert(b.drop_first().skip(i - 1) =~= b.skip(i));
    } else {
        assert(a.skip(0) =~= a);
        assert(b.skip(0) =~= b);
    }
}

/// The all-zero string of length `d.len()` orders at or below `d`.
proof fn lemma_zero_bytes_le(d: Seq<u8>)
    ensures
        bytes_lt(zero_bytes(d.len()), d) || zero_bytes(d.len()) == d,
    decreases d.len(),
{
    let z = zero_bytes(d.len());
    if d.len() > 0 {
        if d[0] == 0 {
            lemma_zero_bytes_le(d.drop_first());
            assert(z.drop_first() =~= zero_bytes(d.drop_first().len()));
            if zero_bytes(d.drop_first().len()) == d.drop_first() {
                assert forall|j: int| 0 <= j < d.len() implies z[j] == d[j] by {
                    if j > 0 {
                        assert(d[j] == d.drop_first()[j - 1]);
                        assert(d.drop_first()[j - 1] == zero_bytes(d.drop_first().len())[j - 1]);
                    }
                }
                assert(z =~= d);
            }
        }
    } else {
        assert(z =~= d);
    }
}

/// `d` orders at or below the all-255 string of its length.
proof fn lemma_max_bytes_ge(d: Seq<u8>)
    ensures
        bytes_lt(d, max_bytes(d.len())) || d == max_bytes(d.len()),
    decreases d.len(),
{
    let m = max_bytes(d.len());
    if d.len() > 0 {
        if d[0] == 255 {
            lemma_max_bytes_ge(d.drop_first());
            assert(m.drop_first() =~= max_bytes(d.drop_first().len()));
            if d.drop_first() == max_bytes(d.drop_first().len()) {
                assert forall|j: int| 0 <= j < d.len() implies d[j] == m[j] by {
                    if j > 0 {
                        assert(d[j] == d.drop_first()[j - 1]);
                        assert(d.drop_first()[j - 1] == max_bytes(d.drop_first().len())[j - 1]);
                    }
                }
                assert(d =~= m);
            }
        }
    }
    if d.len() == 0 {
        assert(d =~= m);
    }
}

/// Every constructible block reference lies between the two sentinels:
/// `min_value() <= r <= max_value()` in the (round, author, digest) order.
pub proof fn lemma_block_ref_bounds(r: BlockRefData)
    requires
        r.digest.len() == DIGEST_LENGTH,
    ensures
        block_ref_le(min_block_ref(), r),
        block_ref_le(r, max_block_ref()),
{
    lemma_zero_bytes_le(r.digest);
    lemma_max_bytes_ge(r.digest);
    if min_block_ref().round == r.round && min_block_ref().author == r.author
        && zero_bytes(DIGEST_LENGTH as nat) == r.digest {
        assert(min_block_ref() == r);
    }
    if r.round == max_block_ref().round && r.author == max_block_ref().author && r.digest
        == max_bytes(DIGEST_LENGTH as nat) {
        assert(r == max_block_ref());
    }
}

/// Every value of the `BlockRef` type lies between the two sentinels; its
/// digest has exactly `DIGEST_LENGTH` bytes by construction.
pub proof fn lemma_block_ref_in_bounds(r: BlockRef)
    ensures
        block_ref_le(min_block_ref(), r@),
        block_ref_le(r@, max_block_ref()),
{
    lemma_block_ref_bounds(r@);
}

/// The order on block references compares round, then author, then digest
/// bytes, in that priority.
pub proof fn lemma_block_ref_order_priority(a: BlockRefData, b: BlockRefData)
    ensures
        a.round < b.round ==> block_ref_lt(a, b),
        (a.round == b.round && a.author < b.author) ==> block_ref_lt(a, b),
        (a.round == b.round && a.author == b.author) ==> (block_ref_lt(a, b) == bytes_lt(
            a.digest,
            b.digest,
        )),
{
}

/// Whether digest `a` orders strictly before digest `b`, byte-lexicographically.
pub fn digest_lt(a: &BlockDigest, b: &BlockDigest) -> (r: bool)
    ensures
        r == bytes_lt(a@, b@),
{
    let mut i: usize = 0;
    while i < DIGEST_LENGTH
        invariant
            0 <= i <= DIGEST_LENGTH,
            forall|j: int| 0 <= j < i ==> a@[j] == b@[j],
        decreases DIGEST_LENGTH - i,
    {
        if a.0[i] != b.0[i] {
            proof {
                lemma_bytes_lt_skip(a@, b@, i as int);
            }
            return a.0[i] < b.0[i];
        }
        i = i + 1;
    }
    proof {
        lemma_bytes_lt_skip(a@, b@, DIGEST_LENGTH as int);
    }
    false
}

/// Whether two digests hold the same bytes.
pub fn digest_eq(a: &BlockDigest, b: &BlockDigest) -> (r: bool)
    ensures
        r == (a@ == b@),
{
    let mut i: usize = 0;
    while i < DIGEST_LENGTH
        invariant
            0 <= i <= DIGEST_LENGTH,
            forall|j: int| 0 <= j < i ==> a@[j] == b@[j],
        decreases DIGEST_LENGTH - i,
    {
        if a.0[i] != b.0[i] {
            return false;
        }
        i = i + 1;
    }
    assert(a@ =~= b@);
    true
}

/// Slot is the position of a block in the DAG. Coarser than `BlockRef`: under
/// equivocation a slot can hold zero, one or multiple blocks from the same
/// authority at the same round.
#[derive(Clone, Copy, PartialEq, Eq, Structural, Debug, Hash)]
pub struct Slot {
    pub round: Round,
    pub authority: AuthorityIndex,
}

impl Slot {
    pub fn new(round: Round, authority: AuthorityIndex) -> (r: Slot)
        ensures
            r.round == round,
            r.authority == authority,
    {
        Slot { round, authority }
    }

    pub fn new_for_test(round: Round, authority: u32) -> (r: Slot)
        ensures
            r.round == round,
            r.authority.value == authority,
    {
        Slot { round, authority: AuthorityIndex::new(authority) }
    }

}

impl From<BlockRef> for Slot {
    /// The slot a block reference occupies.
    fn from(value: BlockRef) -> (r: Slot) {
        Slot::new(value.round, value.author)
    }
}

impl vstd::std_specs::convert::FromSpecImpl<BlockRef> for Slot {
    open spec fn obeys_from_spec() -> bool {
        true
    }

    open spec fn from_spec(value: BlockRef) -> Slot {
        Slot { round: value.round, authority: value.author }
    }
}

/// The model of a misbehavior proof.
pub ghost enum MisbehaviorProofData {
    InvalidBlock(BlockRefData),
}

/// The model of a misbehavior report.
pub ghost struct MisbehaviorReportData {
    pub target: u32,
    pub proof: MisbehaviorProofData,
}

/// Proof of misbehavior: evidence referencing another block's identity. The
/// content of the referenced block must be fetched elsewhere by the consumer.
pub enum MisbehaviorProof {
    InvalidBlock(BlockRef),
}

impl View for MisbehaviorProof {
    type V = MisbehaviorProofData;

    open spec fn view(&self) -> MisbehaviorProofData {
        match self {
            MisbehaviorProof::InvalidBlock(r) => MisbehaviorProofData::InvalidBlock(r@),
        }
    }
}

/// A report of misbehavior by another authority, embeddable in a block.
pub struct MisbehaviorReport {
    pub target: AuthorityIndex,
    pub proof: MisbehaviorProof,
}

impl View for MisbehaviorReport {
    type V = MisbehaviorReportData;

    open spec fn view(&self) -> MisbehaviorReportData {
        MisbehaviorReportData { target: self.target.value, proof: self.proof@ }
    }
}

/// The views of a sequence of block references.
pub open spec fn refs_view(s: Seq<BlockRef>) -> Seq<BlockRefData> {
    s.map_values(|r: BlockRef| r@)
}

/// The views of a sequence of transactions.
pub open spec fn transactions_view(s: Seq<Transaction>) -> Seq<Seq<u8>> {
    s.map_values(|t: Transaction| t@)
}

/// The views of a sequence of commit votes.
pub open spec fn votes_view(s: Seq<CommitVote>) -> Seq<Seq<u8>> {
    s.map_values(|v: CommitVote| v@)
}

/// The views of a sequence of misbehavior reports.
pub open spec fn reports_view(s: Seq<MisbehaviorReport>) -> Seq<MisbehaviorReportData> {
    s.map_values(|m: MisbehaviorReport| m@)
}

/// The common content of a block, shared by every version variant.
pub ghost struct BlockContent {
    pub epoch: Epoch,
    pub round: Round,
    pub author: u32,
    pub timestamp_ms: BlockTimestampMs,
    pub ancestors: Seq<BlockRefData>,
    pub transactions: Seq<Seq<u8>>,
    pub commit_votes: Seq<Seq<u8>>,
    pub misbehavior_reports: Seq<MisbehaviorReportData>,
}

/// The model of a versioned block: the version tag with the content.
pub ghost enum BlockData {
    V1(BlockContent),
}

impl BlockData {
    /// The content of the block, whatever its version.
    pub open spec fn content(self) -> BlockContent {
        match self {
            BlockData::V1(c) => c,
        }
    }
}

/// Version 1 of the block format.
pub struct BlockV1 {
    epoch: Epoch,
    round: Round,
    author: AuthorityIndex,
    timestamp_ms: BlockTimestampMs,
    ancestors: Vec<BlockRef>,
    transactions: Vec<Transaction>,
    commit_votes: Vec<CommitVote>,
    misbehavior_reports: Vec<MisbehaviorReport>,
}

impl View for BlockV1 {
    type V = BlockContent;

    closed spec fn view(&self) -> BlockContent {
        BlockContent {
            epoch: self.epoch,
            round: self.round,
            author: self.author.value,
            timestamp_ms: self.timestamp_ms,
            ancestors: refs_view(self.ancestors@),
            transactions: transactions_view(self.transactions@),
            commit_votes: votes_view(self.commit_votes@),
            misbehavior_reports: reports_view(self.misbehavior_reports@),
        }
    }
}

impl BlockV1 {
    pub fn new(
        epoch: Epoch,
        round: Round,
        author: AuthorityIndex,
        timestamp_ms: BlockTimestampMs,
        ancestors: Vec<BlockRef>,
        transactions: Vec<Transaction>,
        commit_votes: Vec<CommitVote>,
        misbehavior_reports: Vec<MisbehaviorReport>,
    ) -> (r: BlockV1)
        ensures
            r@ == (BlockContent {
                epoch,
                round,
                author: author.value,
                timestamp_ms,
                ancestors: refs_view(ancestors@),
                transactions: transactions_view(transactions@),
                commit_votes: votes_view(commit_votes@),
                misbehavior_reports: reports_view(misbehavior_reports@),
            }),
    {
        BlockV1 {
            epoch,
            round,
            author,
            timestamp_ms,
            ancestors,
            transactions,
            commit_votes,
            misbehavior_reports,
        }
    }

    /// The protocol-defined block an authority starts the DAG with: round 0,
    /// no ancestors, no payload, timestamp 0.
    pub fn genesis_block(epoch: Epoch, author: AuthorityIndex) -> (r: BlockV1)
        ensures
            r@ == genesis_block_content(epoch, author.value),
    {
        let r = BlockV1 {
            epoch,
            round: GENESIS_ROUND,
            author,
            timestamp_ms: 0,
            ancestors: Vec::new(),
            transactions: Vec::new(),
            commit_votes: Vec::new(),
            misbehavior_reports: Vec::new(),
        };
        assert(refs_view(Seq::<BlockRef>::empty()) =~= Seq::<BlockRefData>::empty());
        assert(transactions_view(Seq::<Transaction>::empty()) =~= Seq::<Seq<u8>>::empty());
        assert(votes_view(Seq::<CommitVote>::empty()) =~= Seq::<Seq<u8>>::empty());
        assert(reports_view(Seq::<MisbehaviorReport>::empty())
            =~= Seq::<MisbehaviorReportData>::empty());
        r
    }
}

/// The content of the genesis block of `author` in `epoch`.
pub open spec fn genesis_block_content(epoch: Epoch, author: u32) -> BlockContent {
    BlockContent {
        epoch,
        round: GENESIS_ROUND,
        author,
        timestamp_ms: 0,
        ancestors: Seq::empty(),
        transactions: Seq::empty(),
        commit_votes: Seq::empty(),
        misbehavior_reports: Seq::empty(),
    }
}

/// A block, polymorphic over its version tag. A new format version is a new
/// variant; all variants expose the same accessors through `BlockAPI`.
pub enum Block {
    V1(BlockV1),
}

impl View for Block {
    type V = BlockData;

    open spec fn view(&self) -> BlockData {
        match self {
            Block::V1(b) => BlockData::V1(b@),
        }
    }
}

/// The capability interface shared by every block version: accessors for
/// every content field, dispatched uniformly regardless of variant.
pub trait BlockAPI {
    /// The modeled content of the block.
    spec fn content(&self) -> BlockContent;

    fn epoch(&self) -> (r: Epoch)
        ensures
            r == self.content().epoch,
    ;

    fn round(&self) -> (r: Round)
        ensures
            r == self.content().round,
    ;

    fn author(&self) -> (r: AuthorityIndex)
        ensures
            r.value == self.content().author,
    ;

    fn slot(&self) -> (r: Slot)
        ensures
            r.round == self.content().round,
            r.authority.value == self.content().author,
    ;

    fn timestamp_ms(&self) -> (r: BlockTimestampMs)
        ensures
            r == self.content().timestamp_ms,
    ;

    fn ancestors(&self) -> (r: &[BlockRef])
        ensures
            refs_view(r@) == self.content().ancestors,
    ;

    fn transactions(&self) -> (r: &[Transaction])
        ensures
            transactions_view(r@) == self.content().transactions,
    ;

    fn commit_votes(&self) -> (r: &[CommitVote])
        ensures
            votes_view(r@) == self.content().commit_votes,
    ;

    fn misbehavior_reports(&self) -> (r: &[MisbehaviorReport])
        ensures
            reports_view(r@) == self.content().misbehavior_reports,
    ;
}

impl BlockAPI for BlockV1 {
    open spec fn content(&self) -> BlockContent {
        self@
    }

    fn epoch(&self) -> (r: Epoch) {
        self.epoch
    }

    fn round(&self) -> (r: Round) {
        self.round
    }

    fn author(&self) -> (r: AuthorityIndex) {
        self.author
    }

    fn slot(&self) -> (r: Slot) {
        Slot::new(self.round, self.author)
    }

    fn timestamp_ms(&self) -> (r: BlockTimestampMs) {
        self.timestamp_ms
    }

    fn ancestors(&self) -> (r: &[BlockRef]) {
        self.ancestors.as_slice()
    }

    fn transactions(&self) -> (r: &[Transaction]) {
        self.transactions.as_slice()
    }

    fn commit_votes(&self) -> (r: &[CommitVote]) {
        self.commit_votes.as_slice()
    }

    fn misbehavior_reports(&self) -> (r: &[MisbehaviorReport]) {
        self.misbehavior_reports.as_slice()
    }
}

impl BlockAPI for Block {
    open spec fn content(&self) -> BlockContent {
        self@.content()
    }

    fn epoch(&self) -> (r: Epoch) {
        match self {
            Block::V1(b) => b.epoch(),
        }
    }

    fn round(&self) -> (r: Round) {
        match self {
            Block::V1(b) => b.round(),
        }
    }

    fn author(&self) -> (r: AuthorityIndex) {
        match self {
            Block::V1(b) => b.author(),
        }
    }

    fn slot(&self) -> (r: Slot) {
        match self {
            Block::V1(b) => b.slot(),
        }
    }

    fn timestamp_ms(&self) -> (r: BlockTimestampMs) {
        match self {
            Block::V1(b) => b.timestamp_ms(),
        }
    }

    fn ancestors(&self) -> (r: &[BlockRef]) {
        match self {
            Block::V1(b) => b.ancestors(),
        }
    }

    fn transactions(&self) -> (r: &[Transaction]) {
        match self {
            Block::V1(b) => b.transactions(),
        }
    }

    fn commit_votes(&self) -> (r: &[CommitVote]) {
        match self {
            Block::V1(b) => b.commit_votes(),
        }
    }

    fn misbehavior_reports(&self) -> (r: &[MisbehaviorReport]) {
        match self {
            Block::V1(b) => b.misbehavior_reports(),
        }
    }
}

} // verus!
