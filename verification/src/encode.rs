//! Canonical encoding of blocks. The wire identity of a block is defined over
//! these bytes, so the encoding is deterministic: fixed field order,
//! fixed-width integers in little-endian order, ULEB128 length prefixes for
//! variable-size sequences, and a stable tag for each enum variant.

use vstd::prelude::*;

use crate::block::{
    refs_view, reports_view, transactions_view, votes_view, Block, BlockAPI, BlockContent,
    BlockData, BlockRef, BlockRefData, BlockV1, CommitVote, MisbehaviorProof, MisbehaviorProofData,
    MisbehaviorReport, MisbehaviorReportData, Transaction,
};
use crate::codec::{
    append_byte_slice, encode_byte_slice, encode_bytes, encode_u32_le, encode_u64_le,
    encode_uleb128, u32_le_bytes, u64_le_bytes, uleb128,
};

verus! {

/// Canonical encoding of a block reference: round, author, digest bytes.
pub open spec fn encode_block_ref(r: BlockRefData) -> Seq<u8> {
    u32_le_bytes(r.round) + u32_le_bytes(r.author) + r.digest
}

/// Canonical encoding of a misbehavior report: target authority, then the
/// proof with its stable variant tag.
pub open spec fn encode_report(m: MisbehaviorReportData) -> Seq<u8> {
    u32_le_bytes(m.target) + match m.proof {
        MisbehaviorProofData::InvalidBlock(r) => seq![0u8] + encode_block_ref(r),
    }
}

/// Encodings of the references of `s` from index `i` on, concatenated.
pub open spec fn encode_refs_from(s: Seq<BlockRefData>, i: int) -> Seq<u8>
    decreases s.len() - i,
{
    if i < 0 || i >= s.len() {
        Seq::empty()
    } else {
        encode_block_ref(s[i]) + encode_refs_from(s, i + 1)
    }
}

/// Canonical encoding of a reference sequence: length prefix, then elements.
pub open spec fn encode_refs(s: Seq<BlockRefData>) -> Seq<u8> {
    uleb128(s.len()) + encode_refs_from(s, 0)
}

/// Encodings of the byte fields of `s` from index `i` on, concatenated.
pub open spec fn encode_byte_seqs_from(s: Seq<Seq<u8>>, i: int) -> Seq<u8>
    decreases s.len() - i,
{
    if i < 0 || i >= s.len() {
        Seq::empty()
    } else {
        encode_bytes(s[i]) + encode_byte_seqs_from(s, i + 1)
    }
}

/// Canonical encoding of a sequence of byte fields: length prefix, then each
/// field length-prefixed.
pub open spec fn encode_byte_seqs(s: Seq<Seq<u8>>) -> Seq<u8> {
    uleb128(s.len()) + encode_byte_seqs_from(s, 0)
}

/// Encodings of the reports of `s` from index `i` on, concatenated.
pub open spec fn encode_reports_from(s: Seq<MisbehaviorReportData>, i: int) -> Seq<u8>
    decreases s.len() - i,
{
    if i < 0 || i >= s.len() {
        Seq::empty()
    } else {
        encode_report(s[i]) + encode_reports_from(s, i + 1)
    }
}

/// Canonical encoding of a report sequence: length prefix, then elements.
pub open spec fn encode_reports(s: Seq<MisbehaviorReportData>) -> Seq<u8> {
    uleb128(s.len()) + encode_reports_from(s, 0)
}

/// Canonical encoding of a block's content: every field of the model, in
/// declaration order.
pub open spec fn encode_content(c: BlockContent) -> Seq<u8> {
    u64_le_bytes(c.epoch) + u32_le_bytes(c.round) + u32_le_bytes(c.author) + u64_le_bytes(
        c.timestamp_ms,
    ) + encode_refs(c.ancestors) + encode_byte_seqs(c.transactions) + encode_byte_seqs(
        c.commit_votes,
    ) + encode_reports(c.misbehavior_reports)
}

/// Canonical encoding of a block: its stable variant tag, then its content.
pub open spec fn encode_block(b: BlockData) -> Seq<u8> {
    match b {
        BlockData::V1(c) => seq![0u8] + encode_content(c),
    }
}

/// Appends the canonical encoding of `r` to `out`.
pub fn encode_block_ref_to(r: &BlockRef, out: &mut Vec<u8>)
    ensures
        final(out)@ == old(out)@ + encode_block_ref(r@),
{
    encode_u32_le(r.round, out);
    encode_u32_le(r.author.value, out);
    append_byte_slice(r.digest.0.as_slice(), out);
    assert(out@ =~= old(out)@ + encode_block_ref(r@));
}

/// Appends the canonical encoding of `m` to `out`.
pub fn encode_report_to(m: &MisbehaviorReport, out: &mut Vec<u8>)
    ensures
        final(out)@ == old(out)@ + encode_report(m@),
{
    encode_u32_le(m.target.value, out);
    match &m.proof {
        MisbehaviorProof::InvalidBlock(r) => {
            out.push(0u8);
            encode_block_ref_to(r, out);
        },
    }
    assert(out@ =~= old(out)@ + encode_report(m@));
}

/// Appends the canonical encoding of the reference sequence to `out`.
#[verifier::loop_isolation(false)]
pub fn encode_refs_to(refs: &[BlockRef], out: &mut Vec<u8>)
    ensures
        final(out)@ == old(out)@ + encode_refs(refs_view(refs@)),
{
    let ghost ca = refs_view(refs@);
    assert(ca.len() == refs@.len());
    encode_uleb128(refs.len() as u64, out);
    let ghost base = out@;
    let mut i: usize = 0;
    while i < refs.len()
        invariant
            0 <= i <= refs@.len(),
            out@ + encode_refs_from(ca, i as int) == base + encode_refs_from(ca, 0),
        decreases refs@.len() - i,
    {
        let ghost prev = out@;
        encode_block_ref_to(&refs[i], out);
        proof {
            assert(ca[i as int] == refs@[i as int]@);
            assert(out@ + encode_refs_from(ca, i as int + 1) =~= prev + encode_refs_from(
                ca,
                i as int,
            ));
        }
        i = i + 1;
    }
    proof {
        assert(encode_refs_from(ca, ca.len() as int) == Seq::<u8>::empty());
        assert(out@ =~= old(out)@ + encode_refs(ca));
    }
}

/// Appends the canonical encoding of the transaction sequence to `out`.
#[verifier::loop_isolation(false)]
pub fn encode_transactions_to(txs: &[Transaction], out: &mut Vec<u8>)
    ensures
        final(out)@ == old(out)@ + encode_byte_seqs(transactions_view(txs@)),
{
    let ghost ca = transactions_view(txs@);
    assert(ca.len() == txs@.len());
    encode_uleb128(txs.len() as u64, out);
    let ghost base = out@;
    let mut i: usize = 0;
    while i < txs.len()
        invariant
            0 <= i <= txs@.len(),
            out@ + encode_byte_seqs_from(ca, i as int) == base + encode_byte_seqs_from(ca, 0),
        decreases txs@.len() - i,
    {
        let ghost prev = out@;
        encode_byte_slice(txs[i].data(), out);
        proof {
            assert(ca[i as int] == txs@[i as int]@);
            assert(out@ + encode_byte_seqs_from(ca, i as int + 1) =~= prev + encode_byte_seqs_from(
                ca,
                i as int,
            ));
        }
        i = i + 1;
    }
    proof {
        assert(encode_byte_seqs_from(ca, ca.len() as int) == Seq::<u8>::empty());
        assert(out@ =~= old(out)@ + encode_byte_seqs(ca));
    }
}

/// Appends the canonical encoding of the commit vote sequence to `out`.
#[verifier::loop_isolation(false)]
pub fn encode_votes_to(votes: &[CommitVote], out: &mut Vec<u8>)
    ensures
        final(out)@ == old(out)@ + encode_byte_seqs(votes_view(votes@)),
{
    let ghost ca = votes_view(votes@);
    assert(ca.len() == votes@.len());
    encode_uleb128(votes.len() as u64, out);
    let ghost base = out@;
    let mut i: usize = 0;
    while i < votes.len()
        invariant
            0 <= i <= votes@.len(),
            out@ + encode_byte_seqs_from(ca, i as int) == base + encode_byte_seqs_from(ca, 0),
        decreases votes@.len() - i,
    {
        let ghost prev = out@;
        encode_byte_slice(votes[i].data(), out);
        proof {
            assert(ca[i as int] == votes@[i as int]@);
            assert(out@ + encode_byte_seqs_from(ca, i as int + 1) =~= prev + encode_byte_seqs_from(
                ca,
                i as int,
            ));
        }
        i = i + 1;
    }
    proof {
        assert(encode_byte_seqs_from(ca, ca.len() as int) == Seq::<u8>::empty());
        assert(out@ =~= old(out)@ + encode_byte_seqs(ca));
    }
}

/// Appends the canonical encoding of the report sequence to `out`.
#[verifier::loop_isolation(false)]
pub fn encode_reports_to(reports: &[MisbehaviorReport], out: &mut Vec<u8>)
    ensures
        final(out)@ == old(out)@ + encode_reports(reports_view(reports@)),
{
    let ghost ca = reports_view(reports@);
    assert(ca.len() == reports@.len());
    encode_uleb128(reports.len() as u64, out);
    let ghost base = out@;
    let mut i: usize = 0;
    while i < reports.len()
        invariant
            0 <= i <= reports@.len(),
            out@ + encode_reports_from(ca, i as int) == base + encode_reports_from(ca, 0),
        decreases reports@.len() - i,
    {
        let ghost prev = out@;
        encode_report_to(&reports[i], out);
        proof {
            assert(ca[i as int] == reports@[i as int]@);
            assert(out@ + encode_reports_from(ca, i as int + 1) =~= prev + encode_reports_from(
                ca,
                i as int,
            ));
        }
        i = i + 1;
    }
    proof {
        assert(encode_reports_from(ca, ca.len() as int) == Seq::<u8>::empty());
        assert(out@ =~= old(out)@ + encode_reports(ca));
    }
}

/// Appends the canonical encoding of the content of `b` to `out`.
pub fn encode_content_to(b: &BlockV1, out: &mut Vec<u8>)
    ensures
        final(out)@ == old(out)@ + encode_content(b@),
{
    encode_u64_le(b.epoch(), out);
    encode_u32_le(b.round(), out);
    encode_u32_le(b.author().value, out);
    encode_u64_le(b.timestamp_ms(), out);
    encode_refs_to(b.ancestors(), out);
    encode_transactions_to(b.transactions(), out);
    encode_votes_to(b.commit_votes(), out);
    encode_reports_to(b.misbehavior_reports(), out);
    assert(out@ =~= old(out)@ + encode_content(b@));
}

/// The canonical serialization of a block alone, without any signature.
pub fn serialize_block(block: &Block) -> (r: Vec<u8>)
    ensures
        r@ == encode_block(block@),
{
    let mut out: Vec<u8> = Vec::new();
    match block {
        Block::V1(b) => {
            out.push(0u8);
            encode_content_to(b, &mut out);
        },
    }
    assert(out@ =~= encode_block(block@));
    out
}

} // verus!
