//! Block data model: accessors, coordinates, ordering, and the canonical
//! encoding, cross-checked against a reference serializer.

use consensus_core::block::{
    Block, BlockAPI, BlockDigest, BlockRef, BlockV1, CommitVote, MisbehaviorProof,
    MisbehaviorReport, Slot, Transaction,
};
use consensus_core::codec::{encode_byte_slice, encode_u32_le, encode_u64_le, encode_uleb128};
use consensus_core::committee::AuthorityIndex;
use consensus_core::signed_block::SignedBlock;

fn make_ref(round: u32, author: u32, byte: u8) -> BlockRef {
    BlockRef::new(round, AuthorityIndex::new(author), BlockDigest([byte; 32]))
}

#[test]
fn test_transaction_holds_its_bytes() {
    let t = Transaction::new(vec![1, 2, 3]);
    assert_eq!(t.data(), &[1, 2, 3]);
    let bytes = t.into_data();
    assert_eq!(&bytes[..], &[1, 2, 3]);

    let v = CommitVote::new(vec![9, 8]);
    assert_eq!(v.data(), &[9, 8]);
}

#[test]
fn test_block_accessors() {
    let ancestor = make_ref(4, 1, 7);
    let report = MisbehaviorReport {
        target: AuthorityIndex::new(3),
        proof: MisbehaviorProof::InvalidBlock(make_ref(2, 3, 5)),
    };
    let block = Block::V1(BlockV1::new(
        9,
        5,
        AuthorityIndex::new(2),
        1234,
        vec![ancestor],
        vec![Transaction::new(vec![1]), Transaction::new(vec![2, 2])],
        vec![CommitVote::new(vec![3])],
        vec![report],
    ));

    assert_eq!(block.epoch(), 9);
    assert_eq!(block.round(), 5);
    assert_eq!(block.author().value, 2);
    assert_eq!(block.timestamp_ms(), 1234);
    assert_eq!(block.slot(), Slot::new_for_test(5, 2));
    assert_eq!(block.ancestors(), &[ancestor]);
    assert_eq!(block.transactions().len(), 2);
    assert_eq!(block.transactions()[1].data(), &[2, 2]);
    assert_eq!(block.commit_votes().len(), 1);
    assert_eq!(block.commit_votes()[0].data(), &[3]);
    assert_eq!(block.misbehavior_reports().len(), 1);
    assert_eq!(block.misbehavior_reports()[0].target.value, 3);
    match &block.misbehavior_reports()[0].proof {
        MisbehaviorProof::InvalidBlock(r) => assert_eq!(*r, make_ref(2, 3, 5)),
    }
}

#[test]
fn test_slot_from_block_ref() {
    let r = make_ref(6, 2, 1);
    assert_eq!(Slot::from(r), Slot::new(6, AuthorityIndex::new(2)));
    assert_eq!(Slot::new_for_test(6, 2), Slot::new(6, AuthorityIndex::new(2)));
}

#[test]
fn test_block_ref_order_priority() {
    // Round dominates author and digest.
    assert!(make_ref(1, 9, 9).lt(&make_ref(2, 0, 0)));
    assert!(!make_ref(2, 0, 0).lt(&make_ref(1, 9, 9)));
    // Equal rounds: author dominates digest.
    assert!(make_ref(1, 1, 9).lt(&make_ref(1, 2, 0)));
    assert!(!make_ref(1, 2, 0).lt(&make_ref(1, 1, 9)));
    // Equal rounds and authors: digest bytes decide.
    assert!(make_ref(1, 1, 1).lt(&make_ref(1, 1, 2)));
    assert!(!make_ref(1, 1, 2).lt(&make_ref(1, 1, 1)));
    // The order is strict.
    assert!(!make_ref(1, 1, 1).lt(&make_ref(1, 1, 1)));
}

#[test]
fn test_block_ref_sentinels_bound_every_ref() {
    let min = BlockRef::min_value();
    let max = BlockRef::max_value();
    let samples = [
        min,
        make_ref(0, 0, 1),
        make_ref(3, 1, 200),
        make_ref(u32::MAX, u32::MAX, 254),
        max,
    ];
    for s in samples.iter() {
        assert!(min.lt(s) || min == *s);
        assert!(s.lt(&max) || *s == max);
    }
    assert!(min.lt(&max));
}

#[test]
fn test_codec_matches_reference_serializer() {
    // Fixed-width integers, little-endian.
    let mut out32: Vec<u8> = Vec::new();
    encode_u32_le(0xDEADBEEF, &mut out32);
    assert_eq!(out32, bcs::to_bytes(&0xDEADBEEFu32).unwrap());

    let mut out64: Vec<u8> = Vec::new();
    encode_u64_le(0x0123456789ABCDEF, &mut out64);
    assert_eq!(out64, bcs::to_bytes(&0x0123456789ABCDEFu64).unwrap());

    // ULEB128 length prefix before variable-size byte fields.
    let payload = vec![7u8; 300];
    let reference = bcs::to_bytes(&payload).unwrap();
    let mut prefix: Vec<u8> = Vec::new();
    encode_uleb128(300, &mut prefix);
    assert_eq!(prefix, vec![0xAC, 0x02]);
    assert_eq!(prefix[..], reference[..prefix.len()]);

    let mut whole: Vec<u8> = Vec::new();
    encode_byte_slice(&payload, &mut whole);
    assert_eq!(whole, reference);
}

#[test]
fn test_canonical_serialization_exact_bytes() {
    let ancestor = make_ref(5, 6, 7);
    let report = MisbehaviorReport {
        target: AuthorityIndex::new(1),
        proof: MisbehaviorProof::InvalidBlock(make_ref(8, 9, 10)),
    };
    let block = Block::V1(BlockV1::new(
        1,
        2,
        AuthorityIndex::new(3),
        4,
        vec![ancestor],
        vec![Transaction::new(vec![1, 2, 3])],
        vec![CommitVote::new(vec![9])],
        vec![report],
    ));
    let signed = SignedBlock::new_genesis(block);
    let serialized = signed.serialize();

    let mut expected: Vec<u8> = Vec::new();
    expected.push(0); // Block variant tag
    expected.extend_from_slice(&[1, 0, 0, 0, 0, 0, 0, 0]); // epoch
    expected.extend_from_slice(&[2, 0, 0, 0]); // round
    expected.extend_from_slice(&[3, 0, 0, 0]); // author
    expected.extend_from_slice(&[4, 0, 0, 0, 0, 0, 0, 0]); // timestamp_ms
    expected.push(1); // one ancestor
    expected.extend_from_slice(&[5, 0, 0, 0]); // ancestor round
    expected.extend_from_slice(&[6, 0, 0, 0]); // ancestor author
    expected.extend_from_slice(&[7; 32]); // ancestor digest
    expected.push(1); // one transaction
    expected.push(3); // its length
    expected.extend_from_slice(&[1, 2, 3]);
    expected.push(1); // one commit vote
    expected.push(1); // its length
    expected.push(9);
    expected.push(1); // one misbehavior report
    expected.extend_from_slice(&[1, 0, 0, 0]); // target
    expected.push(0); // proof variant tag
    expected.extend_from_slice(&[8, 0, 0, 0]); // referenced round
    expected.extend_from_slice(&[9, 0, 0, 0]); // referenced author
    expected.extend_from_slice(&[10; 32]); // referenced digest
    expected.push(0); // empty signature

    assert_eq!(&serialized[..], &expected[..]);
}

#[test]
fn test_genesis_serialization_is_thirty_bytes() {
    let block = Block::V1(BlockV1::genesis_block(0, AuthorityIndex::new(0)));
    let signed = SignedBlock::new_genesis(block);
    let serialized = signed.serialize();
    // tag + epoch + round + author + timestamp + four empty sequences + empty
    // signature: 1 + 8 + 4 + 4 + 8 + 4 + 1.
    assert_eq!(serialized.len(), 30);
}
