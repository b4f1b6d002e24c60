//! VerifiedBlock lifecycle: cached digest and serialization, cloning, genesis
//! generation, and sensitivity of the identity digest to the signature bytes.

use consensus_core::block::{Block, BlockAPI, BlockV1, Transaction};
use consensus_core::committee::{Authority, AuthorityIndex, Committee, Context};
use consensus_core::crypto::ProtocolKeyPair;
use consensus_core::error::ConsensusError;
use consensus_core::signed_block::{verify_block_signature, SignedBlock};
use consensus_core::verified::{genesis_blocks, VerifiedBlock};
use fastcrypto::hash::{Blake2b256, HashFunction};

fn keypair_for_test(id: u8) -> ProtocolKeyPair {
    let mut seed = vec![0u8; 32];
    seed[0] = id + 1;
    ProtocolKeyPair::from_bytes(&seed).expect("32-byte seed must parse")
}

fn context_for_test(n: u8) -> (Context, Vec<ProtocolKeyPair>) {
    let mut key_pairs = Vec::new();
    let mut authorities = Vec::new();
    for i in 0..n {
        let kp = keypair_for_test(i);
        authorities.push(Authority {
            protocol_key: kp.public(),
        });
        key_pairs.push(kp);
    }
    (Context::new(Committee::new(3, authorities)), key_pairs)
}

fn test_block(round: u32, author: u32) -> Block {
    Block::V1(BlockV1::new(
        3,
        round,
        AuthorityIndex::new(author),
        1000,
        vec![],
        vec![Transaction::new(vec![4, 5, 6])],
        vec![],
        vec![],
    ))
}

fn verified_block(round: u32, author: u32, kp: &ProtocolKeyPair) -> VerifiedBlock {
    let signed = SignedBlock::new(test_block(round, author), kp).expect("signing");
    let serialized = signed.serialize();
    VerifiedBlock::new_verified(signed, serialized)
}

#[test]
fn test_digest_covers_serialized_bytes() {
    let kp = keypair_for_test(2);
    let block = verified_block(10, 2, &kp);

    // hash(serialized) == digest == reference().digest
    let recomputed = VerifiedBlock::compute_digest(block.serialized().as_ref());
    assert_eq!(recomputed, block.digest());
    assert_eq!(block.reference().digest, block.digest());
    assert_eq!(block.reference().round, 10);
    assert_eq!(block.reference().author.value, 2);
}

#[test]
fn test_digest_matches_hashing_library() {
    // The cached digest is the Blake2b-256 hash of the serialized bytes as
    // the hashing library computes it, not some echo of the input.
    let kp = keypair_for_test(0);
    let block = verified_block(4, 0, &kp);
    let expected = Blake2b256::digest(block.serialized().as_ref()).digest;
    assert_eq!(block.digest().0, expected);
    assert_ne!(&block.digest().0[..], &block.serialized().as_ref()[..32]);
}

#[test]
fn test_clones_share_identity() {
    let kp = keypair_for_test(1);
    let v1 = verified_block(7, 1, &kp);
    let v2 = v1.clone();

    assert_eq!(v1.digest(), v2.digest());
    assert_eq!(v1.serialized(), v2.serialized());
    assert!(v1.equals(&v2));
    assert_eq!(v1.reference(), v2.reference());
}

#[test]
fn test_genesis_blocks_per_committee_member() {
    let (context, _) = context_for_test(4);
    let blocks = genesis_blocks(&context);

    assert_eq!(blocks.len(), 4);
    for (i, b) in blocks.iter().enumerate() {
        assert_eq!(b.round(), 0);
        assert_eq!(b.author().value, i as u32);
        assert_eq!(b.epoch(), 3);
        assert_eq!(b.timestamp_ms(), 0);
        assert!(b.ancestors().is_empty());
        assert!(b.transactions().is_empty());
        assert!(b.commit_votes().is_empty());
        assert!(b.misbehavior_reports().is_empty());
    }
}

#[test]
fn test_genesis_is_idempotent() {
    let (context, _) = context_for_test(4);
    let first = genesis_blocks(&context);
    let second = genesis_blocks(&context);

    assert_eq!(first.len(), second.len());
    for (a, b) in first.iter().zip(second.iter()) {
        assert_eq!(a.digest(), b.digest());
        assert_eq!(a.serialized(), b.serialized());
    }
}

#[test]
fn test_flipping_signature_byte_changes_digest_and_fails_verification() {
    let (context, key_pairs) = context_for_test(4);
    let kp = &key_pairs[2];
    let pk = kp.public();

    let signed = SignedBlock::new(test_block(10, 2), kp).expect("signing");
    let signature: Vec<u8> = signed.signature().as_ref().to_vec();
    let serialized = signed.serialize();
    let block = VerifiedBlock::new_verified(signed, serialized);
    assert!(context.committee.size() > 0);

    // Flip one byte inside the signature region of the cached serialization
    // (the signature is the length-prefixed tail of the encoding).
    let mut tampered_bytes: Vec<u8> = block.serialized().as_ref().to_vec();
    let last = tampered_bytes.len() - 1;
    tampered_bytes[last] ^= 0x01;
    let tampered_digest = VerifiedBlock::compute_digest(&tampered_bytes);
    assert_ne!(tampered_digest, block.digest());

    // The flipped signature no longer verifies under the original key.
    let mut tampered_signature = signature.clone();
    let sig_last = tampered_signature.len() - 1;
    tampered_signature[sig_last] ^= 0x01;
    let result = verify_block_signature(&test_block(10, 2), &tampered_signature, &pk);
    assert_eq!(
        result.err().unwrap(),
        ConsensusError::SignatureVerificationFailure
    );
}

#[test]
fn test_cleared_signature_changes_digest() {
    let kp = keypair_for_test(2);
    let mut signed = SignedBlock::new(test_block(9, 2), &kp).expect("signing");
    let digest_before = VerifiedBlock::compute_digest(signed.serialize().as_ref());
    signed.clear_signature();
    assert_eq!(signed.signature().len(), 0);
    let digest_after = VerifiedBlock::compute_digest(signed.serialize().as_ref());
    assert_ne!(digest_before, digest_after);
}
