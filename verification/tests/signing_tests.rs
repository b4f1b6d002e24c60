//! Signing and signature verification against a committee.

use consensus_core::block::{Block, BlockV1};
use consensus_core::committee::{Authority, AuthorityIndex, Committee, Context};
use consensus_core::crypto::ProtocolKeyPair;
use consensus_core::error::ConsensusError;
use consensus_core::signed_block::{compute_block_signature, sign_and_verify, verify_block_signature, SignedBlock};
use fastcrypto::traits::{KeyPair, ToFromBytes};

fn keypair_for_test(id: u8) -> ProtocolKeyPair {
    let mut seed = vec![0u8; 32];
    seed[0] = id + 1;
    ProtocolKeyPair::from_bytes(&seed).expect("32-byte seed must parse")
}

fn context_for_test(n: u8) -> (Context, Vec<ProtocolKeyPair>) {
    let mut key_pairs = Vec::new();
    let mut authorities = Vec::new();
    for i in 0..n {
        let kp = keypair_for_test(i);
        authorities.push(Authority {
            protocol_key: kp.public(),
        });
        key_pairs.push(kp);
    }
    (Context::new(Committee::new(0, authorities)), key_pairs)
}

fn test_block(round: u32, author: u32) -> Block {
    Block::V1(BlockV1::new(
        0,
        round,
        AuthorityIndex::new(author),
        0,
        vec![],
        vec![],
        vec![],
        vec![],
    ))
}

#[test]
fn test_sign_and_verify() {
    let (context, key_pairs) = context_for_test(4);

    // Create a block that authority 2 has created
    let block = test_block(10, 2);

    // Create a signed block with authority's 2 private key
    let author_two_key = &key_pairs[2];
    let signed_block = SignedBlock::new(block, author_two_key).expect("Shouldn't fail signing");

    // Now verify the block's signature
    let result = signed_block.verify_signature(&context);
    assert!(result.is_ok());

    // Try to sign authority's 2 block with authority's 1 key
    let block = test_block(10, 2);
    let author_one_key = &key_pairs[1];
    let signed_block = SignedBlock::new(block, author_one_key).expect("Shouldn't fail signing");

    // Now verify the block, it should fail
    let result = signed_block.verify_signature(&context);
    match result.err().unwrap() {
        ConsensusError::SignatureVerificationFailure => {}
        err => panic!("Unexpected error: {err:?}"),
    }
}

#[test]
fn test_verify_rejects_invalid_authority_index() {
    let (context, key_pairs) = context_for_test(4);

    // Claimed author index 7 is outside the 4-member committee.
    let block = test_block(3, 7);
    let signed_block = SignedBlock::new(block, &key_pairs[0]).expect("Shouldn't fail signing");
    match signed_block.verify_signature(&context).err().unwrap() {
        ConsensusError::InvalidAuthorityIndex { index, max } => {
            assert_eq!(index, 7);
            assert_eq!(max, 3);
        }
        err => panic!("Unexpected error: {err:?}"),
    }
}

#[test]
fn test_verify_rejects_malformed_signature() {
    let (context, _) = context_for_test(4);

    // A genesis-wrapped block carries an empty signature, which cannot parse
    // as a 64-byte signature.
    let block = test_block(1, 2);
    let signed_block = SignedBlock::new_genesis(block);
    match signed_block.verify_signature(&context).err().unwrap() {
        ConsensusError::MalformedSignature => {}
        err => panic!("Unexpected error: {err:?}"),
    }
}

#[test]
fn test_signature_is_not_the_message_and_tampering_fails() {
    let (_, key_pairs) = context_for_test(4);
    let kp = &key_pairs[2];
    let pk = kp.public();

    let block = test_block(10, 2);
    let signature = compute_block_signature(&block, kp);
    assert_eq!(signature.len(), 64);
    assert!(verify_block_signature(&block, &signature, &pk).is_ok());

    // A signature of the wrong length is malformed, not merely invalid.
    let short = &signature[..63];
    assert_eq!(
        verify_block_signature(&block, short, &pk).err().unwrap(),
        ConsensusError::MalformedSignature
    );

    // Flipping one byte of a well-formed signature fails verification.
    let mut tampered = signature.clone();
    tampered[10] ^= 0x01;
    assert_eq!(
        verify_block_signature(&block, &tampered, &pk).err().unwrap(),
        ConsensusError::SignatureVerificationFailure
    );

    // The signature also does not verify for different block content.
    let other_block = test_block(11, 2);
    assert_eq!(
        verify_block_signature(&other_block, &signature, &pk).err().unwrap(),
        ConsensusError::SignatureVerificationFailure
    );
}

#[test]
fn test_public_key_matches_signing_library() {
    // The trusted wrappers hand back what the signing library computes, not
    // their own inputs: the derived public key differs from the seed and
    // matches the library's own derivation.
    let mut seed = vec![0u8; 32];
    seed[0] = 5;
    let kp = ProtocolKeyPair::from_bytes(&seed).unwrap();
    let pk = kp.public();
    assert_ne!(pk.as_bytes()[..], seed[..]);

    let reference = fastcrypto::ed25519::Ed25519KeyPair::from_bytes(&seed).unwrap();
    let reference_pk: &[u8] = reference.public().as_ref();
    assert_eq!(pk.as_bytes()[..], reference_pk[..]);
}

#[test]
fn test_keypair_from_bytes_requires_exact_seed_length() {
    assert!(ProtocolKeyPair::from_bytes(&[0u8; 31]).is_none());
    assert!(ProtocolKeyPair::from_bytes(&[0u8; 33]).is_none());
    assert!(ProtocolKeyPair::from_bytes(&[0u8; 32]).is_some());
}

#[test]
fn test_sign_and_verify_entry_point() {
    let (context, key_pairs) = context_for_test(4);

    // Signing with the keypair registered at the claimed author succeeds.
    let block = test_block(5, 3);
    assert!(sign_and_verify(block, &key_pairs[3], &context).is_ok());

    // Signing with a keypair registered elsewhere does not.
    let block = test_block(5, 3);
    assert_eq!(
        sign_and_verify(block, &key_pairs[0], &context).err().unwrap(),
        ConsensusError::SignatureVerificationFailure
    );
}

#[test]
fn test_single_member_committee_and_max_round() {
    let (context, key_pairs) = context_for_test(1);

    let block = test_block(u32::MAX, 0);
    let signed_block = SignedBlock::new(block, &key_pairs[0]).expect("Shouldn't fail signing");
    assert!(signed_block.verify_signature(&context).is_ok());

    // The only invalid index of a one-member committee reports max 0.
    let block = test_block(1, 1);
    let signed_block = SignedBlock::new(block, &key_pairs[0]).expect("Shouldn't fail signing");
    match signed_block.verify_signature(&context).err().unwrap() {
        ConsensusError::InvalidAuthorityIndex { index, max } => {
            assert_eq!(index, 1);
            assert_eq!(max, 0);
        }
        err => panic!("Unexpected error: {err:?}"),
    }
}
