//! Core block types of a DAG-based Byzantine-fault-tolerant consensus engine:
//! the authenticated block, its cryptographic identity, and the protocol that
//! binds a block's content to its author via a domain-separated signature.

pub mod block;
pub mod codec;
pub mod committee;
pub mod encode;
pub mod crypto;
pub mod error;
pub mod shared;
pub mod signed_block;
pub mod verified;

pub use block::{
    Block, BlockAPI, BlockDigest, BlockRef, BlockV1, CommitVote, MisbehaviorProof,
    MisbehaviorReport, Slot, Transaction,
};
pub use committee::{Authority, AuthorityIndex, Committee, Context};
pub use crypto::{ProtocolKeyPair, ProtocolKeySignature, ProtocolPublicKey};
pub use error::{ConsensusError, ConsensusResult};
pub use signed_block::SignedBlock;
pub use verified::{genesis_blocks, VerifiedBlock};

use vstd::prelude::*;

verus! {

/// Round number of a block.
pub type Round = u32;

/// Block proposal timestamp in milliseconds.
pub type BlockTimestampMs = u64;

/// Epoch during which a fixed committee and its keys apply.
pub type Epoch = u64;

/// Number of bytes in a block digest.
pub const DIGEST_LENGTH: usize = 32;

} // verus!
