//! The committee of an epoch: the authorities, in index order, with the
//! public key registered for each. The committee is read-only for the
//! lifetime of an epoch; verification reads it and never mutates it.

use crate::crypto::ProtocolPublicKey;
use crate::Epoch;
use vstd::prelude::*;

verus! {

/// Index of an authority in the committee of the current epoch.
#[derive(Clone, Copy, PartialEq, Eq, Structural, Debug, Hash)]
pub struct AuthorityIndex {
    pub value: u32,
}

impl AuthorityIndex {
    pub fn new(value: u32) -> (r: AuthorityIndex)
        ensures
            r.value == value,
    {
        AuthorityIndex { value }
    }
}

/// One committee member: the public key its block signatures are checked
/// against.
pub struct Authority {
    pub protocol_key: ProtocolPublicKey,
}

/// The model of a committee: its epoch and the registered public keys, in
/// authority index order.
pub ghost struct CommitteeData {
    pub epoch: Epoch,
    pub keys: Seq<Seq<u8>>,
}

/// The validators of one epoch, with their public keys, indexed by
/// `AuthorityIndex`.
pub struct Committee {
    epoch: Epoch,
    authorities: Vec<Authority>,
}

impl View for Committee {
    type V = CommitteeData;

    closed spec fn view(&self) -> CommitteeData {
        CommitteeData {
            epoch: self.epoch,
            keys: self.authorities@.map_values(|a: Authority| a.protocol_key@),
        }
    }
}

impl Committee {
    pub fn new(epoch: Epoch, authorities: Vec<Authority>) -> (r: Committee)
        ensures
            r@.epoch == epoch,
            r@.keys.len() == authorities@.len(),
            forall|i: int|
                0 <= i < authorities@.len() ==> r@.keys[i] == authorities@[i].protocol_key@,
    {
        Committee { epoch, authorities }
    }

    /// How many authorities the committee has.
    pub fn size(&self) -> (r: usize)
        ensures
            r == self@.keys.len(),
    {
        self.authorities.len()
    }

    /// The epoch this committee serves.
    pub fn epoch(&self) -> (r: Epoch)
        ensures
            r == self@.epoch,
    {
        self.epoch
    }

    /// Whether `index` names an authority of this committee.
    pub fn is_valid_index(&self, index: AuthorityIndex) -> (r: bool)
        ensures
            r == (index.value < self@.keys.len()),
    {
        (index.value as usize) < self.authorities.len()
    }

    /// The authority registered at `index`.
    pub fn authority(&self, index: AuthorityIndex) -> (r: &Authority)
        requires
            index.value < self@.keys.len(),
        ensures
            r.protocol_key@ == self@.keys[index.value as int],
    {
        &self.authorities[index.value as usize]
    }
}

/// Everything a verification call reads besides the block itself. Passed
/// explicitly into every call; this crate keeps no ambient state.
pub struct Context {
    pub committee: Committee,
}

impl Context {
    pub fn new(committee: Committee) -> (r: Context)
        ensures
            r.committee@ == committee@,
    {
        Context { committee }
    }
}

} // verus!
