//! The system module: low-level bookkeeping every other module relies on.
//! It tracks the current block number and, per account, how many extrinsics
//! that account has issued (its nonce).

use crate::types::AccountID;
use crate::types::BlockNumber;
use crate::types::Nonce;
use vstd::hash_map::StringHashMap;
use vstd::prelude::*;

verus! {

/// The nonce an account holds in a nonce map: the stored entry, or zero when
/// the account has never issued an extrinsic.
pub open spec fn nonce_in(nonces: Map<Seq<char>, Nonce>, who: Seq<char>) -> Nonce {
    if nonces.contains_key(who) {
        nonces[who]
    } else {
        0
    }
}

/// State of the system module: the block counter and the per-account nonces.
pub struct Pallet {
    block_number: BlockNumber,
    nonces: StringHashMap<Nonce>,
}

impl Pallet {
    /// The current block number, as seen by contracts.
    pub closed spec fn spec_block_number(self) -> BlockNumber {
        self.block_number
    }

    /// The stored nonce entries, as seen by contracts. An absent account is
    /// at nonce zero; `spec_nonce` folds that rule in.
    pub closed spec fn spec_nonces(self) -> Map<Seq<char>, Nonce> {
        self.nonces@
    }

    /// The nonce of `who`: the stored entry, or zero if none exists.
    pub open spec fn spec_nonce(self, who: Seq<char>) -> Nonce {
        nonce_in(self.spec_nonces(), who)
    }

    /// Create the module in its zero state: block number zero, no nonce
    /// entry for any account.
    pub fn new() -> (result: Self)
        ensures
            result.spec_block_number() == 0,
            result.spec_nonces() == Map::<Seq<char>, Nonce>::empty(),
            forall|a: Seq<char>| result.spec_nonce(a) == 0,
    {
        Pallet { block_number: 0, nonces: StringHashMap::new() }
    }

    /// Read the current block number.
    pub fn block_number(&self) -> (result: BlockNumber)
        ensures
            result == self.spec_block_number(),
    {
        self.block_number
    }

    /// Move the block number up by exactly one. The counter never wraps:
    /// callers keep it below its ceiling, which a realistic chain never
    /// reaches.
    pub fn inc_block_number(&mut self)
        requires
            old(self).spec_block_number() < BlockNumber::MAX,
        ensures
            final(self).spec_block_number() == old(self).spec_block_number() + 1,
            final(self).spec_nonces() == old(self).spec_nonces(),
    {
        self.block_number = self.block_number + 1;
    }

    /// Read the nonce of `who`: zero when the account has never issued an
    /// extrinsic.
    pub fn nonce(&self, who: &AccountID) -> (result: Nonce)
        ensures
            result == self.spec_nonce(who@),
    {
        match self.nonces.get(who.as_str()) {
            Some(n) => *n,
            None => 0,
        }
    }

    /// Move the nonce of `who` up by exactly one, touching no other account
    /// and not the block number. As with the block counter, callers keep the
    /// nonce below its ceiling so it never wraps.
    pub fn inc_nonce(&mut self, who: &AccountID)
        requires
            old(self).spec_nonce(who@) < Nonce::MAX,
        ensures
            final(self).spec_nonces() == old(self).spec_nonces().insert(
                who@,
                (old(self).spec_nonce(who@) + 1) as Nonce,
            ),
            final(self).spec_nonce(who@) == old(self).spec_nonce(who@) + 1,
            forall|a: Seq<char>|
                a != who@ ==> final(self).spec_nonce(a) == old(self).spec_nonce(a),
            final(self).spec_block_number() == old(self).spec_block_number(),
    {
        let current = self.nonce(who);
        self.nonces.insert(who.clone(), current + 1);
    }
}

} // verus!
