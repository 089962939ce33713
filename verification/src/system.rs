//! The system pallet: the height of the chain and, for each account, how many
//! extrinsics it has submitted.

use crate::numeric::{one_count, zero_count};
use crate::table::Table;
use crate::types::{AccountId, BlockNumber, Nonce};
use vstd::prelude::*;

verus! {

/// The nonce that `m` records for `who`: zero where it records none.
pub open spec fn nonce_of(m: Map<Seq<char>, u32>, who: Seq<char>) -> u32 {
    if m.contains_key(who) {
        m[who]
    } else {
        0
    }
}

/// The block height and the nonce of every account that has one.
#[derive(Debug)]
pub struct Pallet {
    block_number: BlockNumber,
    nonce: Table<Nonce>,
}

impl Pallet {
    /// The current block height.
    pub closed spec fn height(&self) -> u32 {
        self.block_number
    }

    /// The nonces recorded so far, by account.
    pub closed spec fn nonces(&self) -> Map<Seq<char>, u32> {
        self.nonce@
    }

    /// A pallet at height zero in which no account has a nonce.
    pub fn new() -> (p: Self)
        ensures
            p.height() == 0,
            p.nonces() == Map::<Seq<char>, u32>::empty(),
    {
        Pallet { block_number: zero_count(), nonce: Table::new() }
    }

    /// The current block height.
    pub fn block_number(&self) -> (n: BlockNumber)
        ensures
            n == self.height(),
    {
        self.block_number
    }

    /// The nonce recorded for `who`, if one is.
    pub fn get_nonce(&self, who: &AccountId) -> (n: Option<&Nonce>)
        ensures
            n == (if self.nonces().contains_key(who@) {
                Some(&self.nonces()[who@])
            } else {
                None
            }),
    {
        self.nonce.get(who)
    }

    /// The nonce of `who`, which is zero until it submits an extrinsic.
    pub fn nonce(&self, who: &AccountId) -> (n: Nonce)
        ensures
            n == nonce_of(self.nonces(), who@),
    {
        match self.nonce.get(who) {
            Some(n) => *n,
            None => zero_count(),
        }
    }

    /// Raises the block height by one.
    pub fn inc_block_number(&mut self)
        requires
            old(self).height() < u32::MAX,
        ensures
            final(self).height() == old(self).height() + 1,
            final(self).nonces() == old(self).nonces(),
    {
        self.block_number = self.block_number + one_count();
    }

    /// Raises the nonce of `who` by one.
    pub fn inc_nonce(&mut self, who: &AccountId)
        requires
            nonce_of(old(self).nonces(), who@) < u32::MAX,
        ensures
            final(self).height() == old(self).height(),
            final(self).nonces() == old(self).nonces().insert(
                who@,
                (nonce_of(old(self).nonces(), who@) + 1) as u32,
            ),
    {
        let current_nonce = self.nonce(who);
        self.nonce.insert(who.clone(), current_nonce + one_count());
    }
}

} // verus!
