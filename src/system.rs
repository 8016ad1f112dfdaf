use vstd::prelude::*;

use crate::storage::StorageMap;
use crate::types::{counter_checked_add, AccountId, BlockNumber, Nonce};

verus! {

/// The nonce of `who` in `m`: zero where `m` has no entry for it.
pub open spec fn nonce_in(m: Map<Seq<char>, u32>, who: Seq<char>) -> u32 {
    if m.contains_key(who) {
        m[who]
    } else {
        0
    }
}

/// The nonces `m` after one more call by `who`.
pub open spec fn bumped(m: Map<Seq<char>, u32>, who: Seq<char>) -> Map<Seq<char>, u32> {
    m.insert(who, (nonce_in(m, who) + 1) as u32)
}

/// The nonces `m` after one more call by each of `callers`, in order.
pub open spec fn bumped_all(m: Map<Seq<char>, u32>, callers: Seq<Seq<char>>) -> Map<Seq<char>, u32>
    decreases callers.len(),
{
    if callers.len() == 0 {
        m
    } else {
        bumped(bumped_all(m, callers.drop_last()), callers.last())
    }
}

/// How many of `callers` are `who`.
pub open spec fn occurrences(callers: Seq<Seq<char>>, who: Seq<char>) -> nat
    decreases callers.len(),
{
    if callers.len() == 0 {
        0
    } else {
        occurrences(callers.drop_last(), who) + if callers.last() == who {
            1nat
        } else {
            0nat
        }
    }
}

/// The system module: the current block number and a nonce per account.
#[derive(Debug)]
pub struct Pallet {
    block_number: BlockNumber,
    nonce: StorageMap<Nonce>,
}

impl Pallet {
    pub closed spec fn wf(&self) -> bool {
        self.nonce.wf()
    }

    /// The current block number.
    pub closed spec fn current_block(&self) -> u32 {
        self.block_number
    }

    /// The stored nonces.
    pub closed spec fn nonces(&self) -> Map<Seq<char>, u32> {
        self.nonce@
    }

    pub open spec fn nonce_of(&self, who: Seq<char>) -> u32 {
        nonce_in(self.nonces(), who)
    }

    /// Block number zero and no nonces.
    pub fn new() -> (r: Self)
        ensures
            r.wf(),
            r.current_block() == 0,
            r.nonces() == Map::<Seq<char>, u32>::empty(),
    {
        Pallet { block_number: 0, nonce: StorageMap::new() }
    }

    /// The current block number.
    pub fn block_number(&self) -> (r: BlockNumber)
        ensures
            r == self.current_block(),
    {
        self.block_number
    }

    /// The nonce of `who`: zero where none is stored.
    pub fn nonce(&self, who: &AccountId) -> (r: Nonce)
        requires
            self.wf(),
        ensures
            r == self.nonce_of(who@),
    {
        match self.nonce.get(who) {
            Some(n) => *n,
            None => 0,
        }
    }

    /// Advances the block number by one; it must not be at its largest.
    pub fn inc_block_number(&mut self)
        requires
            old(self).wf(),
            old(self).current_block() < u32::MAX,
        ensures
            final(self).wf(),
            final(self).current_block() == old(self).current_block() + 1,
            final(self).nonces() == old(self).nonces(),
    {
        match counter_checked_add(self.block_number, 1) {
            Some(n) => {
                self.block_number = n;
            },
            // the block number is below its largest value
            None => {},
        }
    }

    /// Counts one more call by `who`; its nonce must not be at its largest.
    pub fn inc_nonce(&mut self, who: &AccountId)
        requires
            old(self).wf(),
            old(self).nonce_of(who@) < u32::MAX,
        ensures
            final(self).wf(),
            final(self).nonces() == bumped(old(self).nonces(), who@),
            final(self).nonce_of(who@) == old(self).nonce_of(who@) + 1,
            final(self).current_block() == old(self).current_block(),
    {
        let nonce = self.nonce(who);
        match counter_checked_add(nonce, 1) {
            Some(n) => {
                self.nonce.insert(who.clone(), n);
            },
            // the nonce is below its largest value
            None => {},
        }
    }
}

/// A run of calls raises the nonce of each account by the number of calls it
/// made, whatever other accounts did in between; from no nonces at all, an
/// account that called `n` times has nonce `n`.
pub proof fn lemma_nonce_counts_calls(m: Map<Seq<char>, u32>, callers: Seq<Seq<char>>, who: Seq<char>)
    requires
        nonce_in(m, who) + occurrences(callers, who) <= u32::MAX,
    ensures
        nonce_in(bumped_all(m, callers), who) == nonce_in(m, who) + occurrences(callers, who),
        m == Map::<Seq<char>, u32>::empty() ==> nonce_in(bumped_all(m, callers), who) == occurrences(callers, who),
    decreases callers.len(),
{
    if callers.len() > 0 {
        lemma_nonce_counts_calls(m, callers.drop_last(), who);
    }
}

} // verus!
