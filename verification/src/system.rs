//! The system module: the chain's block counter and each account's
//! per-extrinsic operation counter (nonce).

use vstd::hash_map::StringHashMap;
use vstd::prelude::*;

use crate::types::{AccountId, BlockNumber, Nonce};

verus! {

/// The nonce a map assigns to an account: the stored counter, or zero for
/// an account the map holds no entry for.
pub open spec fn spec_nonce(m: Map<Seq<char>, Nonce>, account: Seq<char>) -> Nonce {
    if m.contains_key(account) {
        m[account]
    } else {
        0u32
    }
}

/// One nonce increment. The counter saturates at the maximum representable
/// value: the design leaves the overflow policy open, and saturation keeps
/// every increment total without a panic.
pub open spec fn sat_inc(n: Nonce) -> Nonce {
    if n == u32::MAX {
        n
    } else {
        (n + 1) as u32
    }
}

/// The nonce map after one increment of `account`'s counter.
pub open spec fn bump_nonce(m: Map<Seq<char>, Nonce>, account: Seq<char>) -> Map<
    Seq<char>,
    Nonce,
> {
    m.insert(account, sat_inc(spec_nonce(m, account)))
}

/// The nonce map after `n` successive increments of `account`'s counter.
pub open spec fn bump_nonce_n(m: Map<Seq<char>, Nonce>, account: Seq<char>, n: nat) -> Map<
    Seq<char>,
    Nonce,
>
    decreases n,
{
    if n == 0 {
        m
    } else {
        bump_nonce(bump_nonce_n(m, account, (n - 1) as nat), account)
    }
}

/// Law: incrementing an account's nonce `n` times in sequence raises it by
/// exactly `n`, as long as the counter does not reach its saturation point.
/// In particular, `n` increments from a fresh map yield the nonce `n`.
pub proof fn lemma_nonce_counts_increments(m: Map<Seq<char>, Nonce>, account: Seq<char>, n: nat)
    requires
        spec_nonce(m, account) + n <= u32::MAX,
    ensures
        spec_nonce(bump_nonce_n(m, account, n), account) == spec_nonce(m, account) + n,
    decreases n,
{
    if n > 0 {
        lemma_nonce_counts_increments(m, account, (n - 1) as nat);
    }
}

/// The system module: the current block number and the account-to-nonce map.
pub struct Pallet {
    block_number: BlockNumber,
    nonce: StringHashMap<Nonce>,
}

impl Pallet {
    /// The current block number.
    pub closed spec fn spec_block_number(&self) -> BlockNumber {
        self.block_number
    }

    /// The nonce map, viewed as a mathematical map from the account
    /// identifier's characters to the stored counter.
    pub closed spec fn nonces(&self) -> Map<Seq<char>, Nonce> {
        self.nonce@
    }

    /// A fresh module: block number zero and no nonce entry, so every
    /// account's nonce is zero.
    pub fn new() -> (r: Self)
        ensures
            r.spec_block_number() == 0,
            r.nonces() == Map::<Seq<char>, Nonce>::empty(),
    {
        Pallet { block_number: 0, nonce: StringHashMap::new() }
    }

    /// The current block number. No side effect.
    pub fn block_number(&self) -> (r: BlockNumber)
        ensures
            r == self.spec_block_number(),
    {
        self.block_number
    }

    /// Advances the block counter by exactly one. Exhausting the counter's
    /// width is an unrecoverable invariant violation with no caller policy,
    /// so the caller must rule it out.
    pub fn inc_block_number(&mut self)
        requires
            old(self).spec_block_number() < u32::MAX,
        ensures
            final(self).spec_block_number() == old(self).spec_block_number() + 1,
            final(self).nonces() == old(self).nonces(),
    {
        self.block_number = self.block_number + 1;
    }

    /// Increments `to`'s nonce: reads the current counter (zero when
    /// absent) and stores its saturating successor.
    pub fn inc_nonce(&mut self, to: &AccountId)
        ensures
            final(self).nonces() == bump_nonce(old(self).nonces(), to@),
            final(self).spec_block_number() == old(self).spec_block_number(),
    {
        let nonce = self.get_nonce(to);
        let next = if nonce == u32::MAX {
            nonce
        } else {
            nonce + 1
        };
        self.nonce.insert(to.clone(), next);
    }

    /// The stored nonce, or zero for an absent account. No side effect.
    pub fn get_nonce(&self, user: &AccountId) -> (r: Nonce)
        ensures
            r == spec_nonce(self.nonces(), user@),
    {
        match self.nonce.get(user.as_str()) {
            Some(n) => *n,
            None => 0,
        }
    }
}

} // verus!
