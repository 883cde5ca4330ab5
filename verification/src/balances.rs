//! The balances module: a map from account identifier to balance, mutated
//! only through an administrative overwrite or a checked transfer.

use vstd::hash_map::StringHashMap;
use vstd::prelude::*;

use crate::support::{DispatchResult, Error};
use crate::types::{AccountId, Balance};

verus! {

/// The balance a map assigns to an account: the stored amount, or zero for
/// an account the map holds no entry for.
pub open spec fn spec_balance(m: Map<Seq<char>, Balance>, account: Seq<char>) -> Balance {
    if m.contains_key(account) {
        m[account]
    } else {
        0u128
    }
}

/// The balance map after `transfer(from, to, amount)`: unchanged whenever
/// the transfer fails or moves funds from an account to itself, else with
/// `amount` debited from `from` and credited to `to`.
pub open spec fn transfer_effect(
    m: Map<Seq<char>, Balance>,
    from: Seq<char>,
    to: Seq<char>,
    amount: Balance,
) -> Map<Seq<char>, Balance> {
    if spec_balance(m, from) < amount {
        m
    } else if from == to {
        m
    } else if spec_balance(m, to) + amount > u128::MAX {
        m
    } else {
        m.insert(from, (spec_balance(m, from) - amount) as u128).insert(
            to,
            (spec_balance(m, to) + amount) as u128,
        )
    }
}

/// The result of `transfer(from, to, amount)`: the debit is checked first,
/// a self-transfer of covered funds succeeds without touching the map, and
/// otherwise the credit's overflow check decides.
pub open spec fn transfer_result(
    m: Map<Seq<char>, Balance>,
    from: Seq<char>,
    to: Seq<char>,
    amount: Balance,
) -> DispatchResult {
    if spec_balance(m, from) < amount {
        Err(Error::InsufficientFunds)
    } else if from == to {
        Ok(())
    } else if spec_balance(m, to) + amount > u128::MAX {
        Err(Error::BalanceOverflow)
    } else {
        Ok(())
    }
}

/// Law: a fresh balance map assigns zero to every account.
pub proof fn lemma_fresh_balance_zero(account: Seq<char>)
    ensures
        spec_balance(Map::<Seq<char>, Balance>::empty(), account) == 0,
{
}

/// Law: a transfer touches at most its two parties — every other account's
/// balance is unchanged, whether the transfer succeeds or fails. Together
/// with `lemma_fresh_balance_zero`, an account's balance stays zero until a
/// `set_balance` or a successful transfer names that account.
pub proof fn lemma_transfer_preserves_others(
    m: Map<Seq<char>, Balance>,
    from: Seq<char>,
    to: Seq<char>,
    amount: Balance,
    account: Seq<char>,
)
    requires
        account != from,
        account != to,
    ensures
        spec_balance(transfer_effect(m, from, to, amount), account) == spec_balance(m, account),
{
}

/// The operation the balances module exposes to dispatch; the caller is
/// supplied separately by the executor from the enclosing extrinsic.
pub enum Call {
    Transfer { to: AccountId, amount: Balance },
}

impl Clone for Call {
    fn clone(&self) -> (r: Self)
        ensures
            r == *self,
    {
        match self {
            Call::Transfer { to, amount } => Call::Transfer { to: to.clone(), amount: *amount },
        }
    }
}

/// The balances module. Its map is viewed as a mathematical map from the
/// account identifier's characters to the stored balance; absent accounts
/// implicitly hold zero.
pub struct Pallet {
    balances: StringHashMap<Balance>,
}

impl View for Pallet {
    type V = Map<Seq<char>, Balance>;

    closed spec fn view(&self) -> Map<Seq<char>, Balance> {
        self.balances@
    }
}

impl Pallet {
    /// A fresh module whose map holds no entry, so every account's balance
    /// is zero.
    pub fn new() -> (r: Self)
        ensures
            r@ == Map::<Seq<char>, Balance>::empty(),
    {
        Pallet { balances: StringHashMap::new() }
    }

    /// Unconditional overwrite of one account's balance; administrative and
    /// bootstrap use only.
    pub fn set_balance(&mut self, account: &AccountId, amount: Balance)
        ensures
            final(self)@ == old(self)@.insert(account@, amount),
    {
        self.balances.insert(account.clone(), amount);
    }

    /// The stored balance, or zero for an absent account. No side effect.
    pub fn balance(&self, account: &AccountId) -> (r: Balance)
        ensures
            r == spec_balance(self@, account@),
    {
        match self.balances.get(account.as_str()) {
            Some(b) => *b,
            None => 0,
        }
    }

    /// Moves `amount` from `from` to `to` with checked arithmetic.
    ///
    /// Fails with `InsufficientFunds` when the debit would underflow, then
    /// with `BalanceOverflow` when the credit would overflow; a failed
    /// transfer leaves the map untouched. A self-transfer of covered funds
    /// succeeds and leaves the balance unchanged: both deltas are computed
    /// from the same starting balance, so their net effect is zero.
    pub fn transfer(&mut self, from: AccountId, to: AccountId, amount: Balance) -> (r:
        DispatchResult)
        ensures
            final(self)@ == transfer_effect(old(self)@, from@, to@, amount),
            r == transfer_result(old(self)@, from@, to@, amount),
            r is Err ==> final(self)@ == old(self)@,
            from@ != to@ ==> (r is Ok <==> spec_balance(old(self)@, from@) >= amount
                && spec_balance(old(self)@, to@) + amount <= u128::MAX),
            from@ == to@ ==> (r is Ok <==> spec_balance(old(self)@, from@) >= amount),
            r is Ok && from@ != to@ ==> spec_balance(final(self)@, from@) == spec_balance(
                old(self)@,
                from@,
            ) - amount && spec_balance(final(self)@, to@) == spec_balance(old(self)@, to@)
                + amount,
            from@ == to@ ==> spec_balance(final(self)@, from@) == spec_balance(old(self)@, from@),
    {
        let from_amount = self.balance(&from);
        let to_amount = self.balance(&to);
        if from_amount < amount {
            return Err(Error::InsufficientFunds);
        }
        if from == to {
            return Ok(());
        }
        if to_amount > u128::MAX - amount {
            return Err(Error::BalanceOverflow);
        }
        let new_from_amount = from_amount - amount;
        let new_to_amount = to_amount + amount;
        self.set_balance(&from, new_from_amount);
        self.set_balance(&to, new_to_amount);
        Ok(())
    }
}

} // verus!
