//! The claim registry module: a map from claim content to the owning
//! account. A content value maps to at most one owner at any time; absence
//! means unclaimed.

use vstd::hash_map::StringHashMap;
use vstd::prelude::*;

use crate::support::{DispatchResult, Error};
use crate::types::{AccountId, Content};

verus! {

/// The result of `create_claim(caller, claim)` on a registry viewed as
/// `claims`: creation fails exactly when the content already has an owner.
pub open spec fn create_result(claims: Map<Seq<char>, Seq<char>>, claim: Seq<char>) -> DispatchResult {
    if claims.contains_key(claim) {
        Err(Error::ClaimAlreadyExists)
    } else {
        Ok(())
    }
}

/// The registry after `create_claim(caller, claim)`: unchanged when the
/// content already has an owner, else with `caller` recorded as the owner.
pub open spec fn create_effect(
    claims: Map<Seq<char>, Seq<char>>,
    caller: Seq<char>,
    claim: Seq<char>,
) -> Map<Seq<char>, Seq<char>> {
    if claims.contains_key(claim) {
        claims
    } else {
        claims.insert(claim, caller)
    }
}

/// The registry after `revoke_claim(caller, claim)`: the entry is removed
/// exactly when `caller` is its stored owner.
pub open spec fn revoke_effect(
    claims: Map<Seq<char>, Seq<char>>,
    caller: Seq<char>,
    claim: Seq<char>,
) -> Map<Seq<char>, Seq<char>> {
    if claims.contains_key(claim) && claims[claim] == caller {
        claims.remove(claim)
    } else {
        claims
    }
}

/// The result of `revoke_claim(caller, claim)` on a registry viewed as
/// `claims`: revocation succeeds exactly for the stored owner of a stored
/// claim.
pub open spec fn revoke_result(
    claims: Map<Seq<char>, Seq<char>>,
    caller: Seq<char>,
    claim: Seq<char>,
) -> DispatchResult {
    if !claims.contains_key(claim) {
        Err(Error::ClaimNotFound)
    } else if claims[claim] != caller {
        Err(Error::NotClaimOwner)
    } else {
        Ok(())
    }
}

/// The operations the claim registry exposes to dispatch; the caller is
/// supplied separately by the executor from the enclosing extrinsic.
pub enum Call {
    CreateClaim { claim: Content },
    RevokeClaim { claim: Content },
}

impl Clone for Call {
    fn clone(&self) -> (r: Self)
        ensures
            r == *self,
    {
        match self {
            Call::CreateClaim { claim } => Call::CreateClaim { claim: claim.clone() },
            Call::RevokeClaim { claim } => Call::RevokeClaim { claim: claim.clone() },
        }
    }
}

/// The claim registry module. Its map is viewed as a mathematical map from
/// the content's characters to the owning account's characters.
pub struct Pallet {
    claims: StringHashMap<AccountId>,
}

impl View for Pallet {
    type V = Map<Seq<char>, Seq<char>>;

    closed spec fn view(&self) -> Map<Seq<char>, Seq<char>> {
        Map::new(
            |content: Seq<char>| self.claims@.contains_key(content),
            |content: Seq<char>| self.claims@[content]@,
        )
    }
}

impl Pallet {
    /// A fresh registry with no claim.
    pub fn new() -> (r: Self)
        ensures
            r@ == Map::<Seq<char>, Seq<char>>::empty(),
    {
        let r = Pallet { claims: StringHashMap::new() };
        proof {
            assert(r@ =~= Map::<Seq<char>, Seq<char>>::empty());
        }
        r
    }

    /// The owner of a claim, or nothing when the content is unclaimed.
    /// No side effect.
    pub fn get_claim(&self, claim: &Content) -> (r: Option<&AccountId>)
        ensures
            match r {
                Some(owner) => self@.contains_key(claim@) && owner@ == self@[claim@],
                None => !self@.contains_key(claim@),
            },
    {
        self.claims.get(claim.as_str())
    }

    /// Records `caller` as the owner of `claim`.
    ///
    /// Fails with `ClaimAlreadyExists`, leaving the registry untouched,
    /// exactly when the content already has an owner — whoever that owner
    /// is, so a second creation of the same content is always rejected and
    /// the original owner preserved.
    pub fn create_claim(&mut self, caller: AccountId, claim: Content) -> (r: DispatchResult)
        ensures
            r == create_result(old(self)@, claim@),
            final(self)@ == create_effect(old(self)@, caller@, claim@),
            r is Ok <==> !old(self)@.contains_key(claim@),
            r is Ok ==> final(self)@ == old(self)@.insert(claim@, caller@),
            r is Err ==> r == Err::<(), Error>(Error::ClaimAlreadyExists) && final(self)@ == old(
                self,
            )@,
    {
        let ghost pre = *self;
        if self.claims.contains_key(claim.as_str()) {
            Err(Error::ClaimAlreadyExists)
        } else {
            self.claims.insert(claim, caller);
            proof {
                assert(self@ =~= pre@.insert(claim@, caller@));
            }
            Ok(())
        }
    }

    /// Removes `claim` from the registry on behalf of `caller`.
    ///
    /// Fails with `ClaimNotFound` when the content is unclaimed and with
    /// `NotClaimOwner` when the stored owner is not `caller`; both failures
    /// leave the registry untouched, so a non-owner's revocation keeps the
    /// claim with its original owner.
    pub fn revoke_claim(&mut self, caller: AccountId, claim: Content) -> (r: DispatchResult)
        ensures
            r == revoke_result(old(self)@, caller@, claim@),
            final(self)@ == revoke_effect(old(self)@, caller@, claim@),
            r is Ok <==> old(self)@.contains_key(claim@) && old(self)@[claim@] == caller@,
            r is Ok ==> final(self)@ == old(self)@.remove(claim@),
            !old(self)@.contains_key(claim@) ==> r == Err::<(), Error>(Error::ClaimNotFound)
                && final(self)@ == old(self)@,
            old(self)@.contains_key(claim@) && old(self)@[claim@] != caller@ ==> r == Err::<
                (),
                Error,
            >(Error::NotClaimOwner) && final(self)@ == old(self)@,
    {
        let ghost pre = *self;
        let owned: bool = match self.claims.get(claim.as_str()) {
            None => {
                return Err(Error::ClaimNotFound);
            },
            Some(owner) => *owner == caller,
        };
        if !owned {
            return Err(Error::NotClaimOwner);
        }
        self.claims.remove(claim.as_str());
        proof {
            assert(self@ =~= pre@.remove(claim@));
        }
        Ok(())
    }
}

} // verus!
