//! Concrete configuration: the identifier and numeric types every module is
//! instantiated with. The embedding application fixes these once; the module
//! logic never depends on anything beyond the capabilities used here
//! (equality and ordering on identifiers, checked arithmetic on amounts).

use vstd::prelude::*;

verus! {

/// Identifies an account; compared by equality.
pub type AccountId = String;

/// An account's balance; unsigned, mutated only through checked arithmetic.
pub type Balance = u128;

/// The chain's block counter; advances by exactly one per executed block.
pub type BlockNumber = u32;

/// A per-account operation counter.
pub type Nonce = u32;

/// The opaque payload an account may claim exclusive ownership of.
pub type Content = String;

/// One caller-attributed operation of this runtime.
pub type Extrinsic = crate::support::Extrinsic<AccountId, crate::RuntimeCall>;

/// A block header of this runtime.
pub type Header = crate::support::Header<BlockNumber>;

/// A block of this runtime.
pub type Block = crate::support::Block<Header, Extrinsic>;

} // verus!
