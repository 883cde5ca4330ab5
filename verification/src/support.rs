//! Shared vocabulary of the runtime: the error taxonomy, the result type of a
//! dispatched operation, and the block/extrinsic containers the executor
//! replays.

use vstd::prelude::*;

verus! {

/// Every failure a module operation or the block executor can report.
/// Module errors propagate through dispatch unchanged; only
/// `BlockNumberMismatch` aborts a whole block.
#[derive(Clone, Copy, Debug, PartialEq, Eq, Structural)]
pub enum Error {
    /// A transfer's debit would underflow the sender's balance.
    InsufficientFunds,
    /// A transfer's credit would overflow the recipient's balance.
    BalanceOverflow,
    /// The content of a new claim is already owned.
    ClaimAlreadyExists,
    /// The content of a revocation is not claimed by anyone.
    ClaimNotFound,
    /// The revoking caller does not own the claim.
    NotClaimOwner,
    /// A block's declared number disagrees with the advanced block counter.
    BlockNumberMismatch,
}

/// The outcome of one dispatched operation.
pub type DispatchResult = Result<(), Error>;

/// A block's header: the number the block claims in the chain.
pub struct Header<BlockNumber> {
    pub block_number: BlockNumber,
}

/// One caller-attributed operation, immutable once constructed.
pub struct Extrinsic<Caller, Call> {
    pub caller: Caller,
    pub call: Call,
}

/// An ordered batch of extrinsics tagged with a target block number.
/// Ordering is significant: extrinsics execute strictly in sequence order.
pub struct Block<Header, Extrinsic> {
    pub header: Header,
    pub extrinsics: Vec<Extrinsic>,
}

/// Routing a (caller, call) pair to the module that owns the corresponding
/// state mutation.
pub trait Dispatch {
    type Caller;
    type Call;

    fn dispatch(&mut self, caller: Self::Caller, call: Self::Call) -> DispatchResult;
}

} // verus!
