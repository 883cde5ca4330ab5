//! A minimal deterministic state-transition engine for a ledger.
//!
//! The runtime owns three modules ("pallets") — balances, system bookkeeping
//! and a claim registry — and advances their state by replaying ordered
//! batches of caller-attributed operations ("extrinsics") grouped into
//! blocks. Block execution is best-effort: the block counter always
//! advances, a header whose number disagrees with it rejects the whole
//! block before any extrinsic runs, and one extrinsic's failure never
//! prevents the later extrinsics of the same block from being attempted.

pub mod balances;
pub mod proof_of_existence;
pub mod support;
pub mod system;
pub mod types;

use vstd::prelude::*;

use crate::support::{Dispatch, DispatchResult, Error};
use crate::types::{AccountId, Balance, Block, Nonce};

verus! {

/// A closed set of call variants, one group per module; carries no caller —
/// the executor supplies the caller from the enclosing extrinsic.
pub enum RuntimeCall {
    Balances(balances::Call),
    ProofOfExistence(proof_of_existence::Call),
}

impl Clone for RuntimeCall {
    fn clone(&self) -> (r: Self)
        ensures
            r == *self,
    {
        match self {
            RuntimeCall::Balances(call) => RuntimeCall::Balances(call.clone()),
            RuntimeCall::ProofOfExistence(call) => RuntimeCall::ProofOfExistence(call.clone()),
        }
    }
}

/// The whole runtime state as one mathematical value: the three module maps
/// and the block counter.
#[verifier::ext_equal]
pub ghost struct StateView {
    pub balances: Map<Seq<char>, Balance>,
    pub nonces: Map<Seq<char>, Nonce>,
    pub block_number: u32,
    pub claims: Map<Seq<char>, Seq<char>>,
}

/// The state of a fresh runtime: every map empty, block number zero.
pub open spec fn initial_state() -> StateView {
    StateView {
        balances: Map::<Seq<char>, Balance>::empty(),
        nonces: Map::<Seq<char>, Nonce>::empty(),
        block_number: 0u32,
        claims: Map::<Seq<char>, Seq<char>>::empty(),
    }
}

/// The state after the block counter advanced by one.
pub open spec fn after_block_increment(s: StateView) -> StateView {
    StateView { block_number: (s.block_number + 1) as u32, ..s }
}

/// The state after dispatch routed `call` on behalf of `caller` to the
/// owning module: only that module's map changes, and a failed operation
/// changes nothing.
pub open spec fn dispatch_effect(s: StateView, caller: Seq<char>, call: RuntimeCall) -> StateView {
    match call {
        RuntimeCall::Balances(balances::Call::Transfer { to, amount }) => StateView {
            balances: balances::transfer_effect(s.balances, caller, to@, amount),
            ..s
        },
        RuntimeCall::ProofOfExistence(proof_of_existence::Call::CreateClaim { claim }) => StateView {
            claims: proof_of_existence::create_effect(s.claims, caller, claim@),
            ..s
        },
        RuntimeCall::ProofOfExistence(proof_of_existence::Call::RevokeClaim { claim }) => StateView {
            claims: proof_of_existence::revoke_effect(s.claims, caller, claim@),
            ..s
        },
    }
}

/// The result dispatch propagates, unchanged, from the owning module.
pub open spec fn dispatch_outcome(s: StateView, caller: Seq<char>, call: RuntimeCall) -> DispatchResult {
    match call {
        RuntimeCall::Balances(balances::Call::Transfer { to, amount }) => balances::transfer_result(
            s.balances,
            caller,
            to@,
            amount,
        ),
        RuntimeCall::ProofOfExistence(proof_of_existence::Call::CreateClaim { claim }) => proof_of_existence::create_result(
            s.claims,
            claim@,
        ),
        RuntimeCall::ProofOfExistence(proof_of_existence::Call::RevokeClaim { claim }) => proof_of_existence::revoke_result(
            s.claims,
            caller,
            claim@,
        ),
    }
}

/// Law: a failed operation never corrupts state — whenever dispatch
/// reports an error, the state it leaves behind is the state it was given.
pub proof fn lemma_failed_dispatch_changes_nothing(
    s: StateView,
    caller: Seq<char>,
    call: RuntimeCall,
)
    requires
        dispatch_outcome(s, caller, call) is Err,
    ensures
        dispatch_effect(s, caller, call) == s,
{
    assert(dispatch_effect(s, caller, call) =~= s);
}

/// The state after one extrinsic: the caller's nonce is incremented first,
/// then the call is dispatched — in this order, whatever dispatch decides.
pub open spec fn apply_extrinsic(s: StateView, e: types::Extrinsic) -> StateView {
    dispatch_effect(
        StateView { nonces: system::bump_nonce(s.nonces, e.caller@), ..s },
        e.caller@,
        e.call,
    )
}

/// The outcome the executor records for one extrinsic.
pub open spec fn extrinsic_outcome(s: StateView, e: types::Extrinsic) -> DispatchResult {
    dispatch_outcome(
        StateView { nonces: system::bump_nonce(s.nonces, e.caller@), ..s },
        e.caller@,
        e.call,
    )
}

/// The state after the first `n` extrinsics of `xs`, applied in order.
pub open spec fn apply_extrinsics_prefix(s: StateView, xs: Seq<types::Extrinsic>, n: int) -> StateView
    decreases n,
{
    if n <= 0 {
        s
    } else {
        apply_extrinsic(apply_extrinsics_prefix(s, xs, n - 1), xs[n - 1])
    }
}

/// The state after replaying all of `xs`, in order.
pub open spec fn apply_extrinsics(s: StateView, xs: Seq<types::Extrinsic>) -> StateView {
    apply_extrinsics_prefix(s, xs, xs.len() as int)
}

/// How many of the first `n` extrinsics of `xs` are authored by `account`.
pub open spec fn count_authored(xs: Seq<types::Extrinsic>, n: int, account: Seq<char>) -> int
    decreases n,
{
    if n <= 0 {
        0
    } else {
        count_authored(xs, n - 1, account) + if xs[n - 1].caller@ == account {
            1int
        } else {
            0int
        }
    }
}

/// One extrinsic bumps its caller's nonce and leaves the block counter
/// alone, whatever dispatch decides.
proof fn lemma_apply_extrinsic_fields(s: StateView, e: types::Extrinsic)
    ensures
        apply_extrinsic(s, e).nonces == system::bump_nonce(s.nonces, e.caller@),
        apply_extrinsic(s, e).block_number == s.block_number,
{
}

/// Law: replaying extrinsics never moves the block counter — only the
/// executor's own header step does.
pub proof fn lemma_replay_keeps_block_number(s: StateView, xs: Seq<types::Extrinsic>, n: int)
    ensures
        apply_extrinsics_prefix(s, xs, n).block_number == s.block_number,
    decreases n,
{
    if n > 0 {
        lemma_replay_keeps_block_number(s, xs, n - 1);
        lemma_apply_extrinsic_fields(apply_extrinsics_prefix(s, xs, n - 1), xs[n - 1]);
    }
}

/// Law: replaying the first `n` extrinsics increments an account's nonce
/// once per extrinsic that account authored among them — independent of
/// every dispatch outcome — saturating at the counter's maximum. In
/// particular, on a fresh runtime an account that authored `n` extrinsics
/// ends with nonce `n` whenever `n` stays below the saturation point.
pub proof fn lemma_replay_counts_nonces(
    s: StateView,
    xs: Seq<types::Extrinsic>,
    n: int,
    account: Seq<char>,
)
    ensures
        ({
            let counted = system::spec_nonce(s.nonces, account) + count_authored(xs, n, account);
            system::spec_nonce(apply_extrinsics_prefix(s, xs, n).nonces, account) == if counted
                <= u32::MAX {
                counted
            } else {
                u32::MAX as int
            }
        }),
    decreases n,
{
    if n > 0 {
        lemma_replay_counts_nonces(s, xs, n - 1, account);
        lemma_apply_extrinsic_fields(apply_extrinsics_prefix(s, xs, n - 1), xs[n - 1]);
    }
}

/// The composite owner of one instance of each module; the only component
/// holding mutable state. All mutation flows through it via
/// `execute_block`.
pub struct Runtime {
    pub system: system::Pallet,
    pub balances: balances::Pallet,
    pub proof_of_existence: proof_of_existence::Pallet,
}

impl View for Runtime {
    type V = StateView;

    open spec fn view(&self) -> StateView {
        StateView {
            balances: self.balances@,
            nonces: self.system.nonces(),
            block_number: self.system.spec_block_number(),
            claims: self.proof_of_existence@,
        }
    }
}

impl Runtime {
    /// A fresh runtime: every module map empty and the block counter zero,
    /// so every account's balance and nonce are zero and no content is
    /// claimed.
    pub fn new() -> (r: Self)
        ensures
            r@ == initial_state(),
    {
        let r = Runtime {
            system: system::Pallet::new(),
            balances: balances::Pallet::new(),
            proof_of_existence: proof_of_existence::Pallet::new(),
        };
        proof {
            assert(r@ =~= initial_state());
        }
        r
    }

    /// Routes a (caller, call) pair to the owning module's mutating
    /// operation and propagates its result unchanged. Exhaustive over all
    /// declared call variants.
    pub fn dispatch(&mut self, caller: AccountId, runtime_call: RuntimeCall) -> (r: DispatchResult)
        ensures
            final(self)@ == dispatch_effect(old(self)@, caller@, runtime_call),
            r == dispatch_outcome(old(self)@, caller@, runtime_call),
    {
        let ghost pre = *old(self);
        match runtime_call {
            RuntimeCall::Balances(balances::Call::Transfer { to, amount }) => {
                let r = self.balances.transfer(caller, to, amount);
                proof {
                    assert(self@ =~= dispatch_effect(pre@, caller@, runtime_call));
                }
                r
            },
            RuntimeCall::ProofOfExistence(proof_of_existence::Call::CreateClaim { claim }) => {
                let r = self.proof_of_existence.create_claim(caller, claim);
                proof {
                    assert(self@ =~= dispatch_effect(pre@, caller@, runtime_call));
                }
                r
            },
            RuntimeCall::ProofOfExistence(proof_of_existence::Call::RevokeClaim { claim }) => {
                let r = self.proof_of_existence.revoke_claim(caller, claim);
                proof {
                    assert(self@ =~= dispatch_effect(pre@, caller@, runtime_call));
                }
                r
            },
        }
    }

    /// Validates and replays one block against the runtime state.
    ///
    /// The block counter advances by exactly one before anything else —
    /// even when the header check then fails. A header whose declared
    /// number disagrees with the advanced counter rejects the whole block
    /// with `BlockNumberMismatch` and no extrinsic runs. Otherwise every
    /// extrinsic is attempted in sequence order: the caller's nonce is
    /// incremented first, then the call is dispatched, and a dispatch
    /// failure is recorded in the returned log without stopping the replay
    /// or rolling anything back. The block-level result reflects only the
    /// header check; the log holds one dispatch outcome per extrinsic.
    pub fn execute_block(&mut self, block: Block) -> (r: Result<Vec<DispatchResult>, Error>)
        requires
            old(self)@.block_number < u32::MAX,
        ensures
            final(self)@.block_number == old(self)@.block_number + 1,
            r is Ok <==> block.header.block_number == old(self)@.block_number + 1,
            r is Err ==> r == Err::<Vec<DispatchResult>, Error>(Error::BlockNumberMismatch)
                && final(self)@ == after_block_increment(old(self)@),
            r matches Ok(outcomes) ==> {
                &&& final(self)@ == apply_extrinsics(
                    after_block_increment(old(self)@),
                    block.extrinsics@,
                )
                &&& outcomes@.len() == block.extrinsics@.len()
                &&& forall|i: int|
                    0 <= i < block.extrinsics@.len() ==> outcomes@[i] == extrinsic_outcome(
                        apply_extrinsics_prefix(
                            after_block_increment(old(self)@),
                            block.extrinsics@,
                            i,
                        ),
                        block.extrinsics@[i],
                    )
            },
    {
        self.system.inc_block_number();
        if self.system.block_number() != block.header.block_number {
            return Err(Error::BlockNumberMismatch);
        }
        let ghost s1 = self@;
        let mut outcomes: Vec<DispatchResult> = Vec::new();
        let n = block.extrinsics.len();
        let mut i: usize = 0;
        while i < n
            invariant
                i <= n,
                n == block.extrinsics@.len(),
                self@ == apply_extrinsics_prefix(s1, block.extrinsics@, i as int),
                outcomes@.len() == i as int,
                forall|j: int|
                    0 <= j < i ==> outcomes@[j] == extrinsic_outcome(
                        apply_extrinsics_prefix(s1, block.extrinsics@, j),
                        block.extrinsics@[j],
                    ),
            decreases n - i,
        {
            let ext = &block.extrinsics[i];
            let caller = ext.caller.clone();
            let call = ext.call.clone();
            self.system.inc_nonce(&caller);
            let res = self.dispatch(caller, call);
            outcomes.push(res);
            i = i + 1;
        }
        proof {
            lemma_replay_keeps_block_number(s1, block.extrinsics@, n as int);
        }
        Ok(outcomes)
    }
}

impl Dispatch for Runtime {
    type Caller = AccountId;

    type Call = RuntimeCall;

    fn dispatch(&mut self, caller: AccountId, call: RuntimeCall) -> DispatchResult {
        Runtime::dispatch(self, caller, call)
    }
}

} // verus!
