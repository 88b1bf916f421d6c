//! The composition root: binds the three state modules to one concrete
//! type contract, defines the closed set of dispatchable operations,
//! and executes blocks. The whole engine is deterministic, so block
//! execution is specified by a functional model (`spec_execute_block`)
//! that the executor provably refines.

use crate::balances;
use crate::balances::Balances;
use crate::proof_of_existence;
use crate::proof_of_existence::Proof;
use crate::support;
use crate::support::{Dispatch, DispatchResult, ErrorKind};
use crate::system::{nonce_in, System};
use vstd::prelude::*;

verus! {

/// The concrete type contract shared by every module of this runtime:
/// account identity, balance amount, block number, nonce, and claim
/// content.
pub type AccountId = String;

pub type Balance = u128;

pub type BlockNumber = u32;

pub type Nonce = u32;

pub type Content = String;

pub type Header = support::Header<BlockNumber>;

pub type Extrinsic = support::Extrinsic<AccountId, RuntimeCall>;

pub type Block = support::Block<Header, Extrinsic>;

/// The closed set of operations a block may carry, each variant owned
/// by exactly one module.
pub enum RuntimeCall {
    Balances(balances::Call),
    PoE(proof_of_existence::Call),
}

/// The abstract state of a runtime: the block counter, the per-account
/// nonces, the balance ledger, and the claim registry. Counters are
/// unbounded here; the executor's precondition keeps the real ones in
/// range.
#[verifier::ext_equal]
pub ghost struct StateView {
    pub block_number: nat,
    pub nonces: Map<Seq<char>, nat>,
    pub balances: Map<Seq<char>, u128>,
    pub claims: Map<Seq<char>, Seq<char>>,
}

/// The runtime: owns one instance of each state module for its entire
/// lifetime.
#[derive(Debug)]
pub struct Runtime {
    pub system: System,
    pub balances: Balances,
    pub proof_of_existence: Proof,
}

impl View for Runtime {
    type V = StateView;

    open spec fn view(&self) -> StateView {
        StateView {
            block_number: self.system.spec_block_number() as nat,
            nonces: self.system.nonces(),
            balances: self.balances.balances@,
            claims: self.proof_of_existence.claims(),
        }
    }
}

/// The state after dispatching `call` on behalf of `caller`: the owning
/// module's state changes exactly as that module's model says, and
/// nothing else changes. A failed dispatch changes nothing.
pub open spec fn spec_dispatch_call(s: StateView, caller: Seq<char>, call: RuntimeCall) -> Result<
    StateView,
    ErrorKind,
> {
    match call {
        RuntimeCall::Balances(balances::Call::Transfer { to, amount }) => match balances::spec_transfer(
            s.balances,
            caller,
            to@,
            amount,
        ) {
            Ok(m) => Ok(StateView { balances: m, ..s }),
            Err(e) => Err(e),
        },
        RuntimeCall::PoE(proof_of_existence::Call::CreateClaim { claim }) => match proof_of_existence::spec_create_claim(
            s.claims,
            caller,
            claim@,
        ) {
            Ok(m) => Ok(StateView { claims: m, ..s }),
            Err(e) => Err(e),
        },
        RuntimeCall::PoE(proof_of_existence::Call::RevokeClaim { claim }) => match proof_of_existence::spec_revoke_claim(
            s.claims,
            caller,
            claim@,
        ) {
            Ok(m) => Ok(StateView { claims: m, ..s }),
            Err(e) => Err(e),
        },
    }
}

/// The state after a successful dispatch is credited to `caller`: the
/// caller's nonce advances by exactly 1.
pub open spec fn spec_bump_nonce(s: StateView, caller: Seq<char>) -> StateView {
    StateView { nonces: s.nonces.insert(caller, nonce_in(s.nonces, caller) + 1), ..s }
}

/// Dispatch the extrinsics of a block in order. Each successful dispatch
/// advances the caller's nonce; the first failure stops execution and is
/// returned, with everything applied so far kept (no rollback).
pub open spec fn spec_apply_extrinsics(s: StateView, xts: Seq<Extrinsic>) -> (
    StateView,
    DispatchResult,
)
    decreases xts.len(),
{
    if xts.len() == 0 {
        (s, Ok(()))
    } else {
        match spec_dispatch_call(s, xts[0].caller@, xts[0].call) {
            Ok(s1) => spec_apply_extrinsics(spec_bump_nonce(s1, xts[0].caller@), xts.drop_first()),
            Err(e) => (s, Err(e)),
        }
    }
}

/// Execute one block: the block counter advances by exactly 1 first;
/// then, if the header does not carry the advanced number, execution
/// stops with `BlockNumberMismatch` (the counter stays advanced);
/// otherwise the extrinsics are dispatched in order.
pub open spec fn spec_execute_block(s: StateView, block: Block) -> (StateView, DispatchResult) {
    let s1 = StateView { block_number: s.block_number + 1, ..s };
    if block.header.block_number as nat != s1.block_number {
        (s1, Err(ErrorKind::BlockNumberMismatch))
    } else {
        spec_apply_extrinsics(s1, block.extrinsics@)
    }
}

proof fn lemma_apply_extrinsics_block_number(s: StateView, xts: Seq<Extrinsic>)
    ensures
        spec_apply_extrinsics(s, xts).0.block_number == s.block_number,
    decreases xts.len(),
{
    if xts.len() > 0 {
        match spec_dispatch_call(s, xts[0].caller@, xts[0].call) {
            Ok(s1) => {
                lemma_apply_extrinsics_block_number(
                    spec_bump_nonce(s1, xts[0].caller@),
                    xts.drop_first(),
                );
            },
            Err(_) => {},
        }
    }
}

proof fn lemma_apply_extrinsics_nonce_monotone(s: StateView, xts: Seq<Extrinsic>, who: Seq<char>)
    ensures
        nonce_in(spec_apply_extrinsics(s, xts).0.nonces, who) >= nonce_in(s.nonces, who),
    decreases xts.len(),
{
    if xts.len() > 0 {
        match spec_dispatch_call(s, xts[0].caller@, xts[0].call) {
            Ok(s1) => {
                lemma_apply_extrinsics_nonce_monotone(
                    spec_bump_nonce(s1, xts[0].caller@),
                    xts.drop_first(),
                    who,
                );
            },
            Err(_) => {},
        }
    }
}

/// How many of `xts` are dispatched successfully on behalf of `who`
/// before execution stops.
pub open spec fn spec_success_count(s: StateView, xts: Seq<Extrinsic>, who: Seq<char>) -> nat
    decreases xts.len(),
{
    if xts.len() == 0 {
        0
    } else {
        match spec_dispatch_call(s, xts[0].caller@, xts[0].call) {
            Ok(s1) => (if xts[0].caller@ == who {
                1nat
            } else {
                0nat
            }) + spec_success_count(spec_bump_nonce(s1, xts[0].caller@), xts.drop_first(), who),
            Err(_) => 0,
        }
    }
}

/// Nonce monotonicity: applying a batch of extrinsics advances an
/// account's nonce by exactly the number of its extrinsics that were
/// dispatched successfully. Failed or skipped extrinsics advance no
/// nonce, and no account's nonce ever decreases.
pub proof fn lemma_nonce_counts_successes(s: StateView, xts: Seq<Extrinsic>, who: Seq<char>)
    ensures
        nonce_in(spec_apply_extrinsics(s, xts).0.nonces, who) == nonce_in(s.nonces, who)
            + spec_success_count(s, xts, who),
    decreases xts.len(),
{
    if xts.len() > 0 {
        match spec_dispatch_call(s, xts[0].caller@, xts[0].call) {
            Ok(s1) => {
                lemma_nonce_counts_successes(
                    spec_bump_nonce(s1, xts[0].caller@),
                    xts.drop_first(),
                    who,
                );
            },
            Err(_) => {},
        }
    }
}

/// Nonce accounting at block level: executing a block advances an
/// account's nonce by exactly the number of extrinsics it successfully
/// issued in that block, so over any run of blocks the nonce counts the
/// account's successful extrinsics. A rejected block advances no nonce.
pub proof fn lemma_block_nonce_accounting(s: StateView, block: Block, who: Seq<char>)
    ensures
        ({
            let s1 = StateView { block_number: s.block_number + 1, ..s };
            nonce_in(spec_execute_block(s, block).0.nonces, who) == nonce_in(s.nonces, who) + (
            if block.header.block_number as nat == s.block_number + 1 {
                spec_success_count(s1, block.extrinsics@, who)
            } else {
                0
            })
        }),
{
    let s1 = StateView { block_number: s.block_number + 1, ..s };
    if block.header.block_number as nat == s1.block_number {
        lemma_nonce_counts_successes(s1, block.extrinsics@, who);
    }
}

/// Block sequencing: executing a block advances the block counter by
/// exactly 1 whatever else happens, and a block whose header does not
/// carry the advanced number is rejected with `BlockNumberMismatch`
/// with no extrinsic applied — while the advanced counter is kept.
pub proof fn lemma_block_sequencing(s: StateView, block: Block)
    ensures
        spec_execute_block(s, block).0.block_number == s.block_number + 1,
        block.header.block_number as nat != s.block_number + 1 ==> spec_execute_block(s, block)
            == (
            StateView { block_number: s.block_number + 1, ..s },
            Err::<(), ErrorKind>(ErrorKind::BlockNumberMismatch),
        ),
{
    let s1 = StateView { block_number: s.block_number + 1, ..s };
    if block.header.block_number as nat == s1.block_number {
        lemma_apply_extrinsics_block_number(s1, block.extrinsics@);
    }
}

/// Partial block abort: when a batch of extrinsics fails, there is a
/// failing position `i` such that exactly the extrinsics before `i`
/// were applied — their effects persist in the resulting state — the
/// reported error is the one dispatching extrinsic `i` reports there,
/// and nothing from `i` on was applied.
pub proof fn lemma_partial_abort(s: StateView, xts: Seq<Extrinsic>) -> (i: int)
    requires
        spec_apply_extrinsics(s, xts).1 is Err,
    ensures
        0 <= i < xts.len(),
        spec_apply_extrinsics(s, xts.take(i)).1 == Ok::<(), ErrorKind>(()),
        spec_apply_extrinsics(s, xts).0 == spec_apply_extrinsics(s, xts.take(i)).0,
        spec_dispatch_call(
            spec_apply_extrinsics(s, xts.take(i)).0,
            xts[i].caller@,
            xts[i].call,
        ) == Err::<StateView, ErrorKind>(spec_apply_extrinsics(s, xts).1->Err_0),
    decreases xts.len(),
{
    if xts.len() == 0 {
        assert(false);
        0
    } else {
        match spec_dispatch_call(s, xts[0].caller@, xts[0].call) {
            Err(_) => {
                assert(xts.take(0) =~= Seq::<Extrinsic>::empty());
                0
            },
            Ok(s1) => {
                let s2 = spec_bump_nonce(s1, xts[0].caller@);
                let j = lemma_partial_abort(s2, xts.drop_first());
                assert(xts.take(j + 1).drop_first() =~= xts.drop_first().take(j));
                assert(xts.take(j + 1)[0] == xts[0]);
                assert(xts[j + 1] == xts.drop_first()[j]);
                j + 1
            },
        }
    }
}

impl Runtime {
    /// A fresh runtime: all modules at their empty/zero state.
    pub fn new() -> (r: Self)
        ensures
            r@ == (StateView {
                block_number: 0,
                nonces: Map::<Seq<char>, nat>::empty(),
                balances: Map::<Seq<char>, u128>::empty(),
                claims: Map::<Seq<char>, Seq<char>>::empty(),
            }),
    {
        Runtime {
            system: System::new(),
            balances: Balances::new(),
            proof_of_existence: Proof::new(),
        }
    }

    /// Execute `block` exactly as `spec_execute_block` says: advance the
    /// block counter, validate the header, then dispatch the extrinsics
    /// in order, crediting each success to its caller's nonce and
    /// stopping at the first failure without rolling anything back.
    ///
    /// The precondition asks only that the counters this execution
    /// produces still fit their types: counter increments are unchecked,
    /// so inputs that would overflow them are excluded rather than
    /// reported.
    pub fn execute_block(&mut self, block: Block) -> (r: DispatchResult)
        requires
            ({
                let s_end = spec_execute_block(old(self)@, block).0;
                &&& s_end.block_number <= u32::MAX
                &&& forall|a: Seq<char>|
                    s_end.nonces.contains_key(a) ==> s_end.nonces[a] <= u32::MAX
            }),
        ensures
            final(self)@ == spec_execute_block(old(self)@, block).0,
            r == spec_execute_block(old(self)@, block).1,
    {
        let ghost s0 = self@;
        let ghost sr = spec_execute_block(s0, block);
        let ghost hdr = block.header.block_number;
        proof {
            let s1 = StateView { block_number: s0.block_number + 1, ..s0 };
            if hdr as nat == s1.block_number {
                lemma_apply_extrinsics_block_number(s1, block.extrinsics@);
            }
            assert(sr.0.block_number == s0.block_number + 1);
        }

        self.system.inc_block_nubmer();
        proof {
            assert(self@ =~= (StateView { block_number: s0.block_number + 1, ..s0 }));
        }

        if block.header.block_number != self.system.block_number() {
            proof {
                assert(self@ =~= sr.0);
            }
            return Err(ErrorKind::BlockNumberMismatch);
        }

        let support::Block { header: _, extrinsics: mut extrinsics } = block;

        #[verifier::loop_isolation(false)]
        while extrinsics.len() > 0
            invariant
                spec_apply_extrinsics(self@, extrinsics@) == sr,
            decreases extrinsics.len(),
        {
            let ghost prev = extrinsics@;
            let ghost pre = self@;
            let xt = extrinsics.remove(0);
            proof {
                assert(extrinsics@ =~= prev.drop_first());
            }
            let support::Extrinsic { caller, call } = xt;
            let ghost gcaller = caller@;
            let ghost gcall = call;
            let ghost rest = extrinsics@;

            let result = match call {
                RuntimeCall::Balances(inner_call) => self.balances.dispatch(
                    caller.clone(),
                    inner_call,
                ),
                RuntimeCall::PoE(inner_call) => self.proof_of_existence.dispatch(
                    caller.clone(),
                    inner_call,
                ),
            };

            match result {
                Ok(()) => {
                    proof {
                        let s1 = spec_dispatch_call(pre, gcaller, gcall)->Ok_0;
                        assert(self@ =~= s1);
                        let s2 = spec_bump_nonce(s1, gcaller);
                        lemma_apply_extrinsics_nonce_monotone(s2, rest, gcaller);
                    }
                    self.system.inc_nonce(caller);
                    proof {
                        let s1 = spec_dispatch_call(pre, gcaller, gcall)->Ok_0;
                        assert(self@ =~= spec_bump_nonce(s1, gcaller));
                    }
                },
                Err(e) => {
                    proof {
                        assert(self@ =~= pre);
                    }
                    return Err(e);
                },
            }
        }

        Ok(())
    }
}

} // verus!
