//! The runtime: the one owner of every module's state, and the dispatch path
//! through which calls reach that state.
//!
//! Executing a block is specified as a pure fold: a spec-level model of the
//! whole runtime state steps once per extrinsic, and `execute_block` is
//! proved to land exactly on the fold's result.

use crate::balances;
use crate::support::Block;
use crate::support::DispatchResult;
use crate::support::ErrorKind;
use crate::support::Extrinsic;
use crate::system;
use crate::types::AccountID;
use crate::types::Balance;
use crate::types::BlockNumber;
use crate::types::Nonce;
use vstd::prelude::*;

verus! {

/// A call an extrinsic can carry: a tagged union with one variant per module
/// operation, so dispatch stays exhaustive and compiler-checked. New modules
/// extend it with new variants.
pub enum RuntimeCall {
    BalancesTransfer { to: AccountID, amount: Balance },
}

/// The runtime state as contracts see it: the three pieces of module state,
/// as mathematical values.
#[verifier::ext_equal]
pub struct RuntimeModel {
    pub block_number: BlockNumber,
    pub nonces: Map<Seq<char>, Nonce>,
    pub balances: Map<Seq<char>, Balance>,
}

/// What dispatching `call` on behalf of `caller` does to runtime state `m`:
/// the state afterwards, and the result the call reports. A failing call
/// leaves the state exactly as it was.
pub open spec fn dispatch_outcome(m: RuntimeModel, caller: Seq<char>, call: RuntimeCall) -> (
    RuntimeModel,
    DispatchResult,
) {
    match call {
        RuntimeCall::BalancesTransfer { to, amount } => {
            if balances::transfer_allowed(m.balances, caller, to@, amount) {
                (
                    RuntimeModel {
                        block_number: m.block_number,
                        nonces: m.nonces,
                        balances: balances::transfer_applied(m.balances, caller, to@, amount),
                    },
                    Ok(()),
                )
            } else if balances::balance_in(m.balances, caller) < amount {
                (m, Err(ErrorKind::InsufficientBalance))
            } else {
                (m, Err(ErrorKind::BalanceOverflow))
            }
        },
    }
}

/// One step of block execution: the caller's nonce moves up by one, then the
/// call is dispatched — in that order, so the nonce is spent whether or not
/// the call succeeds.
pub open spec fn extrinsic_outcome(m: RuntimeModel, e: Extrinsic) -> (RuntimeModel, DispatchResult) {
    let bumped = RuntimeModel {
        block_number: m.block_number,
        nonces: m.nonces.insert(e.caller@, (system::nonce_in(m.nonces, e.caller@) + 1) as Nonce),
        balances: m.balances,
    };
    dispatch_outcome(bumped, e.caller@, e.call)
}

/// Folding a whole extrinsic sequence over runtime state `m`, in order: the
/// state after the last extrinsic, and one result per extrinsic. Effects of
/// earlier extrinsics are visible to later ones.
pub open spec fn apply_extrinsics(m: RuntimeModel, s: Seq<Extrinsic>) -> (
    RuntimeModel,
    Seq<DispatchResult>,
)
    decreases s.len(),
{
    if s.len() == 0 {
        (m, Seq::<DispatchResult>::empty())
    } else {
        let rest = apply_extrinsics(m, s.drop_last());
        let step = extrinsic_outcome(rest.0, s.last());
        (step.0, rest.1.push(step.1))
    }
}

/// How many extrinsics of `s` are issued by account `a`.
pub open spec fn calls_by(s: Seq<Extrinsic>, a: Seq<char>) -> nat
    decreases s.len(),
{
    if s.len() == 0 {
        0
    } else {
        calls_by(s.drop_last(), a) + (if s.last().caller@ == a {
            1nat
        } else {
            0nat
        })
    }
}

/// The composed runtime: one instance of every module, owned exclusively.
/// Modules never reach each other directly; all mutation flows through the
/// runtime's dispatch path.
pub struct Runtime {
    pub system: system::Pallet,
    pub balances: balances::Pallet,
}

impl View for Runtime {
    type V = RuntimeModel;

    open spec fn view(&self) -> RuntimeModel {
        RuntimeModel {
            block_number: self.system.spec_block_number(),
            nonces: self.system.spec_nonces(),
            balances: self.balances.spec_ledger(),
        }
    }
}

/// Growing a prefix of `s` by one extrinsic grows each account's call count
/// by exactly that extrinsic's contribution.
proof fn lemma_calls_by_take_step(s: Seq<Extrinsic>, j: int)
    requires
        0 <= j < s.len(),
    ensures
        forall|a: Seq<char>|
            calls_by(s.take(j + 1), a) == calls_by(s.take(j), a) + (if s[j].caller@ == a {
                1nat
            } else {
                0nat
            }),
{
    assert(s.take(j + 1).drop_last() =~= s.take(j));
    assert(s.take(j + 1).last() == s[j]);
}

/// A prefix of `s` holds at most as many calls by `a` as `s` itself.
proof fn lemma_calls_by_take_le(s: Seq<Extrinsic>, a: Seq<char>, j: int)
    requires
        0 <= j <= s.len(),
    ensures
        calls_by(s.take(j), a) <= calls_by(s, a),
    decreases s.len() - j,
{
    if j == s.len() {
        assert(s.take(j) =~= s);
    } else {
        lemma_calls_by_take_step(s, j);
        lemma_calls_by_take_le(s, a, j + 1);
    }
}

impl Runtime {
    /// Create a fresh runtime with all module state zeroed and empty.
    pub fn new() -> (result: Self)
        ensures
            result@.block_number == 0,
            result@.nonces == Map::<Seq<char>, Nonce>::empty(),
            result@.balances == Map::<Seq<char>, Balance>::empty(),
    {
        Runtime { system: system::Pallet::new(), balances: balances::Pallet::new() }
    }

    /// Route `runtime_call` to the module that owns it and run it on behalf
    /// of `caller`. State and result afterwards are exactly
    /// [`dispatch_outcome`] of the state held when the call came in; in
    /// particular a failing call leaves every module untouched.
    pub fn dispatch(&mut self, caller: AccountID, runtime_call: RuntimeCall) -> (result:
        DispatchResult)
        ensures
            final(self)@ == dispatch_outcome(old(self)@, caller@, runtime_call).0,
            result == dispatch_outcome(old(self)@, caller@, runtime_call).1,
    {
        match runtime_call {
            RuntimeCall::BalancesTransfer { to, amount } => self.balances.transfer(
                &caller,
                &to,
                amount,
            ),
        }
    }

    /// Execute one block against the current state.
    ///
    /// The block's declared number must be exactly one past the current
    /// block number; otherwise the whole block is rejected with
    /// `BlockNumberMismatch` and no extrinsic of it is applied. On
    /// acceptance the block number moves up by one and the extrinsics run
    /// in block order — each one first spends its caller's nonce, then
    /// dispatches — landing exactly on [`apply_extrinsics`] of the entered
    /// state. Per-extrinsic failures are recorded in the returned list and
    /// never stop the block.
    ///
    /// The counters never wrap: callers keep the block number below its
    /// ceiling and leave every account enough nonce headroom for the calls
    /// it issues here — bounds a realistic chain never reaches.
    pub fn execute_block(&mut self, block: Block) -> (result: Result<
        Vec<DispatchResult>,
        ErrorKind,
    >)
        requires
            old(self)@.block_number < BlockNumber::MAX,
            forall|a: Seq<char>|
                system::nonce_in(old(self)@.nonces, a) + calls_by(block.extrinsics@, a)
                    <= Nonce::MAX,
        ensures
            block.header.block_number != old(self)@.block_number + 1 ==> ({
                &&& result == Err::<Vec<DispatchResult>, ErrorKind>(ErrorKind::BlockNumberMismatch)
                &&& *final(self) == *old(self)
            }),
            block.header.block_number == old(self)@.block_number + 1 ==> ({
                let entered = RuntimeModel {
                    block_number: (old(self)@.block_number + 1) as BlockNumber,
                    nonces: old(self)@.nonces,
                    balances: old(self)@.balances,
                };
                let outcome = apply_extrinsics(entered, block.extrinsics@);
                &&& result matches Ok(reports) && reports@ == outcome.1
                &&& final(self)@ == outcome.0
                &&& final(self)@.block_number == old(self)@.block_number + 1
            }),
    {
        let declared = block.header.block_number;
        let current = self.system.block_number();
        if declared != current + 1 {
            return Err(ErrorKind::BlockNumberMismatch);
        }
        self.system.inc_block_number();

        let ghost entered = self@;
        let ghost all = block.extrinsics@;
        proof {
            assert(all.take(0) =~= Seq::<Extrinsic>::empty());
        }

        let mut remaining = block.extrinsics;
        proof {
            assert(all.len() == remaining.len());
        }
        let mut results: Vec<DispatchResult> = Vec::new();
        let mut done: usize = 0;

        while remaining.len() > 0
            invariant
                all.len() <= usize::MAX,
                done + remaining@.len() == all.len(),
                remaining@ == all.skip(done as int),
                self@ == apply_extrinsics(entered, all.take(done as int)).0,
                self@.block_number == entered.block_number,
                results@ == apply_extrinsics(entered, all.take(done as int)).1,
                forall|a: Seq<char>|
                    system::nonce_in(self@.nonces, a) == system::nonce_in(entered.nonces, a)
                        + calls_by(all.take(done as int), a),
                forall|a: Seq<char>|
                    system::nonce_in(entered.nonces, a) + calls_by(all, a) <= Nonce::MAX,
            decreases remaining@.len(),
        {
            let ghost prev = self@;
            let e = remaining.remove(0);
            let ghost ge = e;
            proof {
                assert(ge == all[done as int]);
                assert(all.skip(done as int).drop_first() =~= all.skip(done as int + 1));
                lemma_calls_by_take_step(all, done as int);
                lemma_calls_by_take_le(all, ge.caller@, done as int + 1);
            }
            self.system.inc_nonce(&e.caller);
            let ghost bumped = RuntimeModel {
                block_number: prev.block_number,
                nonces: prev.nonces.insert(
                    ge.caller@,
                    (system::nonce_in(prev.nonces, ge.caller@) + 1) as Nonce,
                ),
                balances: prev.balances,
            };
            proof {
                assert(self@ =~= bumped);
            }
            let res = self.dispatch(e.caller, e.call);
            results.push(res);
            proof {
                assert(dispatch_outcome(bumped, ge.caller@, ge.call).0.nonces == bumped.nonces);
                assert(self@ == extrinsic_outcome(prev, ge).0);
                assert(res == extrinsic_outcome(prev, ge).1);
                assert(all.take(done as int + 1).drop_last() =~= all.take(done as int));
                assert(all.take(done as int + 1).last() == all[done as int]);
                assert forall|a: Seq<char>|
                    system::nonce_in(self@.nonces, a) == system::nonce_in(entered.nonces, a)
                        + calls_by(all.take(done as int + 1), a) by {
                    assert(calls_by(all.take(done as int + 1), a) == calls_by(
                        all.take(done as int),
                        a,
                    ) + (if all[done as int].caller@ == a {
                        1nat
                    } else {
                        0nat
                    }));
                    assert(system::nonce_in(prev.nonces, a) == system::nonce_in(entered.nonces, a)
                        + calls_by(all.take(done as int), a));
                }
            }
            done = done + 1;
        }
        proof {
            assert(all.take(done as int) =~= all);
        }
        Ok(results)
    }
}

} // verus!
