//! Shared plumbing between the modules and the runtime: the error taxonomy,
//! the result type a dispatched call reports, and the block structure
//! (header plus ordered extrinsics) that the runtime executes.

use crate::runtime::RuntimeCall;
use crate::types::AccountID;
use crate::types::BlockNumber;
use vstd::prelude::*;

verus! {

/// Everything that can go wrong while mutating runtime state.
///
/// The first two are per-call failures surfaced by the balance ledger; a call
/// that fails with one of them leaves all state untouched.
/// `BlockNumberMismatch` is fatal at block granularity: the whole block is
/// rejected and none of its extrinsics runs. `UnknownCall` stands for a call
/// that no module owns; with the present call set, routing is exhaustive, so
/// dispatch never produces it.
#[derive(Clone, Copy, Debug, PartialEq, Eq, Structural)]
pub enum ErrorKind {
    InsufficientBalance,
    BalanceOverflow,
    BlockNumberMismatch,
    UnknownCall,
}

/// Outcome of one dispatched call.
pub type DispatchResult = Result<(), ErrorKind>;

/// A unit of work submitted for inclusion in a block: who issues the call,
/// and the call itself.
pub struct Extrinsic {
    pub caller: AccountID,
    pub call: RuntimeCall,
}

/// Block metadata: the block number this block claims to carry.
pub struct Header {
    pub block_number: BlockNumber,
}

/// An ordered batch of extrinsics under one header.
pub struct Block {
    pub header: Header,
    pub extrinsics: Vec<Extrinsic>,
}

} // verus!
