//! The concrete configuration of the runtime: the account identifier and the
//! numeric types every module works over, enumerated in one place so that the
//! modules depend on this binding and not on one another.

use vstd::prelude::*;

verus! {

/// Account identifier: an opaque, totally ordered, cloneable key. It is only
/// ever compared and cloned, never mutated.
pub type AccountID = String;

/// Account balance: an unsigned value moved between accounts only through
/// checked arithmetic.
pub type Balance = u128;

/// Height of the chain: an unsigned counter that starts at zero and moves up
/// by exactly one per processed block.
pub type BlockNumber = u32;

/// Per-account transaction counter: starts at zero, moves up by exactly one
/// each time the account issues an extrinsic.
pub type Nonce = u32;

} // verus!
