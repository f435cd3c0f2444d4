//! A minimal deterministic state-transition machine in the shape of a
//! blockchain runtime: an account-balance ledger with checked arithmetic, a
//! block-number and per-account-nonce tracker, and a dispatcher that routes
//! each extrinsic of a block to the module that owns it.
//!
//! Every state mutation is specified by a contract and verified: transfers
//! conserve the total of the two balances touched and fail atomically, the
//! counters move by exactly one, and block execution is pinned to a
//! mathematical fold of the extrinsic sequence over the runtime state.

pub mod balances;
pub mod runtime;
pub mod support;
pub mod system;
pub mod types;

pub use runtime::Runtime;
pub use runtime::RuntimeCall;
