//! Constant-product liquidity pool: pricing, authorization and transfer
//! sequencing for a two-asset automated market maker.
//!
//! The pool custodies two reserves in two vaults and offers four operations:
//! creating the pool, depositing into it, swapping one asset for the other,
//! and withdrawing. This library decides what each operation comes to, an
//! error or the asset transfers to perform; the host that owns the ledger
//! performs them.

pub mod account;
pub mod auth;
pub mod error;
pub mod instructions;
pub mod orchestrator;
pub mod pool;
pub mod pricing;
pub mod transfer;

pub use account::{AccountId, TokenAccount};
pub use auth::{require_role, Capability};
pub use error::ErrorCode;
pub use instructions::{
    deposit, initialize_pool, swap, withdraw, Deposit, InitializePool, Swap, Withdraw,
};
pub use orchestrator::{do_deposit, do_swap, do_withdraw, is_priced, resolve_direction};
pub use pool::{Pool, PoolRegistry};
pub use pricing::{apply_fee, quote_swap, FEE_DENOMINATOR};
pub use transfer::{TransferRequest, TransferRun};
