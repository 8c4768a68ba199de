//! The four operations of a pool, each on the accounts presented to it.

use crate::account::TokenAccount;
use crate::auth::Capability;
use crate::error::ErrorCode;
use crate::orchestrator::{
    deposit_plan, do_deposit, do_swap, do_withdraw, swap_is_priced, swap_outcome,
    withdraw_outcome,
};
use crate::pool::{Pool, PoolView};
use crate::pricing::FEE_DENOMINATOR;
use crate::transfer::TransferRequest;
use vstd::prelude::*;

verus! {

/// What is presented to create a pool.
pub struct InitializePool {
    /// The account that will hold the reserves of asset A.
    pub token_a_vault: TokenAccount,
    /// The account that will hold the reserves of asset B.
    pub token_b_vault: TokenAccount,
    /// The identity that becomes the pool's authority.
    pub authority: Capability,
    /// Who pays for the new record.
    pub user: Capability,
}

/// What is presented to deposit into a pool.
pub struct Deposit {
    pub pool: Pool,
    /// The user's account of asset A.
    pub user_token_a: TokenAccount,
    /// The user's account of asset B.
    pub user_token_b: TokenAccount,
    /// The depositing user.
    pub user: Capability,
}

/// What is presented to swap against a pool.
pub struct Swap {
    pub pool: Pool,
    /// The pool's A vault, with its balance at the time of the call.
    pub token_a_vault: TokenAccount,
    /// The pool's B vault, with its balance at the time of the call.
    pub token_b_vault: TokenAccount,
    /// The account the output is taken from.
    pub source_vault: TokenAccount,
    /// The account the output is paid into.
    pub destination_vault: TokenAccount,
    /// The capability that is to authorize the transfer.
    pub pool_authority: Capability,
}

/// What is presented to withdraw from a pool.
pub struct Withdraw {
    pub pool: Pool,
    /// The user's account of asset A.
    pub user_token_a: TokenAccount,
    /// The user's account of asset B.
    pub user_token_b: TokenAccount,
    /// The capability that is to authorize the transfers.
    pub pool_authority: Capability,
}

/// Creates the record of a pool over the two presented vaults, with the
/// presented authority and the fee `fee`. A fee of `FEE_DENOMINATOR` or more
/// is refused with `InvalidFee`.
pub fn initialize_pool(ctx: &InitializePool, fee: u64) -> (result: Result<Pool, ErrorCode>)
    ensures
        match result {
            Ok(pool) => {
                &&& fee < FEE_DENOMINATOR
                &&& pool@ == (PoolView {
                    token_a_vault: ctx.token_a_vault.key,
                    token_b_vault: ctx.token_b_vault.key,
                    authority: ctx.authority.identity,
                    fee: fee as nat,
                })
            },
            Err(e) => fee >= FEE_DENOMINATOR && e == ErrorCode::InvalidFee,
        },
{
    Pool::create(
        fee,
        ctx.token_a_vault.key,
        ctx.token_b_vault.key,
        ctx.authority.identity,
        &ctx.authority,
    )
}

/// Plans the deposit of `amount_a` and `amount_b` from the user's accounts
/// into the pool's vaults.
pub fn deposit(ctx: &Deposit, amount_a: u64, amount_b: u64) -> (plan: Vec<TransferRequest>)
    ensures
        plan@ == deposit_plan(
            ctx.pool@,
            ctx.user_token_a.key,
            ctx.user_token_b.key,
            amount_a,
            amount_b,
            ctx.user,
        ),
{
    do_deposit(
        &ctx.pool,
        &ctx.user_token_a.key,
        &ctx.user_token_b.key,
        amount_a,
        amount_b,
        &ctx.user,
    )
}

/// Plans the swap of `amount_in` out of the source vault, priced against the
/// balances of the two presented vaults.
pub fn swap(ctx: &Swap, amount_in: u64, min_amount_out: u64) -> (result: Result<
    Vec<TransferRequest>,
    ErrorCode,
>)
    requires
        ctx.pool_authority.identity == ctx.pool@.authority ==> swap_is_priced(
            ctx.pool@,
            ctx.token_a_vault.amount,
            ctx.token_b_vault.amount,
            ctx.source_vault.key,
            amount_in,
        ),
    ensures
        match result {
            Ok(plan) => swap_outcome(
                ctx.pool@,
                ctx.token_a_vault.amount,
                ctx.token_b_vault.amount,
                ctx.source_vault.key,
                ctx.destination_vault.key,
                amount_in,
                min_amount_out,
                ctx.pool_authority,
            ) == Ok::<Seq<TransferRequest>, ErrorCode>(plan@),
            Err(e) => swap_outcome(
                ctx.pool@,
                ctx.token_a_vault.amount,
                ctx.token_b_vault.amount,
                ctx.source_vault.key,
                ctx.destination_vault.key,
                amount_in,
                min_amount_out,
                ctx.pool_authority,
            ) == Err::<Seq<TransferRequest>, ErrorCode>(e),
        },
{
    do_swap(
        &ctx.pool,
        ctx.token_a_vault.amount,
        ctx.token_b_vault.amount,
        &ctx.source_vault.key,
        &ctx.destination_vault.key,
        amount_in,
        min_amount_out,
        &ctx.pool_authority,
    )
}

/// Plans the withdrawal of `amount_a` and `amount_b` from the pool's vaults
/// into the user's accounts.
pub fn withdraw(ctx: &Withdraw, amount_a: u64, amount_b: u64) -> (result: Result<
    Vec<TransferRequest>,
    ErrorCode,
>)
    ensures
        match result {
            Ok(plan) => withdraw_outcome(
                ctx.pool@,
                ctx.user_token_a.key,
                ctx.user_token_b.key,
                amount_a,
                amount_b,
                ctx.pool_authority,
            ) == Ok::<Seq<TransferRequest>, ErrorCode>(plan@),
            Err(e) => withdraw_outcome(
                ctx.pool@,
                ctx.user_token_a.key,
                ctx.user_token_b.key,
                amount_a,
                amount_b,
                ctx.pool_authority,
            ) == Err::<Seq<TransferRequest>, ErrorCode>(e),
        },
{
    do_withdraw(
        &ctx.pool,
        &ctx.user_token_a.key,
        &ctx.user_token_b.key,
        amount_a,
        amount_b,
        &ctx.pool_authority,
    )
}

} // verus!
