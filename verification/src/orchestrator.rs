//! The transfers each pool operation asks for.
//!
//! Every function here decides; none moves assets. A privileged operation
//! first checks the presented capability against the pool's authority, so an
//! unauthorized call ends before any transfer is asked for.

use crate::account::AccountId;
use crate::auth::{require_role, Capability};
use crate::error::ErrorCode;
use crate::pool::{Pool, PoolView};
use crate::pricing::{amount_after_fee, apply_fee, quote_swap, swap_output};
use crate::transfer::{RunState, TransferRequest};
use vstd::prelude::*;

verus! {

/// The reserves a swap out of `source_vault` trades against, input side
/// first: the pool's A reserve is the input when `source_vault` is its A
/// vault, and its B reserve in every other case.
pub open spec fn reserves_for(
    pool: PoolView,
    source_vault: AccountId,
    reserve_a: u64,
    reserve_b: u64,
) -> (u64, u64) {
    if source_vault == pool.token_a_vault {
        (reserve_a, reserve_b)
    } else {
        (reserve_b, reserve_a)
    }
}

/// Whether the pricing rule has a value for this swap: its divisor, the input
/// reserve plus the input after the fee, is not zero.
pub open spec fn swap_is_priced(
    pool: PoolView,
    reserve_a: u64,
    reserve_b: u64,
    source_vault: AccountId,
    amount_in: u64,
) -> bool {
    reserves_for(pool, source_vault, reserve_a, reserve_b).0 + amount_after_fee(
        amount_in as nat,
        pool.fee,
    ) > 0
}

/// The transfers of a deposit: from the user's two accounts into the pool's
/// two vaults, asset A first, both in the user's name.
pub open spec fn deposit_plan(
    pool: PoolView,
    user_token_a: AccountId,
    user_token_b: AccountId,
    amount_a: u64,
    amount_b: u64,
    user_capability: Capability,
) -> Seq<TransferRequest> {
    seq![
        TransferRequest {
            from: user_token_a,
            to: pool.token_a_vault,
            authority: user_capability.identity,
            amount: amount_a,
        },
        TransferRequest {
            from: user_token_b,
            to: pool.token_b_vault,
            authority: user_capability.identity,
            amount: amount_b,
        },
    ]
}

/// What a swap comes to: `Unauthorized` without the pool authority's
/// capability, else `SlippageExceeded` when the priced output is below the
/// floor, else the one transfer of that output from the source vault to the
/// destination vault.
pub open spec fn swap_outcome(
    pool: PoolView,
    reserve_a: u64,
    reserve_b: u64,
    source_vault: AccountId,
    destination_vault: AccountId,
    amount_in: u64,
    min_amount_out: u64,
    authority_capability: Capability,
) -> Result<Seq<TransferRequest>, ErrorCode> {
    let (reserve_in, reserve_out) = reserves_for(pool, source_vault, reserve_a, reserve_b);
    let amount_out = swap_output(reserve_in as nat, reserve_out as nat, amount_in as nat, pool.fee);
    if authority_capability.identity != pool.authority {
        Err(ErrorCode::Unauthorized)
    } else if amount_out < min_amount_out {
        Err(ErrorCode::SlippageExceeded)
    } else {
        Ok(
            seq![
                TransferRequest {
                    from: source_vault,
                    to: destination_vault,
                    authority: authority_capability.identity,
                    amount: amount_out as u64,
                },
            ],
        )
    }
}

/// What a withdrawal comes to: `Unauthorized` without the pool authority's
/// capability, else the transfers out of the pool's two vaults into the
/// user's two accounts, asset A first.
pub open spec fn withdraw_outcome(
    pool: PoolView,
    user_token_a: AccountId,
    user_token_b: AccountId,
    amount_a: u64,
    amount_b: u64,
    authority_capability: Capability,
) -> Result<Seq<TransferRequest>, ErrorCode> {
    if authority_capability.identity != pool.authority {
        Err(ErrorCode::Unauthorized)
    } else {
        Ok(
            seq![
                TransferRequest {
                    from: pool.token_a_vault,
                    to: user_token_a,
                    authority: authority_capability.identity,
                    amount: amount_a,
                },
                TransferRequest {
                    from: pool.token_b_vault,
                    to: user_token_b,
                    authority: authority_capability.identity,
                    amount: amount_b,
                },
            ],
        )
    }
}

/// A swap presented with a capability other than the pool authority's ends
/// in `Unauthorized`, whatever else was passed, and so without a transfer to
/// perform.
pub proof fn lemma_unauthorized_swap_moves_nothing(
    pool: PoolView,
    reserve_a: u64,
    reserve_b: u64,
    source_vault: AccountId,
    destination_vault: AccountId,
    amount_in: u64,
    min_amount_out: u64,
    presented: Capability,
)
    requires
        presented.identity != pool.authority,
    ensures
        swap_outcome(
            pool,
            reserve_a,
            reserve_b,
            source_vault,
            destination_vault,
            amount_in,
            min_amount_out,
            presented,
        ) == Err::<Seq<TransferRequest>, ErrorCode>(ErrorCode::Unauthorized),
{
}

/// A withdrawal presented with a capability other than the pool authority's
/// ends in `Unauthorized`, whatever else was passed, and so without a
/// transfer to perform.
pub proof fn lemma_unauthorized_withdraw_moves_nothing(
    pool: PoolView,
    user_token_a: AccountId,
    user_token_b: AccountId,
    amount_a: u64,
    amount_b: u64,
    presented: Capability,
)
    requires
        presented.identity != pool.authority,
    ensures
        withdraw_outcome(pool, user_token_a, user_token_b, amount_a, amount_b, presented)
            == Err::<Seq<TransferRequest>, ErrorCode>(ErrorCode::Unauthorized),
{
}

/// A deposit whose first transfer goes through and whose second fails ends
/// there: the run is aborted with one transfer settled, asks for nothing
/// more, and does not count as completed. The host, which performs an
/// operation in full or not at all, then discards the first transfer.
pub proof fn lemma_deposit_stops_at_second_failure(
    pool: PoolView,
    user_token_a: AccountId,
    user_token_b: AccountId,
    amount_a: u64,
    amount_b: u64,
    user_capability: Capability,
)
    ensures
        ({
            let plan = deposit_plan(
                pool,
                user_token_a,
                user_token_b,
                amount_a,
                amount_b,
                user_capability,
            );
            let end = RunState::start(plan).after(true).after(false);
            &&& RunState::start(plan).pending() == Some(plan[0])
            &&& RunState::start(plan).after(true).pending() == Some(plan[1])
            &&& end == (RunState { plan, settled: 1, aborted: true })
            &&& end.pending() is None
            &&& !end.completed()
        }),
{
}

/// Picks the reserves a swap out of `source_vault` trades against, input
/// side first.
pub fn resolve_direction(pool: &Pool, source_vault: &AccountId, reserve_a: u64, reserve_b: u64) -> (reserves:
    (u64, u64))
    ensures
        reserves == reserves_for(pool@, *source_vault, reserve_a, reserve_b),
{
    if *source_vault == pool.token_a_vault() {
        (reserve_a, reserve_b)
    } else {
        (reserve_b, reserve_a)
    }
}

/// Tells whether the pricing rule has a value for a swap of `amount_in` out
/// of `source_vault`.
pub fn is_priced(
    pool: &Pool,
    reserve_a: u64,
    reserve_b: u64,
    source_vault: &AccountId,
    amount_in: u64,
) -> (priced: bool)
    ensures
        priced == swap_is_priced(pool@, reserve_a, reserve_b, *source_vault, amount_in),
{
    let (reserve_in, _) = resolve_direction(pool, source_vault, reserve_a, reserve_b);
    reserve_in > 0 || apply_fee(amount_in, pool.fee()) > 0
}

/// Plans a deposit of `amount_a` and `amount_b` from the user's accounts
/// into the pool's vaults.
pub fn do_deposit(
    pool: &Pool,
    user_token_a: &AccountId,
    user_token_b: &AccountId,
    amount_a: u64,
    amount_b: u64,
    user_capability: &Capability,
) -> (plan: Vec<TransferRequest>)
    ensures
        plan@ == deposit_plan(
            pool@,
            *user_token_a,
            *user_token_b,
            amount_a,
            amount_b,
            *user_capability,
        ),
{
    let mut plan: Vec<TransferRequest> = Vec::new();
    plan.push(
        TransferRequest {
            from: *user_token_a,
            to: pool.token_a_vault(),
            authority: user_capability.identity,
            amount: amount_a,
        },
    );
    plan.push(
        TransferRequest {
            from: *user_token_b,
            to: pool.token_b_vault(),
            authority: user_capability.identity,
            amount: amount_b,
        },
    );
    assert(plan@ =~= deposit_plan(
        pool@,
        *user_token_a,
        *user_token_b,
        amount_a,
        amount_b,
        *user_capability,
    ));
    plan
}

/// Plans a swap of `amount_in` out of `source_vault`, given the balances of
/// the pool's two vaults as read for this call.
pub fn do_swap(
    pool: &Pool,
    reserve_a: u64,
    reserve_b: u64,
    source_vault: &AccountId,
    destination_vault: &AccountId,
    amount_in: u64,
    min_amount_out: u64,
    authority_capability: &Capability,
) -> (result: Result<Vec<TransferRequest>, ErrorCode>)
    requires
        authority_capability.identity == pool@.authority ==> swap_is_priced(
            pool@,
            reserve_a,
            reserve_b,
            *source_vault,
            amount_in,
        ),
    ensures
        match result {
            Ok(plan) => swap_outcome(
                pool@,
                reserve_a,
                reserve_b,
                *source_vault,
                *destination_vault,
                amount_in,
                min_amount_out,
                *authority_capability,
            ) == Ok::<Seq<TransferRequest>, ErrorCode>(plan@),
            Err(e) => swap_outcome(
                pool@,
                reserve_a,
                reserve_b,
                *source_vault,
                *destination_vault,
                amount_in,
                min_amount_out,
                *authority_capability,
            ) == Err::<Seq<TransferRequest>, ErrorCode>(e),
        },
{
    match require_role(&pool.authority(), authority_capability) {
        Err(e) => {
            return Err(e);
        },
        Ok(()) => {},
    }
    let (reserve_in, reserve_out) = resolve_direction(pool, source_vault, reserve_a, reserve_b);
    let amount_out = match quote_swap(
        reserve_in,
        reserve_out,
        amount_in,
        pool.fee(),
        min_amount_out,
    ) {
        Err(e) => {
            return Err(e);
        },
        Ok(amount_out) => amount_out,
    };
    let mut plan: Vec<TransferRequest> = Vec::new();
    plan.push(
        TransferRequest {
            from: *source_vault,
            to: *destination_vault,
            authority: authority_capability.identity,
            amount: amount_out,
        },
    );
    assert(plan@ =~= seq![
        TransferRequest {
            from: *source_vault,
            to: *destination_vault,
            authority: authority_capability.identity,
            amount: amount_out,
        },
    ]);
    Ok(plan)
}

/// Plans a withdrawal of `amount_a` and `amount_b` from the pool's vaults
/// into the user's accounts.
pub fn do_withdraw(
    pool: &Pool,
    user_token_a: &AccountId,
    user_token_b: &AccountId,
    amount_a: u64,
    amount_b: u64,
    authority_capability: &Capability,
) -> (result: Result<Vec<TransferRequest>, ErrorCode>)
    ensures
        match result {
            Ok(plan) => withdraw_outcome(
                pool@,
                *user_token_a,
                *user_token_b,
                amount_a,
                amount_b,
                *authority_capability,
            ) == Ok::<Seq<TransferRequest>, ErrorCode>(plan@),
            Err(e) => withdraw_outcome(
                pool@,
                *user_token_a,
                *user_token_b,
                amount_a,
                amount_b,
                *authority_capability,
            ) == Err::<Seq<TransferRequest>, ErrorCode>(e),
        },
{
    match require_role(&pool.authority(), authority_capability) {
        Err(e) => {
            return Err(e);
        },
        Ok(()) => {},
    }
    let mut plan: Vec<TransferRequest> = Vec::new();
    plan.push(
        TransferRequest {
            from: pool.token_a_vault(),
            to: *user_token_a,
            authority: authority_capability.identity,
            amount: amount_a,
        },
    );
    plan.push(
        TransferRequest {
            from: pool.token_b_vault(),
            to: *user_token_b,
            authority: authority_capability.identity,
            amount: amount_b,
        },
    );
    assert(plan@ =~= seq![
        TransferRequest {
            from: pool@.token_a_vault,
            to: *user_token_a,
            authority: authority_capability.identity,
            amount: amount_a,
        },
        TransferRequest {
            from: pool@.token_b_vault,
            to: *user_token_b,
            authority: authority_capability.identity,
            amount: amount_b,
        },
    ]);
    Ok(plan)
}

} // verus!
