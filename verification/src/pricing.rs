//! The fee-inclusive constant-product pricing rule.
//!
//! A swap first takes the fee from the input, rounding the remainder down, and
//! then prices that remainder against the two reserves, rounding down again.
//! Both products are formed in 128 bits and narrowed after the final division.

use crate::error::ErrorCode;
use vstd::arithmetic::div_mod::{
    lemma_div_is_ordered, lemma_div_multiples_vanish, lemma_fundamental_div_mod,
    lemma_mod_bound, lemma_multiply_divide_le, lemma_multiply_divide_lt,
};
use vstd::prelude::*;

verus! {

/// Scale of the fee: a fee of `fee_bps` leaves `FEE_DENOMINATOR - fee_bps`
/// parts in every `FEE_DENOMINATOR` of the input.
pub const FEE_DENOMINATOR: u64 = 1000;

/// What remains of `amount_in` once the fee is taken, rounded down.
pub open spec fn amount_after_fee(amount_in: nat, fee_bps: nat) -> nat
    recommends
        fee_bps <= FEE_DENOMINATOR,
{
    (amount_in * (FEE_DENOMINATOR - fee_bps) / (FEE_DENOMINATOR as int)) as nat
}

/// The constant-product rule for an input that already had the fee taken,
/// rounded down.
pub open spec fn constant_product_output(
    reserve_in: nat,
    reserve_out: nat,
    effective_in: nat,
) -> nat
    recommends
        reserve_in + effective_in > 0,
{
    effective_in * reserve_out / (reserve_in + effective_in)
}

/// The amount a swap of `amount_in` pays out at fee `fee_bps`.
pub open spec fn swap_output(reserve_in: nat, reserve_out: nat, amount_in: nat, fee_bps: nat) -> nat
    recommends
        fee_bps <= FEE_DENOMINATOR,
        reserve_in + amount_after_fee(amount_in, fee_bps) > 0,
{
    constant_product_output(reserve_in, reserve_out, amount_after_fee(amount_in, fee_bps))
}

/// What a quote says: the amount to pay out, or `SlippageExceeded` when that
/// amount is below the floor.
pub open spec fn quote_outcome(
    reserve_in: nat,
    reserve_out: nat,
    amount_in: nat,
    fee_bps: nat,
    min_amount_out: nat,
) -> Result<u64, ErrorCode> {
    let amount_out = swap_output(reserve_in, reserve_out, amount_in, fee_bps);
    if amount_out < min_amount_out {
        Err(ErrorCode::SlippageExceeded)
    } else {
        Ok(amount_out as u64)
    }
}

/// Taking the fee never adds to the input.
pub proof fn lemma_fee_keeps_at_most_input(amount_in: nat, fee_bps: nat)
    requires
        fee_bps <= FEE_DENOMINATOR,
    ensures
        amount_after_fee(amount_in, fee_bps) <= amount_in,
        amount_in * (FEE_DENOMINATOR - fee_bps) >= 0,
{
    let kept = FEE_DENOMINATOR - fee_bps;
    assert(0 <= amount_in * kept <= amount_in * 1000) by (nonlinear_arith)
        requires
            0 <= kept <= 1000,
            amount_in >= 0,
    ;
}

/// The remainder after the fee grows with the input.
pub proof fn lemma_after_fee_grows_with_input(amount_lo: nat, amount_hi: nat, fee_bps: nat)
    requires
        amount_lo <= amount_hi,
        fee_bps <= FEE_DENOMINATOR,
    ensures
        amount_after_fee(amount_lo, fee_bps) <= amount_after_fee(amount_hi, fee_bps),
{
    let kept = FEE_DENOMINATOR - fee_bps;
    assert(0 <= amount_lo * kept <= amount_hi * kept) by (nonlinear_arith)
        requires
            0 <= kept,
            0 <= amount_lo <= amount_hi,
    ;
}

/// The remainder after the fee shrinks as the fee grows.
pub proof fn lemma_after_fee_shrinks_with_fee(amount_in: nat, fee_lo: nat, fee_hi: nat)
    requires
        fee_lo <= fee_hi <= FEE_DENOMINATOR,
    ensures
        amount_after_fee(amount_in, fee_hi) <= amount_after_fee(amount_in, fee_lo),
{
    let kept_lo = FEE_DENOMINATOR - fee_lo;
    let kept_hi = FEE_DENOMINATOR - fee_hi;
    assert(0 <= amount_in * kept_hi <= amount_in * kept_lo) by (nonlinear_arith)
        requires
            0 <= kept_hi <= kept_lo,
            amount_in >= 0,
    ;
}

/// The rule never pays out more than the output reserve holds, and strictly
/// less when the input reserve is not empty.
pub proof fn lemma_output_within_reserve(reserve_in: nat, reserve_out: nat, effective_in: nat)
    requires
        reserve_in + effective_in > 0,
    ensures
        constant_product_output(reserve_in, reserve_out, effective_in) <= reserve_out,
        reserve_in > 0 && reserve_out > 0 ==> constant_product_output(
            reserve_in,
            reserve_out,
            effective_in,
        ) < reserve_out,
{
    let divisor = (reserve_in + effective_in) as int;
    let product = (effective_in * reserve_out) as int;
    assert(product <= divisor * reserve_out) by (nonlinear_arith)
        requires
            product == effective_in * reserve_out,
            divisor == reserve_in + effective_in,
    ;
    lemma_multiply_divide_le(product, divisor, reserve_out as int);
    if reserve_in > 0 && reserve_out > 0 {
        assert(product < divisor * reserve_out) by (nonlinear_arith)
            requires
                product == effective_in * reserve_out,
                divisor == reserve_in + effective_in,
                reserve_in > 0,
                reserve_out > 0,
        ;
        lemma_multiply_divide_lt(product, divisor, reserve_out as int);
    }
}

/// The rule pays out no less for a larger input.
pub proof fn lemma_output_grows_with_effective_input(
    reserve_in: nat,
    reserve_out: nat,
    effective_lo: nat,
    effective_hi: nat,
)
    requires
        effective_lo <= effective_hi,
        reserve_in + effective_lo > 0,
    ensures
        constant_product_output(reserve_in, reserve_out, effective_lo) <= constant_product_output(
            reserve_in,
            reserve_out,
            effective_hi,
        ),
{
    let divisor_lo = (reserve_in + effective_lo) as int;
    let divisor_hi = (reserve_in + effective_hi) as int;
    let product_lo = (effective_lo * reserve_out) as int;
    let product_hi = (effective_hi * reserve_out) as int;
    let out_lo = product_lo / divisor_lo;
    lemma_output_within_reserve(reserve_in, reserve_out, effective_lo);
    lemma_fundamental_div_mod(product_lo, divisor_lo);
    lemma_mod_bound(product_lo, divisor_lo);
    assert(0 <= out_lo) by {
        lemma_div_is_ordered(0, product_lo, divisor_lo);
    }
    // out_lo * divisor_lo <= product_lo and out_lo <= reserve_out give
    // out_lo * divisor_hi <= product_hi.
    assert(divisor_hi * out_lo <= product_hi) by (nonlinear_arith)
        requires
            divisor_lo * out_lo <= product_lo,
            0 <= out_lo <= reserve_out,
            divisor_lo == reserve_in + effective_lo,
            divisor_hi == reserve_in + effective_hi,
            product_lo == effective_lo * reserve_out,
            product_hi == effective_hi * reserve_out,
            effective_lo <= effective_hi,
    ;
    lemma_div_is_ordered(divisor_hi * out_lo, product_hi, divisor_hi);
    lemma_div_multiples_vanish(out_lo, divisor_hi);
}

/// A swap never pays out more than the output reserve holds; while the input
/// reserve is not empty it pays out strictly less, so it cannot drain the
/// output reserve.
pub proof fn lemma_swap_output_below_reserve(
    reserve_in: nat,
    reserve_out: nat,
    amount_in: nat,
    fee_bps: nat,
)
    requires
        reserve_in + amount_after_fee(amount_in, fee_bps) > 0,
    ensures
        swap_output(reserve_in, reserve_out, amount_in, fee_bps) <= reserve_out,
        reserve_in > 0 && reserve_out > 0 ==> swap_output(
            reserve_in,
            reserve_out,
            amount_in,
            fee_bps,
        ) < reserve_out,
{
    lemma_output_within_reserve(reserve_in, reserve_out, amount_after_fee(amount_in, fee_bps));
}

/// For fixed reserves and input, a higher fee never raises the output.
pub proof fn lemma_swap_output_shrinks_with_fee(
    reserve_in: nat,
    reserve_out: nat,
    amount_in: nat,
    fee_lo: nat,
    fee_hi: nat,
)
    requires
        fee_lo <= fee_hi <= FEE_DENOMINATOR,
        reserve_in + amount_after_fee(amount_in, fee_hi) > 0,
    ensures
        reserve_in + amount_after_fee(amount_in, fee_lo) > 0,
        swap_output(reserve_in, reserve_out, amount_in, fee_hi) <= swap_output(
            reserve_in,
            reserve_out,
            amount_in,
            fee_lo,
        ),
{
    lemma_after_fee_shrinks_with_fee(amount_in, fee_lo, fee_hi);
    lemma_output_grows_with_effective_input(
        reserve_in,
        reserve_out,
        amount_after_fee(amount_in, fee_hi),
        amount_after_fee(amount_in, fee_lo),
    );
}

/// For fixed reserves and fee, a larger input never lowers the output.
pub proof fn lemma_swap_output_grows_with_input(
    reserve_in: nat,
    reserve_out: nat,
    amount_lo: nat,
    amount_hi: nat,
    fee_bps: nat,
)
    requires
        amount_lo <= amount_hi,
        fee_bps <= FEE_DENOMINATOR,
        reserve_in + amount_after_fee(amount_lo, fee_bps) > 0,
    ensures
        reserve_in + amount_after_fee(amount_hi, fee_bps) > 0,
        swap_output(reserve_in, reserve_out, amount_lo, fee_bps) <= swap_output(
            reserve_in,
            reserve_out,
            amount_hi,
            fee_bps,
        ),
{
    lemma_after_fee_grows_with_input(amount_lo, amount_hi, fee_bps);
    lemma_output_grows_with_effective_input(
        reserve_in,
        reserve_out,
        amount_after_fee(amount_lo, fee_bps),
        amount_after_fee(amount_hi, fee_bps),
    );
}

/// Takes the fee from `amount_in` and rounds what remains down.
pub fn apply_fee(amount_in: u64, fee_bps: u64) -> (remaining: u64)
    requires
        fee_bps < FEE_DENOMINATOR,
    ensures
        remaining == amount_after_fee(amount_in as nat, fee_bps as nat),
        remaining <= amount_in,
{
    let kept: u128 = (FEE_DENOMINATOR - fee_bps) as u128;
    proof {
        lemma_fee_keeps_at_most_input(amount_in as nat, fee_bps as nat);
        assert(amount_in * kept <= amount_in * 1000) by (nonlinear_arith)
            requires
                0 <= kept <= 1000,
        ;
    }
    let remaining: u128 = (amount_in as u128) * kept / (FEE_DENOMINATOR as u128);
    remaining as u64
}

/// Prices a swap of `amount_in` against the two reserves at fee `fee_bps`
/// and holds the result to the caller's floor.
///
/// Returns the amount to pay out, or `SlippageExceeded` when that amount is
/// below `min_amount_out`. The reserves are read, never changed.
pub fn quote_swap(
    reserve_in: u64,
    reserve_out: u64,
    amount_in: u64,
    fee_bps: u64,
    min_amount_out: u64,
) -> (result: Result<u64, ErrorCode>)
    requires
        fee_bps < FEE_DENOMINATOR,
        reserve_in + amount_after_fee(amount_in as nat, fee_bps as nat) > 0,
    ensures
        result == quote_outcome(
            reserve_in as nat,
            reserve_out as nat,
            amount_in as nat,
            fee_bps as nat,
            min_amount_out as nat,
        ),
        swap_output(reserve_in as nat, reserve_out as nat, amount_in as nat, fee_bps as nat)
            <= reserve_out,
        reserve_in > 0 && reserve_out > 0 ==> swap_output(
            reserve_in as nat,
            reserve_out as nat,
            amount_in as nat,
            fee_bps as nat,
        ) < reserve_out,
{
    let effective: u128 = apply_fee(amount_in, fee_bps) as u128;
    proof {
        assert(effective * reserve_out <= 0xFFFF_FFFF_FFFF_FFFF * 0xFFFF_FFFF_FFFF_FFFF)
            by (nonlinear_arith)
            requires
                0 <= effective <= 0xFFFF_FFFF_FFFF_FFFF,
                0 <= reserve_out <= 0xFFFF_FFFF_FFFF_FFFF,
        ;
        lemma_output_within_reserve(reserve_in as nat, reserve_out as nat, effective as nat);
    }
    let wide: u128 = effective * (reserve_out as u128) / (reserve_in as u128 + effective);
    let amount_out: u64 = wide as u64;
    if amount_out < min_amount_out {
        Err(ErrorCode::SlippageExceeded)
    } else {
        Ok(amount_out)
    }
}

/// With a floor of zero a quote never fails, and its result is a function of
/// the reserves, the input and the fee alone: two calls on the same inputs
/// cannot differ.
pub proof fn lemma_quote_is_deterministic(
    reserve_in: u64,
    reserve_out: u64,
    amount_in: u64,
    fee_bps: u64,
    first: Result<u64, ErrorCode>,
    second: Result<u64, ErrorCode>,
)
    requires
        call_ensures(quote_swap, (reserve_in, reserve_out, amount_in, fee_bps, 0u64), first),
        call_ensures(quote_swap, (reserve_in, reserve_out, amount_in, fee_bps, 0u64), second),
    ensures
        first == second,
        first == Ok::<u64, ErrorCode>(
            swap_output(reserve_in as nat, reserve_out as nat, amount_in as nat, fee_bps as nat) as u64,
        ),
{
}

} // verus!
