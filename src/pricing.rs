//! Constant-product pricing.
//!
//! The new reserve on the side that receives the output is the product of
//! the reserves divided by the grown input reserve, rounded down; the
//! output is what the reserve shrinks by.
use vstd::prelude::*;

use crate::errors::BondingCurveError;

verus! {

/// Tokens a buy of `sol_in` takes out of reserves `(sol_reserves, token_reserves)`.
pub open spec fn buy_output(sol_in: int, sol_reserves: int, token_reserves: int) -> int {
    token_reserves - (sol_reserves * token_reserves) / (sol_reserves + sol_in)
}

/// SOL a sell of `token_in` takes out of reserves `(sol_reserves, token_reserves)`.
pub open spec fn sell_output(token_in: int, sol_reserves: int, token_reserves: int) -> int {
    sol_reserves - (sol_reserves * token_reserves) / (token_reserves + token_in)
}

/// A buy quote exists when the grown SOL reserve is positive and fits in
/// 64 bits and the output is strictly positive.
pub open spec fn buy_quotable(sol_in: int, sol_reserves: int, token_reserves: int) -> bool {
    &&& 0 < sol_reserves + sol_in <= u64::MAX
    &&& buy_output(sol_in, sol_reserves, token_reserves) > 0
}

/// A sell quote exists when the grown token reserve is positive and fits
/// in 64 bits and the output is strictly positive.
pub open spec fn sell_quotable(token_in: int, sol_reserves: int, token_reserves: int) -> bool {
    &&& 0 < token_reserves + token_in <= u64::MAX
    &&& sell_output(token_in, sol_reserves, token_reserves) > 0
}

/// The quoted output is never more than the reserve it is taken from.
pub proof fn lemma_output_within_reserve(input: int, paid_reserve: int, out_reserve: int)
    requires
        0 <= input,
        0 <= paid_reserve,
        0 <= out_reserve,
        paid_reserve + input > 0,
    ensures
        0 <= (paid_reserve * out_reserve) / (paid_reserve + input) <= out_reserve,
{
    let d = paid_reserve + input;
    assert(paid_reserve * out_reserve <= d * out_reserve) by (nonlinear_arith)
        requires
            0 <= paid_reserve <= d,
            0 <= out_reserve,
    ;
    assert(0 <= paid_reserve * out_reserve) by (nonlinear_arith)
        requires
            0 <= paid_reserve,
            0 <= out_reserve,
    ;
    vstd::arithmetic::div_mod::lemma_div_is_ordered(paid_reserve * out_reserve, d * out_reserve, d);
    vstd::arithmetic::div_mod::lemma_div_by_multiple(out_reserve, d);
    vstd::arithmetic::div_mod::lemma_div_pos_is_pos(paid_reserve * out_reserve, d);
}

/// The product of two 64-bit reserves fits in 128 bits.
pub proof fn lemma_reserve_product_fits(a: u64, b: u64)
    ensures
        0 <= a as int * b as int <= u128::MAX,
{
    assert(0 <= a as int * b as int <= u64::MAX as int * u64::MAX as int) by (nonlinear_arith)
        requires
            0 <= a <= u64::MAX,
            0 <= b <= u64::MAX,
    ;
}

/// Tokens bought by `sol_in` against the given reserves.
///
/// Fails with `InvalidComputation` when the grown SOL reserve would be
/// zero or leave 64 bits, or when the output rounds to nothing.
pub fn calculate_buy_tokens(sol_in: u64, sol_reserves: u64, token_reserves: u64) -> (r: Result<
    u64,
    BondingCurveError,
>)
    ensures
        match r {
            Ok(out) => buy_quotable(sol_in as int, sol_reserves as int, token_reserves as int)
                && out == buy_output(sol_in as int, sol_reserves as int, token_reserves as int),
            Err(e) => !buy_quotable(sol_in as int, sol_reserves as int, token_reserves as int)
                && e == BondingCurveError::InvalidComputation,
        },
{
    let new_sol_reserves = match sol_reserves.checked_add(sol_in) {
        Some(v) => v,
        None => return Err(BondingCurveError::InvalidComputation),
    };
    if new_sol_reserves == 0 {
        return Err(BondingCurveError::InvalidComputation);
    }
    proof {
        lemma_reserve_product_fits(sol_reserves, token_reserves);
    }
    let k: u128 = (sol_reserves as u128) * (token_reserves as u128);
    let new_token_reserves: u128 = k / (new_sol_reserves as u128);
    proof {
        lemma_output_within_reserve(sol_in as int, sol_reserves as int, token_reserves as int);
    }
    let tokens_out: u64 = token_reserves - (new_token_reserves as u64);
    if tokens_out == 0 {
        return Err(BondingCurveError::InvalidComputation);
    }
    Ok(tokens_out)
}

/// SOL returned for `token_in` against the given reserves.
///
/// Fails with `InvalidComputation` when the grown token reserve would be
/// zero or leave 64 bits, or when the output rounds to nothing.
pub fn calculate_sell_sol(token_in: u64, sol_reserves: u64, token_reserves: u64) -> (r: Result<
    u64,
    BondingCurveError,
>)
    ensures
        match r {
            Ok(out) => sell_quotable(token_in as int, sol_reserves as int, token_reserves as int)
                && out == sell_output(token_in as int, sol_reserves as int, token_reserves as int),
            Err(e) => !sell_quotable(token_in as int, sol_reserves as int, token_reserves as int)
                && e == BondingCurveError::InvalidComputation,
        },
{
    let new_token_reserves = match token_reserves.checked_add(token_in) {
        Some(v) => v,
        None => return Err(BondingCurveError::InvalidComputation),
    };
    if new_token_reserves == 0 {
        return Err(BondingCurveError::InvalidComputation);
    }
    proof {
        lemma_reserve_product_fits(sol_reserves, token_reserves);
    }
    let k: u128 = (sol_reserves as u128) * (token_reserves as u128);
    let new_sol_reserves: u128 = k / (new_token_reserves as u128);
    proof {
        lemma_output_within_reserve(token_in as int, token_reserves as int, sol_reserves as int);
        assert(token_reserves as int * sol_reserves as int == sol_reserves as int * token_reserves as int) by (nonlinear_arith);
    }
    let sol_out: u64 = sol_reserves - (new_sol_reserves as u64);
    if sol_out == 0 {
        return Err(BondingCurveError::InvalidComputation);
    }
    Ok(sol_out)
}

} // verus!
