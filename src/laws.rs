//! Properties that hold across operations of the curve.
use vstd::prelude::*;

use crate::curve::{BondingCurve, BuyTokens, Phase, SellTokens};
use crate::errors::BondingCurveError;
use crate::pricing::{buy_output, buy_quotable, sell_output, sell_quotable};

verus! {

/// Buying `sol_in` against reserves `(s, t)` and then selling the exact
/// output back against the reserves the buy left returns no more SOL than
/// was paid, whenever the buy kept the reserve product exact, that is when
/// `s + sol_in` divides `s × t`; the round trip then returns exactly
/// `sol_in`.
pub proof fn lemma_round_trip_not_profitable(sol_in: u64, s: u64, t: u64)
    requires
        s > 0,
        t > 0,
        buy_quotable(sol_in as int, s as int, t as int),
        (s as int * t as int) % (s as int + sol_in as int) == 0,
    ensures
        ({
            let out = buy_output(sol_in as int, s as int, t as int);
            &&& sell_quotable(out, s + sol_in, t - out)
            &&& sell_output(out, s + sol_in, t - out) == sol_in
        }),
{
    let big_s = s as int + sol_in as int;
    let k = s as int * t as int;
    let out = buy_output(sol_in as int, s as int, t as int);
    let rest = k / big_s;
    crate::pricing::lemma_output_within_reserve(sol_in as int, s as int, t as int);
    assert(t - out == rest);
    vstd::arithmetic::div_mod::lemma_fundamental_div_mod(k, big_s);
    assert(big_s * rest == k);
    assert(big_s * rest == rest * big_s) by (nonlinear_arith);
    assert((t - out) + out == t);
    assert(big_s * (t - out) == s as int * t as int);
    vstd::arithmetic::div_mod::lemma_div_by_multiple(s as int, t as int);
    assert((big_s * (t - out)) / ((t - out) + out) == s);
    if sol_in == 0 {
        assert(s as int * t as int == t as int * s as int) by (nonlinear_arith);
        vstd::arithmetic::div_mod::lemma_div_by_multiple(t as int, s as int);
        assert(out == 0);
    }
    assert(sell_output(out, big_s, t - out) == big_s - s);
}

/// Where `s + sol_in` does not divide `s × t`, the rounded-down token
/// reserve left by the buy makes the same round trip return more SOL than
/// was paid.
pub proof fn lemma_round_trip_gains_when_product_inexact(sol_in: u64, s: u64, t: u64)
    requires
        s > 0,
        t > 0,
        buy_quotable(sol_in as int, s as int, t as int),
        (s as int * t as int) % (s as int + sol_in as int) != 0,
    ensures
        ({
            let out = buy_output(sol_in as int, s as int, t as int);
            sell_output(out, s + sol_in, t - out) > sol_in
        }),
{
    let big_s = s as int + sol_in as int;
    let k = s as int * t as int;
    let out = buy_output(sol_in as int, s as int, t as int);
    let rest = k / big_s;
    crate::pricing::lemma_output_within_reserve(sol_in as int, s as int, t as int);
    assert(t - out == rest);
    vstd::arithmetic::div_mod::lemma_fundamental_div_mod(k, big_s);
    assert(big_s * rest == rest * big_s) by (nonlinear_arith);
    assert((t - out) + out == t);
    assert(big_s * (t - out) < k);
    assert(k == t as int * s as int) by (nonlinear_arith)
        requires
            k == s as int * t as int,
    ;
    vstd::arithmetic::div_mod::lemma_multiply_divide_lt(big_s * (t - out), t as int, s as int);
    assert((big_s * (t - out)) / ((t - out) + out) < s);
}

/// Whatever the rounding, buying `sol_in` against reserves `(s, t)` and
/// selling the exact output back against the reserves the buy left gains
/// at most one unit of SOL, as long as the grown SOL reserve `s + sol_in`
/// does not exceed the token reserve `t`.
pub proof fn lemma_round_trip_gain_at_most_one(sol_in: u64, s: u64, t: u64)
    requires
        s > 0,
        t > 0,
        buy_quotable(sol_in as int, s as int, t as int),
        s as int + sol_in as int <= t as int,
    ensures
        ({
            let out = buy_output(sol_in as int, s as int, t as int);
            sell_output(out, s + sol_in, t - out) <= sol_in + 1
        }),
{
    let big_s = s as int + sol_in as int;
    let k = s as int * t as int;
    let out = buy_output(sol_in as int, s as int, t as int);
    let rest = k / big_s;
    crate::pricing::lemma_output_within_reserve(sol_in as int, s as int, t as int);
    assert(t - out == rest);
    vstd::arithmetic::div_mod::lemma_fundamental_div_mod(k, big_s);
    vstd::arithmetic::div_mod::lemma_mod_pos_bound(k, big_s);
    assert(big_s * rest == rest * big_s) by (nonlinear_arith);
    assert(big_s * rest > k - big_s);
    assert(k - t as int == (s as int - 1) * t as int) by (nonlinear_arith)
        requires
            k == s as int * t as int,
    ;
    assert((t - out) + out == t);
    assert(big_s * (t - out) >= (s as int - 1) * t as int);
    assert(0 <= (s as int - 1) * t as int) by (nonlinear_arith)
        requires
            s >= 1,
            t >= 1,
    ;
    vstd::arithmetic::div_mod::lemma_div_is_ordered((s as int - 1) * t as int, big_s * (t - out), t as int);
    vstd::arithmetic::div_mod::lemma_div_by_multiple(s as int - 1, t as int);
    assert((big_s * (t - out)) / ((t - out) + out) >= s as int - 1);
}

/// A curve that is not trading rejects every buy and every sell with
/// `TradingClosed`, whatever the amounts.
pub proof fn lemma_closed_curve_rejects_trades(c: BondingCurve, b: BuyTokens, s: SellTokens)
    requires
        c.phase != Phase::Trading,
    ensures
        c.buy_plan(b) == Err::<crate::curve::TokensPurchased, BondingCurveError>(
            BondingCurveError::TradingClosed,
        ),
        c.sell_plan(s) == Err::<crate::curve::TokensSold, BondingCurveError>(
            BondingCurveError::TradingClosed,
        ),
{
}

/// In every accepted trade the fee buckets and the net amount add up to
/// the gross amount: the SOL paid in for a buy, the SOL taken out for a sell.
pub proof fn lemma_trade_fees_add_up(c: BondingCurve, b: BuyTokens, s: SellTokens)
    requires
        c.wf(),
    ensures
        c.buy_plan(b) matches Ok(p) ==> p.fees.total_fees() + p.fees.net_amount == p.sol_amount,
        c.sell_plan(s) matches Ok(p) ==> p.fees.total_fees() + p.fees.net_amount == p.sol_out,
{
    if c.buy_plan(b) is Ok {
        crate::curve::lemma_buy_keeps_invariant(c, b);
    }
    if c.sell_plan(s) is Ok {
        crate::curve::lemma_sell_keeps_invariant(c, s);
    }
}

/// Applying an accepted buy or sell never moves the phase backwards, and
/// never sells more tokens than the virtual supply.
pub proof fn lemma_trades_keep_phase_order_and_supply(c: BondingCurve, b: BuyTokens, s: SellTokens)
    requires
        c.wf(),
    ensures
        c.buy_plan(b) matches Ok(p) ==> c.phase.rank() <= c.after_buy(p).phase.rank()
            && c.after_buy(p).tokens_sold <= c.after_buy(p).virtual_token_reserves,
        c.sell_plan(s) matches Ok(p) ==> c.phase.rank() <= c.after_sell(p).phase.rank()
            && c.after_sell(p).tokens_sold <= c.after_sell(p).virtual_token_reserves,
{
    if c.buy_plan(b) is Ok {
        crate::curve::lemma_buy_keeps_invariant(c, b);
    }
    if c.sell_plan(s) is Ok {
        crate::curve::lemma_sell_keeps_invariant(c, s);
    }
}

} // verus!
