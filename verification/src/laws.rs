use vstd::prelude::*;

use vstd::arithmetic::div_mod::{
    lemma_div_by_multiple, lemma_div_is_ordered, lemma_div_of0, lemma_div_pos_is_pos,
    lemma_fundamental_div_mod, lemma_fundamental_div_mod_converse, lemma_mod_bound,
};
use vstd::arithmetic::mul::{
    lemma_mul_basics, lemma_mul_by_zero_is_zero, lemma_mul_equality_converse,
    lemma_mul_is_commutative, lemma_mul_is_distributive_add, lemma_mul_is_distributive_sub,
    lemma_mul_nonnegative,
};

use crate::account::{BondingCurve, Global};
use crate::error::ErrorCode;
use crate::pricing::{
    buy_result, lemma_fee_lt_amount, lemma_fee_split, lemma_swap_quotient_bounds, sell_result,
    spec_fee, BuyOutcome, SellOutcome,
};

verus! {

/// A graduated curve is absorbing: both trade directions are rejected
/// outright, whatever the amounts.
pub proof fn lemma_complete_curve_rejects_trades(
    c: BondingCurve,
    g: Global,
    amount: u64,
    minimum: u64,
)
    requires
        c.complete,
    ensures
        buy_result(c, g, amount, minimum) == Err::<(BondingCurve, BuyOutcome), ErrorCode>(
            ErrorCode::BondingCurveComplete,
        ),
        sell_result(c, g, amount, minimum) == Err::<(BondingCurve, SellOutcome), ErrorCode>(
            ErrorCode::BondingCurveComplete,
        ),
{
}

/// How one successful buy moves every balance: the fee components are
/// the independent floor shares of the paid-in amount; the real token
/// reserves drop by exactly what the trader and the reserve received;
/// the real native reserves grow by exactly what stayed with the curve;
/// and the curve completes precisely when the new real native balance
/// reaches the graduation threshold.
pub proof fn lemma_buy_ok_fields(c: BondingCurve, g: Global, sol_amount: u64, min_token_output: u64)
    requires
        g.wf(),
        buy_result(c, g, sol_amount, min_token_output) is Ok,
    ensures
        ({
            let step = buy_result(c, g, sol_amount, min_token_output)->Ok_0;
            let next = step.0;
            let outcome = step.1;
            &&& c.complete == false
            &&& sol_amount > 0
            &&& outcome.platform_fee == spec_fee(
                sol_amount as int,
                g.platform_trade_fee_bps as int,
            )
            &&& outcome.reserve_fee == spec_fee(sol_amount as int, g.reserve_trade_fee_bps as int)
            &&& outcome.sol_amount_after_fee == sol_amount - spec_fee(
                sol_amount as int,
                g.total_fee_bps(),
            )
            &&& outcome.sol_amount_after_fee > 0
            &&& outcome.tokens_out >= min_token_output
            &&& outcome.reserve_tokens_out + outcome.tokens_out <= c.real_token_reserves
            &&& next.real_token_reserves == c.real_token_reserves - outcome.reserve_tokens_out
                - outcome.tokens_out
            &&& next.real_sol_reserves == c.real_sol_reserves + outcome.reserve_fee
                + outcome.sol_amount_after_fee
            &&& next.virtual_sol_reserves == c.virtual_sol_reserves + outcome.reserve_fee
                + outcome.sol_amount_after_fee
            &&& next.token_total_supply == c.token_total_supply
            &&& next.mint == c.mint
            &&& next.creator == c.creator
            &&& next.complete == (next.real_sol_reserves >= g.graduation_threshold)
        }),
{
    let pb: int = g.platform_trade_fee_bps as int;
    let rb: int = g.reserve_trade_fee_bps as int;
    let rf: int = spec_fee(sol_amount as int, rb);
    let fee: int = spec_fee(sol_amount as int, g.total_fee_bps());
    let net: int = sol_amount - fee;
    assert(sol_amount > 0);
    lemma_fee_lt_amount(sol_amount as int, g.total_fee_bps());
    lemma_mul_nonnegative(sol_amount as int, pb);
    lemma_mul_nonnegative(sol_amount as int, rb);
    lemma_mul_is_distributive_add(sol_amount as int, pb, rb);
    lemma_div_is_ordered(sol_amount as int * pb, sol_amount as int * (pb + rb), 10000);
    lemma_div_is_ordered(sol_amount as int * rb, sol_amount as int * (pb + rb), 10000);
    if rf > 0 {
        let vn1: int = c.virtual_sol_reserves + rf;
        lemma_swap_quotient_bounds(c.virtual_sol_reserves, c.virtual_token_reserves, vn1);
        let vt1: int = (c.virtual_sol_reserves as int * c.virtual_token_reserves as int) / vn1;
        let vs1_u: u64 = vn1 as u64;
        let vt1_u: u64 = vt1 as u64;
        assert(vs1_u as int == vn1);
        assert(vt1_u as int == vt1);
        lemma_swap_quotient_bounds(vs1_u, vt1_u, vn1 + net);
    } else {
        lemma_swap_quotient_bounds(
            c.virtual_sol_reserves,
            c.virtual_token_reserves,
            c.virtual_sol_reserves as int + net,
        );
    }
}

/// Token conservation across a buy: whatever was distributed before,
/// plus what this buy hands to the trader and the reserve, still
/// accounts for the fixed supply, and the real token reserves stay
/// within it.
pub proof fn lemma_buy_token_conservation(
    c: BondingCurve,
    g: Global,
    sol_amount: u64,
    min_token_output: u64,
    distributed: int,
)
    requires
        g.wf(),
        buy_result(c, g, sol_amount, min_token_output) is Ok,
        c.real_token_reserves + distributed == c.token_total_supply,
        c.real_token_reserves <= c.token_total_supply,
    ensures
        ({
            let step = buy_result(c, g, sol_amount, min_token_output)->Ok_0;
            let next = step.0;
            let outcome = step.1;
            &&& next.real_token_reserves + (distributed + outcome.tokens_out
                + outcome.reserve_tokens_out) == next.token_total_supply
            &&& next.real_token_reserves <= next.token_total_supply
            &&& next.token_total_supply == c.token_total_supply
        }),
{
    lemma_buy_ok_fields(c, g, sol_amount, min_token_output);
}

/// How one successful sell moves every balance: fees are the
/// independent floor shares of the gross proceeds; the sold tokens come
/// back to the curve, less what the reserve buyback took; the real
/// native reserves drop by the gross proceeds less the reserve fee,
/// which stayed in the curve to pay for the buyback. A sell never
/// changes the completion flag.
pub proof fn lemma_sell_ok_fields(
    c: BondingCurve,
    g: Global,
    token_amount: u64,
    min_sol_output: u64,
)
    requires
        g.wf(),
        sell_result(c, g, token_amount, min_sol_output) is Ok,
    ensures
        ({
            let step = sell_result(c, g, token_amount, min_sol_output)->Ok_0;
            let next = step.0;
            let outcome = step.1;
            &&& c.complete == false
            &&& token_amount > 0
            &&& outcome.sol_out_gross <= c.virtual_sol_reserves
            &&& outcome.platform_fee == spec_fee(
                outcome.sol_out_gross as int,
                g.platform_trade_fee_bps as int,
            )
            &&& outcome.reserve_fee == spec_fee(
                outcome.sol_out_gross as int,
                g.reserve_trade_fee_bps as int,
            )
            &&& outcome.sol_out_net == outcome.sol_out_gross - spec_fee(
                outcome.sol_out_gross as int,
                g.total_fee_bps(),
            )
            &&& outcome.sol_out_net >= min_sol_output
            &&& outcome.reserve_fee <= outcome.sol_out_gross
            &&& outcome.reserve_tokens_out <= c.real_token_reserves + token_amount
            &&& next.real_token_reserves == c.real_token_reserves + token_amount
                - outcome.reserve_tokens_out
            &&& next.real_sol_reserves == c.real_sol_reserves - (outcome.sol_out_gross
                - outcome.reserve_fee)
            &&& next.token_total_supply == c.token_total_supply
            &&& next.mint == c.mint
            &&& next.creator == c.creator
            &&& next.complete == false
        }),
{
    let vt1: int = c.virtual_token_reserves + token_amount;
    lemma_mul_is_commutative(c.virtual_sol_reserves as int, c.virtual_token_reserves as int);
    lemma_swap_quotient_bounds(c.virtual_token_reserves, c.virtual_sol_reserves, vt1);
    let vn1: int = (c.virtual_token_reserves as int * c.virtual_sol_reserves as int) / vt1;
    let gross: int = c.virtual_sol_reserves - vn1;
    if gross == 0 {
        lemma_mul_by_zero_is_zero(g.total_fee_bps());
        lemma_mul_by_zero_is_zero(g.platform_trade_fee_bps as int);
        lemma_mul_by_zero_is_zero(g.reserve_trade_fee_bps as int);
        lemma_div_of0(10000);
    } else {
        lemma_fee_lt_amount(gross, g.total_fee_bps());
    }
    lemma_fee_split(gross, g.reserve_trade_fee_bps as int, g.platform_trade_fee_bps as int);
    let rf: int = spec_fee(gross, g.reserve_trade_fee_bps as int);
    if rf > 0 {
        let vn1_u: u64 = vn1 as u64;
        let vt1_u: u64 = vt1 as u64;
        assert(vn1_u as int == vn1);
        assert(vt1_u as int == vt1);
        lemma_swap_quotient_bounds(vn1_u, vt1_u, vn1 + rf);
    }
}

/// Token conservation across a sell: the tokens the trader returns
/// rejoin the reserves, less what the buyback handed to the reserve
/// vault, and the fixed supply stays accounted for.
pub proof fn lemma_sell_token_conservation(
    c: BondingCurve,
    g: Global,
    token_amount: u64,
    min_sol_output: u64,
    distributed: int,
)
    requires
        g.wf(),
        sell_result(c, g, token_amount, min_sol_output) is Ok,
        c.real_token_reserves + distributed == c.token_total_supply,
        c.real_token_reserves <= c.token_total_supply,
        token_amount <= distributed,
    ensures
        ({
            let step = sell_result(c, g, token_amount, min_sol_output)->Ok_0;
            let next = step.0;
            let outcome = step.1;
            &&& next.real_token_reserves + (distributed - token_amount
                + outcome.reserve_tokens_out) == next.token_total_supply
            &&& next.real_token_reserves <= next.token_total_supply
            &&& next.token_total_supply == c.token_total_supply
        }),
{
    lemma_sell_ok_fields(c, g, token_amount, min_sol_output);
}

/// The value a buy moves never exceeds the value paid in: the two fee
/// legs and the trader's net swap amount fit inside the paid-in
/// amount.
pub proof fn lemma_buy_value_bounded(
    c: BondingCurve,
    g: Global,
    sol_amount: u64,
    min_token_output: u64,
)
    requires
        g.wf(),
        buy_result(c, g, sol_amount, min_token_output) is Ok,
    ensures
        ({
            let outcome = buy_result(c, g, sol_amount, min_token_output)->Ok_0.1;
            &&& outcome.platform_fee + outcome.reserve_fee + outcome.sol_amount_after_fee
                <= sol_amount
            &&& outcome.sol_amount_after_fee + outcome.reserve_fee <= sol_amount
        }),
{
    lemma_buy_ok_fields(c, g, sol_amount, min_token_output);
    lemma_fee_split(
        sol_amount as int,
        g.platform_trade_fee_bps as int,
        g.reserve_trade_fee_bps as int,
    );
}

/// With no fees and no rounding loss, a buy preserves the
/// constant product of the virtual reserves exactly.
pub proof fn lemma_buy_constant_product(
    c: BondingCurve,
    g: Global,
    sol_amount: u64,
    min_token_output: u64,
)
    requires
        g.wf(),
        g.platform_trade_fee_bps == 0,
        g.reserve_trade_fee_bps == 0,
        buy_result(c, g, sol_amount, min_token_output) is Ok,
        (c.virtual_sol_reserves * c.virtual_token_reserves) % (c.virtual_sol_reserves
            + sol_amount) == 0,
    ensures
        ({
            let next = buy_result(c, g, sol_amount, min_token_output)->Ok_0.0;
            next.virtual_sol_reserves * next.virtual_token_reserves == c.virtual_sol_reserves
                * c.virtual_token_reserves
        }),
{
    let k: int = c.virtual_sol_reserves as int * c.virtual_token_reserves as int;
    let vn2: int = c.virtual_sol_reserves + sol_amount;
    lemma_mul_by_zero_is_zero(sol_amount as int);
    lemma_div_of0(10000);
    lemma_swap_quotient_bounds(c.virtual_sol_reserves, c.virtual_token_reserves, vn2);
    lemma_fundamental_div_mod(k, vn2);
}

/// With no fees and no rounding loss, a sell preserves the
/// constant product of the virtual reserves exactly.
pub proof fn lemma_sell_constant_product(
    c: BondingCurve,
    g: Global,
    token_amount: u64,
    min_sol_output: u64,
)
    requires
        g.wf(),
        g.platform_trade_fee_bps == 0,
        g.reserve_trade_fee_bps == 0,
        sell_result(c, g, token_amount, min_sol_output) is Ok,
        (c.virtual_sol_reserves * c.virtual_token_reserves) % (c.virtual_token_reserves
            + token_amount) == 0,
    ensures
        ({
            let next = sell_result(c, g, token_amount, min_sol_output)->Ok_0.0;
            next.virtual_sol_reserves * next.virtual_token_reserves == c.virtual_sol_reserves
                * c.virtual_token_reserves
        }),
{
    let k: int = c.virtual_sol_reserves as int * c.virtual_token_reserves as int;
    let vt1: int = c.virtual_token_reserves + token_amount;
    lemma_mul_is_commutative(c.virtual_sol_reserves as int, c.virtual_token_reserves as int);
    lemma_swap_quotient_bounds(c.virtual_token_reserves, c.virtual_sol_reserves, vt1);
    lemma_fundamental_div_mod(k, vt1);
    let vn1: int = k / vt1;
    let gross: int = c.virtual_sol_reserves - vn1;
    if gross == 0 {
        lemma_mul_by_zero_is_zero(g.total_fee_bps());
    } else {
        lemma_fee_lt_amount(gross, g.total_fee_bps());
    }
    lemma_mul_by_zero_is_zero(gross);
    lemma_div_of0(10000);
    lemma_mul_is_commutative(vt1, vn1);
}

/// A buy followed by a sell of exactly the tokens received, with no
/// fees and no rounding loss on the buy, returns exactly the native
/// amount paid in and restores the curve to its prior state: rounding
/// never creates value on such a pair.
pub proof fn lemma_buy_sell_round_trip(c: BondingCurve, g: Global, sol_amount: u64)
    requires
        g.wf(),
        g.platform_trade_fee_bps == 0,
        g.reserve_trade_fee_bps == 0,
        c.virtual_token_reserves > 0,
        buy_result(c, g, sol_amount, 0) is Ok,
        buy_result(c, g, sol_amount, 0)->Ok_0.0.complete == false,
        (c.virtual_sol_reserves * c.virtual_token_reserves) % (c.virtual_sol_reserves
            + sol_amount) == 0,
    ensures
        ({
            let step = buy_result(c, g, sol_amount, 0)->Ok_0;
            let c1 = step.0;
            let bought = step.1;
            let second = sell_result(c1, g, bought.tokens_out, 0);
            &&& second is Ok
            &&& second->Ok_0.1.sol_out_net == sol_amount
            &&& second->Ok_0.0 == c
        }),
{
    let vn: int = c.virtual_sol_reserves as int;
    let vt: int = c.virtual_token_reserves as int;
    let k: int = vn * vt;
    let vn2: int = vn + sol_amount;
    lemma_mul_by_zero_is_zero(sol_amount as int);
    lemma_div_of0(10000);
    lemma_swap_quotient_bounds(c.virtual_sol_reserves, c.virtual_token_reserves, vn2);
    lemma_fundamental_div_mod(k, vn2);
    let vt2: int = k / vn2;
    let bought: int = vt - vt2;
    assert(vn2 * vt2 == k);
    if vt2 == vt {
        lemma_mul_is_commutative(vn2, vt);
        lemma_mul_is_commutative(vn, vt);
        lemma_mul_equality_converse(vt, vn2, vn);
        assert(false);
    }
    assert(bought >= 1);

    // The sell of exactly `bought` restores the token side to `vt`, and
    // the exact product makes the native side return to `vn`.
    let c1 = buy_result(c, g, sol_amount, 0)->Ok_0.0;
    assert(c1.virtual_sol_reserves as int == vn2);
    assert(c1.virtual_token_reserves as int == vt2);
    assert(vt2 + bought == vt);
    lemma_mul_is_commutative(vn2, vt2);
    lemma_div_by_multiple(vn, vt);
    let gross: int = vn2 - k / vt;
    assert(gross == sol_amount);
    lemma_mul_by_zero_is_zero(gross);
}

/// Exactly what a zero-fee round trip returns. Selling back the tokens
/// a buy produced never returns less native currency than was paid in;
/// it returns more by precisely the buy's division remainder, rounded
/// up over the token side. The pair breaks even exactly when the buy
/// divided without remainder: on every other input the floor division
/// works in the trader's favour.
pub proof fn lemma_buy_sell_round_trip_excess(c: BondingCurve, g: Global, sol_amount: u64)
    requires
        g.wf(),
        g.platform_trade_fee_bps == 0,
        g.reserve_trade_fee_bps == 0,
        c.virtual_token_reserves > 0,
        buy_result(c, g, sol_amount, 0) is Ok,
        sell_result(
            buy_result(c, g, sol_amount, 0)->Ok_0.0,
            g,
            buy_result(c, g, sol_amount, 0)->Ok_0.1.tokens_out,
            0,
        ) is Ok,
    ensures
        ({
            let step = buy_result(c, g, sol_amount, 0)->Ok_0;
            let paid_back = sell_result(step.0, g, step.1.tokens_out, 0)->Ok_0.1.sol_out_net;
            let rounding_loss: int = (c.virtual_sol_reserves * c.virtual_token_reserves) % (
                c.virtual_sol_reserves + sol_amount);
            &&& paid_back >= sol_amount
            &&& paid_back == sol_amount + (rounding_loss + c.virtual_token_reserves - 1) / (
                c.virtual_token_reserves as int)
            &&& (paid_back == sol_amount <==> rounding_loss == 0)
        }),
{
    let vn: int = c.virtual_sol_reserves as int;
    let vt: int = c.virtual_token_reserves as int;
    let k: int = vn * vt;
    let vn2: int = vn + sol_amount;
    lemma_mul_by_zero_is_zero(sol_amount as int);
    lemma_div_of0(10000);
    lemma_mul_nonnegative(vn, vt);
    lemma_swap_quotient_bounds(c.virtual_sol_reserves, c.virtual_token_reserves, vn2);
    lemma_fundamental_div_mod(k, vn2);
    lemma_mod_bound(k, vn2);
    let rho: int = k % vn2;
    let vt2: int = k / vn2;
    let bought: int = vt - vt2;

    // The sell trades against the product the buy left behind, which
    // fell short of the original product by the division remainder.
    lemma_mul_is_commutative(vn2, vt2);
    assert(vn2 * vt2 == k - rho);
    let q: int = rho / vt;
    let r: int = rho % vt;
    lemma_fundamental_div_mod(rho, vt);
    lemma_mod_bound(rho, vt);
    lemma_div_pos_is_pos(rho, vt);
    lemma_mul_is_commutative(vn, vt);
    lemma_mul_basics(vt);
    if r == 0 {
        lemma_mul_is_distributive_sub(vt, vn, q);
        lemma_mul_is_commutative(vt, vn - q);
        lemma_mul_is_commutative(vt, q);
        lemma_fundamental_div_mod_converse(k - rho, vt, vn - q, 0);
        lemma_fundamental_div_mod_converse(rho + vt - 1, vt, q, vt - 1);
    } else {
        lemma_mul_is_distributive_sub(vt, vn, q + 1);
        lemma_mul_is_distributive_add(vt, q, 1);
        lemma_mul_is_commutative(vt, vn - q - 1);
        lemma_mul_is_commutative(vt, q + 1);
        lemma_fundamental_div_mod_converse(k - rho, vt, vn - q - 1, vt - r);
        lemma_fundamental_div_mod_converse(rho + vt - 1, vt, q + 1, r - 1);
    }

    // Bounds that make the sell's native side a 64-bit value: its new
    // virtual native reserves stay at or below the original ones.
    lemma_div_is_ordered(k - rho, k, vt);
    lemma_div_by_multiple(vn, vt);
    lemma_div_pos_is_pos(k - rho, vt);
    let gross: int = vn2 - (k - rho) / vt;
    lemma_mul_by_zero_is_zero(gross);
    if rho == 0 {
        lemma_mul_by_zero_is_zero(vt);
        lemma_fundamental_div_mod_converse(rho, vt, 0, 0);
    }
}

} // verus!
