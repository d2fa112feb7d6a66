use vstd::prelude::*;

use vstd::arithmetic::div_mod::{
    lemma_div_is_ordered, lemma_div_is_ordered_by_denominator, lemma_div_multiples_vanish,
    lemma_div_of0, lemma_div_pos_is_pos, lemma_fundamental_div_mod,
    lemma_fundamental_div_mod_converse, lemma_mod_bound,
};
use vstd::arithmetic::mul::{
    lemma_mul_by_zero_is_zero, lemma_mul_inequality, lemma_mul_is_commutative,
    lemma_mul_is_distributive_add, lemma_mul_nonnegative, lemma_mul_upper_bound,
};

use crate::account::{BondingCurve, Global};
use crate::error::ErrorCode;

verus! {

/// Floor share of `amount` at a rate of `bps` basis points. Both fee
/// components and the combined fee of a trade use this one formula,
/// each computed independently from the gross amount.
pub open spec fn spec_fee(amount: int, bps: int) -> int {
    (amount * bps) / 10000
}

/// What a buy moves besides the curve-state update: the two fee legs,
/// the tokens bought back for the reserve, the trader's tokens, and the
/// native amount that remains for the trader's swap after fees.
#[derive(Clone, Copy, Debug, PartialEq, Eq, Structural)]
pub struct BuyOutcome {
    /// Native units paid to the platform fee recipient.
    pub platform_fee: u64,
    /// Native units of fee converted into reserve-held tokens.
    pub reserve_fee: u64,
    /// Tokens the reserve buyback took off the curve.
    pub reserve_tokens_out: u64,
    /// Tokens the trader receives.
    pub tokens_out: u64,
    /// Native units swapped for the trader after the fee deduction.
    pub sol_amount_after_fee: u64,
}

/// What a sell moves besides the curve-state update.
#[derive(Clone, Copy, Debug, PartialEq, Eq, Structural)]
pub struct SellOutcome {
    /// Native units paid to the platform fee recipient.
    pub platform_fee: u64,
    /// Native units of fee converted into reserve-held tokens.
    pub reserve_fee: u64,
    /// Tokens the reserve buyback took off the curve.
    pub reserve_tokens_out: u64,
    /// Native units the swap prices the sold tokens at, before fees.
    pub sol_out_gross: u64,
    /// Native units the trader receives, after fees.
    pub sol_out_net: u64,
}

/// The complete buy transition. Checks run in the order the settlement
/// performs them, so the error of a rejected buy is exactly the first
/// failing step; a rejected buy leaves the curve untouched.
pub open spec fn buy_result(c: BondingCurve, g: Global, sol_amount: u64, min_token_output: u64)
    -> Result<(BondingCurve, BuyOutcome), ErrorCode>
{
    if c.complete {
        Err(ErrorCode::BondingCurveComplete)
    } else if sol_amount == 0 {
        Err(ErrorCode::InvalidAmount)
    } else if sol_amount * g.total_fee_bps() > u64::MAX {
        Err(ErrorCode::ArithmeticOverflow)
    } else {
        let platform_fee: int = spec_fee(sol_amount as int, g.platform_trade_fee_bps as int);
        let reserve_fee: int = spec_fee(sol_amount as int, g.reserve_trade_fee_bps as int);
        let net_in: int = sol_amount - spec_fee(sol_amount as int, g.total_fee_bps());
        buy_reserve_purchase(c, g, platform_fee, reserve_fee, net_in, min_token_output)
    }
}

/// The pre-trade reserve buyback of a buy: when a reserve fee is due, it
/// buys tokens against the current virtual reserves before the trader's
/// swap is priced.
pub open spec fn buy_reserve_purchase(
    c: BondingCurve,
    g: Global,
    platform_fee: int,
    reserve_fee: int,
    net_in: int,
    min_token_output: u64,
) -> Result<(BondingCurve, BuyOutcome), ErrorCode> {
    if reserve_fee > 0 {
        if c.virtual_sol_reserves + reserve_fee > u64::MAX {
            Err(ErrorCode::ArithmeticOverflow)
        } else {
            let k: int = c.virtual_sol_reserves * c.virtual_token_reserves;
            let new_virtual_sol: int = c.virtual_sol_reserves + reserve_fee;
            let new_virtual_token: int = k / new_virtual_sol;
            let reserve_tokens: int = c.virtual_token_reserves - new_virtual_token;
            if c.real_sol_reserves + reserve_fee > u64::MAX {
                Err(ErrorCode::ArithmeticOverflow)
            } else if c.real_token_reserves < reserve_tokens {
                Err(ErrorCode::ArithmeticUnderflow)
            } else {
                let c1 = BondingCurve {
                    mint: c.mint,
                    creator: c.creator,
                    virtual_token_reserves: new_virtual_token as u64,
                    virtual_sol_reserves: new_virtual_sol as u64,
                    real_token_reserves: (c.real_token_reserves - reserve_tokens) as u64,
                    real_sol_reserves: (c.real_sol_reserves + reserve_fee) as u64,
                    token_total_supply: c.token_total_supply,
                    complete: c.complete,
                };
                buy_user_purchase(c1, g, platform_fee, reserve_fee, reserve_tokens, net_in,
                    min_token_output)
            }
        }
    } else {
        buy_user_purchase(c, g, platform_fee, 0, 0, net_in, min_token_output)
    }
}

/// The trader's swap of a buy, priced against the possibly
/// buyback-updated reserves, followed by the graduation check.
pub open spec fn buy_user_purchase(
    c: BondingCurve,
    g: Global,
    platform_fee: int,
    reserve_fee: int,
    reserve_tokens: int,
    net_in: int,
    min_token_output: u64,
) -> Result<(BondingCurve, BuyOutcome), ErrorCode> {
    if c.virtual_sol_reserves + net_in > u64::MAX {
        Err(ErrorCode::ArithmeticOverflow)
    } else {
        let k: int = c.virtual_sol_reserves * c.virtual_token_reserves;
        let new_virtual_sol: int = c.virtual_sol_reserves + net_in;
        let new_virtual_token: int = k / new_virtual_sol;
        let tokens_out: int = c.virtual_token_reserves - new_virtual_token;
        if tokens_out < min_token_output {
            Err(ErrorCode::SlippageExceeded)
        } else if c.real_token_reserves < tokens_out {
            Err(ErrorCode::InsufficientBacking)
        } else if c.real_sol_reserves + net_in > u64::MAX {
            Err(ErrorCode::ArithmeticOverflow)
        } else {
            let new_real_sol: int = c.real_sol_reserves + net_in;
            let next = BondingCurve {
                mint: c.mint,
                creator: c.creator,
                virtual_token_reserves: new_virtual_token as u64,
                virtual_sol_reserves: new_virtual_sol as u64,
                real_token_reserves: (c.real_token_reserves - tokens_out) as u64,
                real_sol_reserves: new_real_sol as u64,
                token_total_supply: c.token_total_supply,
                complete: new_real_sol >= g.graduation_threshold,
            };
            let outcome = BuyOutcome {
                platform_fee: platform_fee as u64,
                reserve_fee: reserve_fee as u64,
                reserve_tokens_out: reserve_tokens as u64,
                tokens_out: tokens_out as u64,
                sol_amount_after_fee: net_in as u64,
            };
            Ok((next, outcome))
        }
    }
}

/// The complete sell transition. The trader's swap is priced against the
/// current reserves; the reserve buyback, when due, runs afterwards
/// against the user-updated reserves.
pub open spec fn sell_result(c: BondingCurve, g: Global, token_amount: u64, min_sol_output: u64)
    -> Result<(BondingCurve, SellOutcome), ErrorCode>
{
    if c.complete {
        Err(ErrorCode::BondingCurveComplete)
    } else if token_amount == 0 {
        Err(ErrorCode::InvalidAmount)
    } else if c.virtual_token_reserves + token_amount > u64::MAX {
        Err(ErrorCode::ArithmeticOverflow)
    } else {
        let k: int = c.virtual_sol_reserves * c.virtual_token_reserves;
        let new_virtual_token: int = c.virtual_token_reserves + token_amount;
        let new_virtual_sol: int = k / new_virtual_token;
        let gross: int = c.virtual_sol_reserves - new_virtual_sol;
        if gross * g.total_fee_bps() > u64::MAX {
            Err(ErrorCode::ArithmeticOverflow)
        } else {
            let platform_fee: int = spec_fee(gross, g.platform_trade_fee_bps as int);
            let reserve_fee: int = spec_fee(gross, g.reserve_trade_fee_bps as int);
            let net_out: int = gross - spec_fee(gross, g.total_fee_bps());
            sell_reserve_purchase(c, new_virtual_sol, new_virtual_token, gross, platform_fee,
                reserve_fee, net_out, token_amount, min_sol_output)
        }
    }
}

/// The post-trade reserve buyback of a sell: when a reserve fee is due,
/// it buys tokens against the reserves the trader's swap just produced.
pub open spec fn sell_reserve_purchase(
    c: BondingCurve,
    virtual_sol_after_swap: int,
    virtual_token_after_swap: int,
    gross: int,
    platform_fee: int,
    reserve_fee: int,
    net_out: int,
    token_amount: u64,
    min_sol_output: u64,
) -> Result<(BondingCurve, SellOutcome), ErrorCode> {
    if reserve_fee > 0 {
        if virtual_sol_after_swap + reserve_fee > u64::MAX {
            Err(ErrorCode::ArithmeticOverflow)
        } else {
            let k: int = virtual_sol_after_swap * virtual_token_after_swap;
            let new_virtual_sol: int = virtual_sol_after_swap + reserve_fee;
            let new_virtual_token: int = k / new_virtual_sol;
            let reserve_tokens: int = virtual_token_after_swap - new_virtual_token;
            sell_commit(c, new_virtual_sol, new_virtual_token, reserve_tokens, gross,
                platform_fee, reserve_fee, net_out, token_amount, min_sol_output)
        }
    } else {
        sell_commit(c, virtual_sol_after_swap, virtual_token_after_swap, 0, gross, platform_fee,
            reserve_fee, net_out, token_amount, min_sol_output)
    }
}

/// The final checks and the state commit of a sell. The reserve fee
/// stays in the curve's native balance (it paid for the buyback), so the
/// real native reserves drop by the gross proceeds less that fee.
pub open spec fn sell_commit(
    c: BondingCurve,
    new_virtual_sol: int,
    new_virtual_token: int,
    reserve_tokens: int,
    gross: int,
    platform_fee: int,
    reserve_fee: int,
    net_out: int,
    token_amount: u64,
    min_sol_output: u64,
) -> Result<(BondingCurve, SellOutcome), ErrorCode> {
    if net_out < min_sol_output {
        Err(ErrorCode::SlippageExceeded)
    } else if c.real_sol_reserves < gross - reserve_fee {
        Err(ErrorCode::ArithmeticUnderflow)
    } else if c.real_token_reserves + token_amount > u64::MAX {
        Err(ErrorCode::ArithmeticOverflow)
    } else if reserve_fee > 0 && c.real_token_reserves + token_amount < reserve_tokens {
        Err(ErrorCode::ArithmeticUnderflow)
    } else {
        let next = BondingCurve {
            mint: c.mint,
            creator: c.creator,
            virtual_token_reserves: new_virtual_token as u64,
            virtual_sol_reserves: new_virtual_sol as u64,
            real_token_reserves: (c.real_token_reserves + token_amount - reserve_tokens) as u64,
            real_sol_reserves: (c.real_sol_reserves - (gross - reserve_fee)) as u64,
            token_total_supply: c.token_total_supply,
            complete: c.complete,
        };
        let outcome = SellOutcome {
            platform_fee: platform_fee as u64,
            reserve_fee: reserve_fee as u64,
            reserve_tokens_out: reserve_tokens as u64,
            sol_out_gross: gross as u64,
            sol_out_net: net_out as u64,
        };
        Ok((next, outcome))
    }
}

/// A fee at a rate below the full denominator is nonnegative and leaves
/// at least one unit of a positive amount.
pub proof fn lemma_fee_lt_amount(amount: int, bps: int)
    requires
        1 <= amount,
        0 <= bps < 10000,
    ensures
        0 <= spec_fee(amount, bps) < amount,
{
    lemma_mul_nonnegative(amount, bps);
    lemma_div_pos_is_pos(amount * bps, 10000);
    lemma_mul_inequality(bps, 9999, amount);
    lemma_mul_is_commutative(amount, bps);
    lemma_mul_is_commutative(amount, 9999);
    assert(amount * bps <= 10000 * amount - 1);
    lemma_div_is_ordered(amount * bps, 10000 * amount - 1, 10000);
    lemma_fundamental_div_mod_converse(10000 * amount - 1, 10000, amount - 1, 9999);
}

/// The two fee components, each computed independently by floor
/// division, sum to the combined fee up to a single rounding unit, and
/// never exceed it.
pub proof fn lemma_fee_split(amount: int, bps_a: int, bps_b: int)
    requires
        0 <= amount,
        0 <= bps_a,
        0 <= bps_b,
    ensures
        spec_fee(amount, bps_a) + spec_fee(amount, bps_b) <= spec_fee(amount, bps_a + bps_b),
        spec_fee(amount, bps_a + bps_b) <= spec_fee(amount, bps_a) + spec_fee(amount, bps_b) + 1,
        spec_fee(amount, bps_a) <= spec_fee(amount, bps_a + bps_b),
{
    let x: int = amount * bps_a;
    let y: int = amount * bps_b;
    lemma_mul_nonnegative(amount, bps_a);
    lemma_mul_nonnegative(amount, bps_b);
    lemma_mul_is_distributive_add(amount, bps_a, bps_b);
    assert(amount * (bps_a + bps_b) == x + y);
    lemma_fundamental_div_mod(x, 10000);
    lemma_fundamental_div_mod(y, 10000);
    lemma_mod_bound(x, 10000);
    lemma_mod_bound(y, 10000);
    let qx: int = x / 10000;
    let qy: int = y / 10000;
    let rx: int = x % 10000;
    let ry: int = y % 10000;
    if rx + ry < 10000 {
        lemma_fundamental_div_mod_converse(x + y, 10000, qx + qy, rx + ry);
    } else {
        lemma_fundamental_div_mod_converse(x + y, 10000, qx + qy + 1, rx + ry - 10000);
    }
    lemma_div_is_ordered(x, x + y, 10000);
}

/// The token side of a constant-product step only shrinks: dividing the
/// product `a * b` by a denominator at least `a` stays within `b`.
pub proof fn lemma_swap_quotient_bounds(a: u64, b: u64, d: int)
    requires
        a as int <= d,
        1 <= d,
    ensures
        0 <= (a as int * b as int) / d <= b,
{
    let k: int = a as int * b as int;
    lemma_mul_nonnegative(a as int, b as int);
    lemma_div_pos_is_pos(k, d);
    if a == 0 {
        lemma_mul_by_zero_is_zero(b as int);
        lemma_div_of0(d);
    } else {
        lemma_div_is_ordered_by_denominator(k, a as int, d);
        lemma_div_multiples_vanish(b as int, a as int);
    }
}

/// The product of two 64-bit reserves always fits the 128-bit
/// intermediate the settlement computes it in.
pub proof fn lemma_u64_mul_fits_u128(a: u64, b: u64)
    ensures
        0 <= a as int * b as int <= u128::MAX,
{
    lemma_mul_nonnegative(a as int, b as int);
    lemma_mul_upper_bound(a as int, u64::MAX as int, b as int, u64::MAX as int);
    assert(u64::MAX as int * u64::MAX as int <= u128::MAX);
}

} // verus!
