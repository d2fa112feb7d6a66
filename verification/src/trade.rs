use vstd::prelude::*;

use vstd::arithmetic::mul::{
    lemma_mul_by_zero_is_zero, lemma_mul_is_commutative, lemma_mul_is_distributive_add,
    lemma_mul_nonnegative,
};

use crate::account::{BondingCurve, Global};
use crate::consts::BPS_DENOMINATOR;
use crate::error::ErrorCode;
use crate::pricing::{
    buy_result, lemma_fee_lt_amount, lemma_fee_split, lemma_swap_quotient_bounds,
    lemma_u64_mul_fits_u128, sell_result, BuyOutcome, SellOutcome,
};

verus! {

/// Executes a buy: takes the fee off the paid-in native amount, runs the
/// reserve buyback against the current virtual reserves, prices the
/// trader's swap against the updated reserves, commits the state, and
/// evaluates graduation. A rejected buy reports the first failing check
/// and leaves the curve exactly as it was.
pub fn buy(curve: &mut BondingCurve, global: &Global, sol_amount: u64, min_token_output: u64)
    -> (result: Result<BuyOutcome, ErrorCode>)
    requires
        global.wf(),
    ensures
        match buy_result(*old(curve), *global, sol_amount, min_token_output) {
            Ok(step) => result == Ok::<BuyOutcome, ErrorCode>(step.1) && *final(curve) == step.0,
            Err(e) => result == Err::<BuyOutcome, ErrorCode>(e) && *final(curve) == *old(curve),
        },
{
    if curve.complete {
        return Err(ErrorCode::BondingCurveComplete);
    }
    if sol_amount == 0 {
        return Err(ErrorCode::InvalidAmount);
    }

    let total_fee_bps: u64 = global.platform_trade_fee_bps + global.reserve_trade_fee_bps;
    let fee: u64 = match sol_amount.checked_mul(total_fee_bps) {
        Some(product) => product / BPS_DENOMINATOR,
        None => {
            return Err(ErrorCode::ArithmeticOverflow);
        },
    };
    proof {
        lemma_mul_is_distributive_add(
            sol_amount as int,
            global.platform_trade_fee_bps as int,
            global.reserve_trade_fee_bps as int,
        );
        lemma_mul_nonnegative(sol_amount as int, global.platform_trade_fee_bps as int);
        lemma_mul_nonnegative(sol_amount as int, global.reserve_trade_fee_bps as int);
        lemma_fee_lt_amount(sol_amount as int, total_fee_bps as int);
    }
    let platform_fee: u64 = sol_amount * global.platform_trade_fee_bps / BPS_DENOMINATOR;
    let reserve_fee: u64 = sol_amount * global.reserve_trade_fee_bps / BPS_DENOMINATOR;
    let sol_amount_after_fee: u64 = sol_amount - fee;

    let mut virtual_sol: u64 = curve.virtual_sol_reserves;
    let mut virtual_token: u64 = curve.virtual_token_reserves;
    let mut real_sol: u64 = curve.real_sol_reserves;
    let mut real_token: u64 = curve.real_token_reserves;

    // Reserve buyback first: the reserve fee buys tokens at the rate the
    // trader's swap has not yet moved.
    let mut reserve_tokens_out: u64 = 0;
    if reserve_fee > 0 {
        proof {
            lemma_u64_mul_fits_u128(virtual_sol, virtual_token);
        }
        let k: u128 = (virtual_sol as u128) * (virtual_token as u128);
        let buyback_virtual_sol: u64 = match virtual_sol.checked_add(reserve_fee) {
            Some(v) => v,
            None => {
                return Err(ErrorCode::ArithmeticOverflow);
            },
        };
        proof {
            lemma_swap_quotient_bounds(virtual_sol, virtual_token, buyback_virtual_sol as int);
        }
        let buyback_virtual_token: u64 = (k / (buyback_virtual_sol as u128)) as u64;
        reserve_tokens_out = virtual_token - buyback_virtual_token;
        real_sol = match real_sol.checked_add(reserve_fee) {
            Some(v) => v,
            None => {
                return Err(ErrorCode::ArithmeticOverflow);
            },
        };
        real_token = match real_token.checked_sub(reserve_tokens_out) {
            Some(v) => v,
            None => {
                return Err(ErrorCode::ArithmeticUnderflow);
            },
        };
        virtual_sol = buyback_virtual_sol;
        virtual_token = buyback_virtual_token;
    }

    // The trader's swap, against the possibly buyback-updated reserves.
    proof {
        lemma_u64_mul_fits_u128(virtual_sol, virtual_token);
    }
    let k: u128 = (virtual_sol as u128) * (virtual_token as u128);
    let new_virtual_sol: u64 = match virtual_sol.checked_add(sol_amount_after_fee) {
        Some(v) => v,
        None => {
            return Err(ErrorCode::ArithmeticOverflow);
        },
    };
    proof {
        lemma_swap_quotient_bounds(virtual_sol, virtual_token, new_virtual_sol as int);
    }
    let new_virtual_token: u64 = (k / (new_virtual_sol as u128)) as u64;
    let tokens_out: u64 = virtual_token - new_virtual_token;

    if tokens_out < min_token_output {
        return Err(ErrorCode::SlippageExceeded);
    }
    if real_token < tokens_out {
        return Err(ErrorCode::InsufficientBacking);
    }
    real_sol = match real_sol.checked_add(sol_amount_after_fee) {
        Some(v) => v,
        None => {
            return Err(ErrorCode::ArithmeticOverflow);
        },
    };
    real_token = real_token - tokens_out;

    curve.virtual_sol_reserves = new_virtual_sol;
    curve.virtual_token_reserves = new_virtual_token;
    curve.real_sol_reserves = real_sol;
    curve.real_token_reserves = real_token;
    if real_sol >= global.graduation_threshold {
        curve.complete = true;
    }
    Ok(BuyOutcome {
        platform_fee,
        reserve_fee,
        reserve_tokens_out,
        tokens_out,
        sol_amount_after_fee,
    })
}

/// Executes a sell: prices the sold tokens against the current reserves,
/// takes the fee off the gross proceeds, runs the reserve buyback against
/// the user-updated reserves, and commits the state. A rejected sell
/// reports the first failing check and leaves the curve exactly as it
/// was.
pub fn sell(curve: &mut BondingCurve, global: &Global, token_amount: u64, min_sol_output: u64)
    -> (result: Result<SellOutcome, ErrorCode>)
    requires
        global.wf(),
    ensures
        match sell_result(*old(curve), *global, token_amount, min_sol_output) {
            Ok(step) => result == Ok::<SellOutcome, ErrorCode>(step.1) && *final(curve) == step.0,
            Err(e) => result == Err::<SellOutcome, ErrorCode>(e) && *final(curve) == *old(curve),
        },
{
    if curve.complete {
        return Err(ErrorCode::BondingCurveComplete);
    }
    if token_amount == 0 {
        return Err(ErrorCode::InvalidAmount);
    }

    // The trader's swap against the current reserves.
    proof {
        lemma_u64_mul_fits_u128(curve.virtual_sol_reserves, curve.virtual_token_reserves);
    }
    let k: u128 = (curve.virtual_sol_reserves as u128) * (curve.virtual_token_reserves as u128);
    let new_virtual_token: u64 = match curve.virtual_token_reserves.checked_add(token_amount) {
        Some(v) => v,
        None => {
            return Err(ErrorCode::ArithmeticOverflow);
        },
    };
    proof {
        lemma_mul_is_commutative(
            curve.virtual_sol_reserves as int,
            curve.virtual_token_reserves as int,
        );
        lemma_swap_quotient_bounds(
            curve.virtual_token_reserves,
            curve.virtual_sol_reserves,
            new_virtual_token as int,
        );
    }
    let new_virtual_sol: u64 = (k / (new_virtual_token as u128)) as u64;
    let sol_out_gross: u64 = curve.virtual_sol_reserves - new_virtual_sol;

    let total_fee_bps: u64 = global.platform_trade_fee_bps + global.reserve_trade_fee_bps;
    let fee: u64 = match sol_out_gross.checked_mul(total_fee_bps) {
        Some(product) => product / BPS_DENOMINATOR,
        None => {
            return Err(ErrorCode::ArithmeticOverflow);
        },
    };
    proof {
        lemma_mul_is_distributive_add(
            sol_out_gross as int,
            global.platform_trade_fee_bps as int,
            global.reserve_trade_fee_bps as int,
        );
        lemma_mul_nonnegative(sol_out_gross as int, global.platform_trade_fee_bps as int);
        lemma_mul_nonnegative(sol_out_gross as int, global.reserve_trade_fee_bps as int);
        if sol_out_gross == 0 {
            lemma_mul_by_zero_is_zero(total_fee_bps as int);
            lemma_mul_is_commutative(sol_out_gross as int, total_fee_bps as int);
        } else {
            lemma_fee_lt_amount(sol_out_gross as int, total_fee_bps as int);
        }
        lemma_fee_split(
            sol_out_gross as int,
            global.reserve_trade_fee_bps as int,
            global.platform_trade_fee_bps as int,
        );
    }
    let platform_fee: u64 = sol_out_gross * global.platform_trade_fee_bps / BPS_DENOMINATOR;
    let reserve_fee: u64 = sol_out_gross * global.reserve_trade_fee_bps / BPS_DENOMINATOR;
    let sol_out_net: u64 = sol_out_gross - fee;

    // Reserve buyback last: the reserve fee buys tokens at the rate the
    // trader's swap just set.
    let mut reserve_tokens_out: u64 = 0;
    let mut next_virtual_sol: u64 = new_virtual_sol;
    let mut next_virtual_token: u64 = new_virtual_token;
    if reserve_fee > 0 {
        proof {
            lemma_u64_mul_fits_u128(new_virtual_sol, new_virtual_token);
        }
        let k2: u128 = (new_virtual_sol as u128) * (new_virtual_token as u128);
        let buyback_virtual_sol: u64 = match new_virtual_sol.checked_add(reserve_fee) {
            Some(v) => v,
            None => {
                return Err(ErrorCode::ArithmeticOverflow);
            },
        };
        proof {
            lemma_swap_quotient_bounds(new_virtual_sol, new_virtual_token,
                buyback_virtual_sol as int);
        }
        let buyback_virtual_token: u64 = (k2 / (buyback_virtual_sol as u128)) as u64;
        reserve_tokens_out = new_virtual_token - buyback_virtual_token;
        next_virtual_sol = buyback_virtual_sol;
        next_virtual_token = buyback_virtual_token;
    }

    if sol_out_net < min_sol_output {
        return Err(ErrorCode::SlippageExceeded);
    }

    // The reserve fee stays in the curve's native balance, having paid
    // for the buyback, so the real native reserves drop by gross less
    // that fee.
    let sol_removed: u64 = sol_out_gross - reserve_fee;
    let new_real_sol: u64 = match curve.real_sol_reserves.checked_sub(sol_removed) {
        Some(v) => v,
        None => {
            return Err(ErrorCode::ArithmeticUnderflow);
        },
    };
    let mut new_real_token: u64 = match curve.real_token_reserves.checked_add(token_amount) {
        Some(v) => v,
        None => {
            return Err(ErrorCode::ArithmeticOverflow);
        },
    };
    if reserve_fee > 0 {
        new_real_token = match new_real_token.checked_sub(reserve_tokens_out) {
            Some(v) => v,
            None => {
                return Err(ErrorCode::ArithmeticUnderflow);
            },
        };
    }

    curve.virtual_sol_reserves = next_virtual_sol;
    curve.virtual_token_reserves = next_virtual_token;
    curve.real_sol_reserves = new_real_sol;
    curve.real_token_reserves = new_real_token;
    Ok(SellOutcome {
        platform_fee,
        reserve_fee,
        reserve_tokens_out,
        sol_out_gross,
        sol_out_net,
    })
}

} // verus!
