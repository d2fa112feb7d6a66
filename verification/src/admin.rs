use vstd::prelude::*;

use crate::account::{BondingCurve, Global, Pubkey};
use crate::consts::MAX_FEE_BPS;
use crate::error::ErrorCode;
use crate::events::TokenCreated;

verus! {

/// What the matured-funds withdrawal path pays out: the curve vault's
/// whole token balance, and its native balance above the rent floor.
#[derive(Clone, Copy, Debug, PartialEq, Eq, Structural)]
pub struct WithdrawAmounts {
    pub token_amount: u64,
    pub sol_amount: u64,
}

/// Builds the singleton configuration. Rejects any combined fee above
/// the 30% cap, including combinations whose sum leaves the 64-bit
/// range; otherwise returns the configuration exactly as requested.
pub fn initialize(
    authority: Pubkey,
    reserve: Pubkey,
    initial_virtual_token_reserves: u64,
    initial_virtual_sol_reserves: u64,
    token_total_supply: u64,
    platform_trade_fee_bps: u64,
    reserve_trade_fee_bps: u64,
    platform_fee_recipient: Pubkey,
    graduation_threshold: u64,
) -> (result: Result<Global, ErrorCode>)
    ensures
        platform_trade_fee_bps + reserve_trade_fee_bps > MAX_FEE_BPS ==> result == Err::<
            Global,
            ErrorCode,
        >(ErrorCode::FeeTooHigh),
        platform_trade_fee_bps + reserve_trade_fee_bps <= MAX_FEE_BPS ==> result == Ok::<
            Global,
            ErrorCode,
        >(
            (Global {
                authority,
                platform_fee_recipient,
                reserve,
                initial_virtual_token_reserves,
                initial_virtual_sol_reserves,
                token_total_supply,
                platform_trade_fee_bps,
                reserve_trade_fee_bps,
                graduation_threshold,
            }),
        ),
        result is Ok ==> result->Ok_0.wf(),
{
    let combined: u64 = match platform_trade_fee_bps.checked_add(reserve_trade_fee_bps) {
        Some(v) => v,
        None => u64::MAX,
    };
    if combined > MAX_FEE_BPS {
        return Err(ErrorCode::FeeTooHigh);
    }
    Ok(Global {
        authority,
        platform_fee_recipient,
        reserve,
        initial_virtual_token_reserves,
        initial_virtual_sol_reserves,
        token_total_supply,
        platform_trade_fee_bps,
        reserve_trade_fee_bps,
        graduation_threshold,
    })
}

/// Rewrites the configuration. Only the configured authority may write;
/// the fee cap is enforced as on initialization; the reserve identity is
/// kept, everything else is replaced. A rejected write leaves the
/// configuration untouched.
pub fn update_global_config(
    global: &mut Global,
    authority: Pubkey,
    new_authority: Pubkey,
    new_platform_fee_recipient: Pubkey,
    new_platform_trade_fee_bps: u64,
    new_reserve_trade_fee_bps: u64,
    new_initial_virtual_token_reserves: u64,
    new_initial_virtual_sol_reserves: u64,
    new_token_total_supply: u64,
    new_graduation_threshold: u64,
) -> (result: Result<(), ErrorCode>)
    ensures
        authority != old(global).authority ==> result == Err::<(), ErrorCode>(
            ErrorCode::Unauthorized,
        ) && *final(global) == *old(global),
        authority == old(global).authority && new_platform_trade_fee_bps
            + new_reserve_trade_fee_bps > MAX_FEE_BPS ==> result == Err::<(), ErrorCode>(
            ErrorCode::FeeTooHigh,
        ) && *final(global) == *old(global),
        authority == old(global).authority && new_platform_trade_fee_bps
            + new_reserve_trade_fee_bps <= MAX_FEE_BPS ==> result == Ok::<(), ErrorCode>(())
            && *final(global) == (Global {
            authority: new_authority,
            platform_fee_recipient: new_platform_fee_recipient,
            reserve: old(global).reserve,
            initial_virtual_token_reserves: new_initial_virtual_token_reserves,
            initial_virtual_sol_reserves: new_initial_virtual_sol_reserves,
            token_total_supply: new_token_total_supply,
            platform_trade_fee_bps: new_platform_trade_fee_bps,
            reserve_trade_fee_bps: new_reserve_trade_fee_bps,
            graduation_threshold: new_graduation_threshold,
        }),
        result is Ok ==> final(global).wf(),
{
    if authority != global.authority {
        return Err(ErrorCode::Unauthorized);
    }
    let combined: u64 = match new_platform_trade_fee_bps.checked_add(new_reserve_trade_fee_bps) {
        Some(v) => v,
        None => u64::MAX,
    };
    if combined > MAX_FEE_BPS {
        return Err(ErrorCode::FeeTooHigh);
    }
    global.authority = new_authority;
    global.platform_fee_recipient = new_platform_fee_recipient;
    global.initial_virtual_token_reserves = new_initial_virtual_token_reserves;
    global.initial_virtual_sol_reserves = new_initial_virtual_sol_reserves;
    global.token_total_supply = new_token_total_supply;
    global.platform_trade_fee_bps = new_platform_trade_fee_bps;
    global.reserve_trade_fee_bps = new_reserve_trade_fee_bps;
    global.graduation_threshold = new_graduation_threshold;
    Ok(())
}

/// Instantiates a new asset's curve, seeded from the configuration: the
/// virtual reserves start at the configured seed values, the whole fixed
/// supply backs the curve, no native units are custodied yet, and the
/// curve is active. Also yields the creation notification.
pub fn create(global: &Global, mint: Pubkey, creator: Pubkey) -> (result: (
    BondingCurve,
    TokenCreated,
))
    ensures
        result.0 == (BondingCurve {
            mint,
            creator,
            virtual_token_reserves: global.initial_virtual_token_reserves,
            virtual_sol_reserves: global.initial_virtual_sol_reserves,
            real_token_reserves: global.token_total_supply,
            real_sol_reserves: 0u64,
            token_total_supply: global.token_total_supply,
            complete: false,
        }),
        result.1 == (TokenCreated { mint, creator }),
{
    let curve = BondingCurve {
        mint,
        creator,
        virtual_token_reserves: global.initial_virtual_token_reserves,
        virtual_sol_reserves: global.initial_virtual_sol_reserves,
        real_token_reserves: global.token_total_supply,
        real_sol_reserves: 0,
        token_total_supply: global.token_total_supply,
        complete: false,
    };
    (curve, TokenCreated { mint, creator })
}

/// Decides the matured-funds withdrawal: only the configured authority,
/// only on a graduated curve. Pays out the vault's whole token balance
/// and every native unit above the rent-exempt floor.
pub fn withdraw(
    global: &Global,
    curve: &BondingCurve,
    authority: Pubkey,
    curve_token_balance: u64,
    curve_lamports: u64,
    rent_exempt_minimum: u64,
) -> (result: Result<WithdrawAmounts, ErrorCode>)
    ensures
        authority != global.authority ==> result == Err::<WithdrawAmounts, ErrorCode>(
            ErrorCode::Unauthorized,
        ),
        authority == global.authority && !curve.complete ==> result == Err::<
            WithdrawAmounts,
            ErrorCode,
        >(ErrorCode::BondingCurveNotComplete),
        authority == global.authority && curve.complete ==> result == Ok::<
            WithdrawAmounts,
            ErrorCode,
        >(
            (WithdrawAmounts {
                token_amount: curve_token_balance,
                sol_amount: if curve_lamports > rent_exempt_minimum {
                    (curve_lamports - rent_exempt_minimum) as u64
                } else {
                    0u64
                },
            }),
        ),
{
    if authority != global.authority {
        return Err(ErrorCode::Unauthorized);
    }
    if !curve.complete {
        return Err(ErrorCode::BondingCurveNotComplete);
    }
    let sol_amount: u64 = if curve_lamports > rent_exempt_minimum {
        curve_lamports - rent_exempt_minimum
    } else {
        0
    };
    Ok(WithdrawAmounts { token_amount: curve_token_balance, sol_amount })
}

/// Decides a withdrawal from the shared reserve: only the configured
/// authority, only a positive amount within the reserve's balance.
pub fn withdraw_reserve(
    global: &Global,
    authority: Pubkey,
    reserve_token_balance: u64,
    amount: u64,
) -> (result: Result<u64, ErrorCode>)
    ensures
        authority != global.authority ==> result == Err::<u64, ErrorCode>(
            ErrorCode::Unauthorized,
        ),
        authority == global.authority && (reserve_token_balance == 0 || amount == 0 || amount
            > reserve_token_balance) ==> result == Err::<u64, ErrorCode>(
            ErrorCode::NothingToWithdraw,
        ),
        authority == global.authority && reserve_token_balance > 0 && 0 < amount
            <= reserve_token_balance ==> result == Ok::<u64, ErrorCode>(amount),
{
    if authority != global.authority {
        return Err(ErrorCode::Unauthorized);
    }
    if reserve_token_balance == 0 {
        return Err(ErrorCode::NothingToWithdraw);
    }
    if amount == 0 {
        return Err(ErrorCode::NothingToWithdraw);
    }
    if amount > reserve_token_balance {
        return Err(ErrorCode::NothingToWithdraw);
    }
    Ok(amount)
}

/// Decides a deposit into the shared reserve: only the configured
/// authority, only a positive amount.
pub fn deposit_to_reserve(global: &Global, authority: Pubkey, amount: u64) -> (result: Result<
    u64,
    ErrorCode,
>)
    ensures
        authority != global.authority ==> result == Err::<u64, ErrorCode>(
            ErrorCode::Unauthorized,
        ),
        authority == global.authority && amount == 0 ==> result == Err::<u64, ErrorCode>(
            ErrorCode::NothingToWithdraw,
        ),
        authority == global.authority && amount > 0 ==> result == Ok::<u64, ErrorCode>(amount),
{
    if authority != global.authority {
        return Err(ErrorCode::Unauthorized);
    }
    if amount == 0 {
        return Err(ErrorCode::NothingToWithdraw);
    }
    Ok(amount)
}

} // verus!
