use vstd::prelude::*;

use crate::account::{BondingCurve, Pubkey};
use crate::error::ErrorCode;
use crate::events::{CurveComplete, Trade, TradeSide};
use crate::pricing::{BuyOutcome, SellOutcome};

verus! {

/// Which balance a movement touches: the native currency or the traded
/// token.
#[derive(Clone, Copy, Debug, PartialEq, Eq, Structural)]
pub enum AssetKind {
    Native,
    Token,
}

/// One balance movement the surrounding ledger must perform. Movements
/// out of the curve's own native balance are direct balance
/// adjustments in the ledger, since a keyless vault initiates no
/// transfer of its own; the record here is the same either way.
#[derive(Clone, Copy, Debug, PartialEq, Eq, Structural)]
pub struct Transfer {
    pub asset: AssetKind,
    pub from: Pubkey,
    pub to: Pubkey,
    pub amount: u64,
}

/// The balance records one trade touches.
#[derive(Clone, Copy, Debug, PartialEq, Eq, Structural)]
pub struct TradeAccounts {
    pub mint: Pubkey,
    pub trader: Pubkey,
    pub platform_fee_recipient: Pubkey,
    /// The curve account, holding the custodied native balance.
    pub curve: Pubkey,
    pub curve_token_vault: Pubkey,
    pub trader_token_vault: Pubkey,
    pub reserve_token_vault: Pubkey,
}

/// The balance movements of a settled buy, in settlement order: the
/// platform fee, then the trader's native leg into the curve (net swap
/// amount plus the reserve fee, which the buyback already accounted
/// for), then the reserve's tokens, then the trader's tokens.
pub open spec fn buy_transfers(a: TradeAccounts, outcome: BuyOutcome) -> Seq<Transfer> {
    let fee_leg: Seq<Transfer> = if outcome.platform_fee > 0 {
        seq![
            Transfer {
                asset: AssetKind::Native,
                from: a.trader,
                to: a.platform_fee_recipient,
                amount: outcome.platform_fee,
            },
        ]
    } else {
        Seq::empty()
    };
    let curve_leg: Seq<Transfer> = seq![
        Transfer {
            asset: AssetKind::Native,
            from: a.trader,
            to: a.curve,
            amount: (outcome.sol_amount_after_fee + outcome.reserve_fee) as u64,
        },
    ];
    let reserve_leg: Seq<Transfer> = if outcome.reserve_fee > 0 {
        seq![
            Transfer {
                asset: AssetKind::Token,
                from: a.curve_token_vault,
                to: a.reserve_token_vault,
                amount: outcome.reserve_tokens_out,
            },
        ]
    } else {
        Seq::empty()
    };
    let trader_leg: Seq<Transfer> = seq![
        Transfer {
            asset: AssetKind::Token,
            from: a.curve_token_vault,
            to: a.trader_token_vault,
            amount: outcome.tokens_out,
        },
    ];
    fee_leg + curve_leg + reserve_leg + trader_leg
}

/// The balance movements of a settled sell, in settlement order: the
/// trader's tokens into the curve vault, the reserve's tokens out of
/// it, then the curve's native balance pays the platform fee and the
/// trader's net proceeds.
pub open spec fn sell_transfers(a: TradeAccounts, outcome: SellOutcome, token_amount: u64)
    -> Seq<Transfer>
{
    let token_leg: Seq<Transfer> = seq![
        Transfer {
            asset: AssetKind::Token,
            from: a.trader_token_vault,
            to: a.curve_token_vault,
            amount: token_amount,
        },
    ];
    let reserve_leg: Seq<Transfer> = if outcome.reserve_fee > 0 {
        seq![
            Transfer {
                asset: AssetKind::Token,
                from: a.curve_token_vault,
                to: a.reserve_token_vault,
                amount: outcome.reserve_tokens_out,
            },
        ]
    } else {
        Seq::empty()
    };
    let fee_leg: Seq<Transfer> = if outcome.platform_fee > 0 {
        seq![
            Transfer {
                asset: AssetKind::Native,
                from: a.curve,
                to: a.platform_fee_recipient,
                amount: outcome.platform_fee,
            },
        ]
    } else {
        Seq::empty()
    };
    let trader_leg: Seq<Transfer> = seq![
        Transfer {
            asset: AssetKind::Native,
            from: a.curve,
            to: a.trader,
            amount: outcome.sol_out_net,
        },
    ];
    token_leg + reserve_leg + fee_leg + trader_leg
}

/// Turns a buy's engine output into the movements the ledger must
/// perform, the trade notification, and the graduation notification
/// when this buy completed the curve. The curve passed in is the state
/// after the buy. All movements of one trade commit atomically or not
/// at all.
pub fn settle_buy(
    accounts: &TradeAccounts,
    outcome: &BuyOutcome,
    curve: &BondingCurve,
    sol_amount: u64,
) -> (result: Result<(Vec<Transfer>, Trade, Option<CurveComplete>), ErrorCode>)
    ensures
        outcome.sol_amount_after_fee + outcome.reserve_fee > u64::MAX ==> result == Err::<
            (Vec<Transfer>, Trade, Option<CurveComplete>),
            ErrorCode,
        >(ErrorCode::ArithmeticOverflow),
        outcome.sol_amount_after_fee + outcome.reserve_fee <= u64::MAX ==> result is Ok
            && result->Ok_0.0@ == buy_transfers(*accounts, *outcome) && result->Ok_0.1 == (Trade {
            mint: accounts.mint,
            trader: accounts.trader,
            side: TradeSide::Buy,
            sol_amount,
            token_amount: outcome.tokens_out,
        }) && result->Ok_0.2 == (if curve.complete {
            Some(CurveComplete { mint: accounts.mint, bonding_curve: accounts.curve })
        } else {
            None::<CurveComplete>
        }),
{
    let sol_to_curve: u64 = match outcome.sol_amount_after_fee.checked_add(outcome.reserve_fee) {
        Some(v) => v,
        None => {
            return Err(ErrorCode::ArithmeticOverflow);
        },
    };
    let mut transfers: Vec<Transfer> = Vec::new();
    if outcome.platform_fee > 0 {
        transfers.push(Transfer {
            asset: AssetKind::Native,
            from: accounts.trader,
            to: accounts.platform_fee_recipient,
            amount: outcome.platform_fee,
        });
    }
    transfers.push(Transfer {
        asset: AssetKind::Native,
        from: accounts.trader,
        to: accounts.curve,
        amount: sol_to_curve,
    });
    if outcome.reserve_fee > 0 {
        transfers.push(Transfer {
            asset: AssetKind::Token,
            from: accounts.curve_token_vault,
            to: accounts.reserve_token_vault,
            amount: outcome.reserve_tokens_out,
        });
    }
    transfers.push(Transfer {
        asset: AssetKind::Token,
        from: accounts.curve_token_vault,
        to: accounts.trader_token_vault,
        amount: outcome.tokens_out,
    });
    proof {
        assert(transfers@ =~= buy_transfers(*accounts, *outcome));
    }
    let trade = Trade {
        mint: accounts.mint,
        trader: accounts.trader,
        side: TradeSide::Buy,
        sol_amount,
        token_amount: outcome.tokens_out,
    };
    let graduation: Option<CurveComplete> = if curve.complete {
        Some(CurveComplete { mint: accounts.mint, bonding_curve: accounts.curve })
    } else {
        None
    };
    Ok((transfers, trade, graduation))
}

/// Turns a sell's engine output into the movements the ledger must
/// perform and the trade notification. The trade notification carries
/// the net proceeds, as the trader sees them. All movements of one
/// trade commit atomically or not at all.
pub fn settle_sell(accounts: &TradeAccounts, outcome: &SellOutcome, token_amount: u64) -> (result:
    (Vec<Transfer>, Trade))
    ensures
        result.0@ == sell_transfers(*accounts, *outcome, token_amount),
        result.1 == (Trade {
            mint: accounts.mint,
            trader: accounts.trader,
            side: TradeSide::Sell,
            sol_amount: outcome.sol_out_net,
            token_amount,
        }),
{
    let mut transfers: Vec<Transfer> = Vec::new();
    transfers.push(Transfer {
        asset: AssetKind::Token,
        from: accounts.trader_token_vault,
        to: accounts.curve_token_vault,
        amount: token_amount,
    });
    if outcome.reserve_fee > 0 {
        transfers.push(Transfer {
            asset: AssetKind::Token,
            from: accounts.curve_token_vault,
            to: accounts.reserve_token_vault,
            amount: outcome.reserve_tokens_out,
        });
    }
    if outcome.platform_fee > 0 {
        transfers.push(Transfer {
            asset: AssetKind::Native,
            from: accounts.curve,
            to: accounts.platform_fee_recipient,
            amount: outcome.platform_fee,
        });
    }
    transfers.push(Transfer {
        asset: AssetKind::Native,
        from: accounts.curve,
        to: accounts.trader,
        amount: outcome.sol_out_net,
    });
    proof {
        assert(transfers@ =~= sell_transfers(*accounts, *outcome, token_amount));
    }
    let trade = Trade {
        mint: accounts.mint,
        trader: accounts.trader,
        side: TradeSide::Sell,
        sol_amount: outcome.sol_out_net,
        token_amount,
    };
    (transfers, trade)
}

} // verus!
