use coinfun::account::{BondingCurve, Pubkey};
use coinfun::error::ErrorCode;
use coinfun::events::{CurveComplete, Trade, TradeSide};
use coinfun::pricing::{BuyOutcome, SellOutcome};
use coinfun::settlement::{settle_buy, settle_sell, AssetKind, TradeAccounts, Transfer};

fn accounts() -> TradeAccounts {
    TradeAccounts {
        mint: Pubkey(10),
        trader: Pubkey(30),
        platform_fee_recipient: Pubkey(3),
        curve: Pubkey(40),
        curve_token_vault: Pubkey(41),
        trader_token_vault: Pubkey(31),
        reserve_token_vault: Pubkey(42),
    }
}

fn post_buy_curve(complete: bool) -> BondingCurve {
    BondingCurve {
        mint: Pubkey(10),
        creator: Pubkey(11),
        virtual_token_reserves: 968_054_210,
        virtual_sol_reserves: 30_990_000_000,
        real_token_reserves: 968_054_210,
        real_sol_reserves: 990_000_000,
        token_total_supply: 1_000_000_000,
        complete,
    }
}

#[test]
fn settle_buy_orders_all_four_legs() {
    let outcome = BuyOutcome {
        platform_fee: 10_000_000,
        reserve_fee: 20_000_000,
        reserve_tokens_out: 666_223,
        tokens_out: 31_279_567,
        sol_amount_after_fee: 970_000_000,
    };
    let (transfers, trade, graduation) =
        settle_buy(&accounts(), &outcome, &post_buy_curve(false), 1_000_000_000).unwrap();
    assert_eq!(
        transfers,
        vec![
            Transfer {
                asset: AssetKind::Native,
                from: Pubkey(30),
                to: Pubkey(3),
                amount: 10_000_000,
            },
            Transfer {
                asset: AssetKind::Native,
                from: Pubkey(30),
                to: Pubkey(40),
                amount: 990_000_000,
            },
            Transfer {
                asset: AssetKind::Token,
                from: Pubkey(41),
                to: Pubkey(42),
                amount: 666_223,
            },
            Transfer {
                asset: AssetKind::Token,
                from: Pubkey(41),
                to: Pubkey(31),
                amount: 31_279_567,
            },
        ]
    );
    assert_eq!(
        trade,
        Trade {
            mint: Pubkey(10),
            trader: Pubkey(30),
            side: TradeSide::Buy,
            sol_amount: 1_000_000_000,
            token_amount: 31_279_567,
        }
    );
    assert_eq!(graduation, None);
}

#[test]
fn settle_buy_without_fees_has_two_legs() {
    let outcome = BuyOutcome {
        platform_fee: 0,
        reserve_fee: 0,
        reserve_tokens_out: 0,
        tokens_out: 200,
        sol_amount_after_fee: 250,
    };
    let (transfers, trade, graduation) =
        settle_buy(&accounts(), &outcome, &post_buy_curve(false), 250).unwrap();
    assert_eq!(
        transfers,
        vec![
            Transfer { asset: AssetKind::Native, from: Pubkey(30), to: Pubkey(40), amount: 250 },
            Transfer { asset: AssetKind::Token, from: Pubkey(41), to: Pubkey(31), amount: 200 },
        ]
    );
    assert_eq!(trade.side, TradeSide::Buy);
    assert_eq!(graduation, None);
}

#[test]
fn settle_buy_emits_graduation_event() {
    let outcome = BuyOutcome {
        platform_fee: 0,
        reserve_fee: 0,
        reserve_tokens_out: 0,
        tokens_out: 200,
        sol_amount_after_fee: 250,
    };
    let (_, _, graduation) =
        settle_buy(&accounts(), &outcome, &post_buy_curve(true), 250).unwrap();
    assert_eq!(graduation, Some(CurveComplete { mint: Pubkey(10), bonding_curve: Pubkey(40) }));
}

#[test]
fn settle_buy_rejects_unpayable_curve_leg() {
    let outcome = BuyOutcome {
        platform_fee: 0,
        reserve_fee: 1,
        reserve_tokens_out: 1,
        tokens_out: 1,
        sol_amount_after_fee: u64::MAX,
    };
    let result = settle_buy(&accounts(), &outcome, &post_buy_curve(false), 1);
    assert_eq!(result, Err(ErrorCode::ArithmeticOverflow));
}

#[test]
fn settle_sell_orders_all_four_legs() {
    let outcome = SellOutcome {
        platform_fee: 6_272_935,
        reserve_fee: 12_545_870,
        reserve_tokens_out: 408_096,
        sol_out_gross: 627_293_517,
        sol_out_net: 608_474_712,
    };
    let (transfers, trade) = settle_sell(&accounts(), &outcome, 20_000_000);
    assert_eq!(
        transfers,
        vec![
            Transfer {
                asset: AssetKind::Token,
                from: Pubkey(31),
                to: Pubkey(41),
                amount: 20_000_000,
            },
            Transfer {
                asset: AssetKind::Token,
                from: Pubkey(41),
                to: Pubkey(42),
                amount: 408_096,
            },
            Transfer {
                asset: AssetKind::Native,
                from: Pubkey(40),
                to: Pubkey(3),
                amount: 6_272_935,
            },
            Transfer {
                asset: AssetKind::Native,
                from: Pubkey(40),
                to: Pubkey(30),
                amount: 608_474_712,
            },
        ]
    );
    assert_eq!(
        trade,
        Trade {
            mint: Pubkey(10),
            trader: Pubkey(30),
            side: TradeSide::Sell,
            sol_amount: 608_474_712,
            token_amount: 20_000_000,
        }
    );
}

#[test]
fn settle_sell_without_fees_has_two_legs() {
    let outcome = SellOutcome {
        platform_fee: 0,
        reserve_fee: 0,
        reserve_tokens_out: 0,
        sol_out_gross: 250,
        sol_out_net: 250,
    };
    let (transfers, trade) = settle_sell(&accounts(), &outcome, 200);
    assert_eq!(
        transfers,
        vec![
            Transfer { asset: AssetKind::Token, from: Pubkey(31), to: Pubkey(41), amount: 200 },
            Transfer { asset: AssetKind::Native, from: Pubkey(40), to: Pubkey(30), amount: 250 },
        ]
    );
    assert_eq!(trade.sol_amount, 250);
}
