use coinfun::account::{BondingCurve, Global, Pubkey};
use coinfun::admin::initialize;
use coinfun::error::ErrorCode;
use coinfun::trade::{buy, sell};

fn test_global(platform_bps: u64, reserve_bps: u64, threshold: u64) -> Global {
    initialize(
        Pubkey(1),
        Pubkey(2),
        1_000_000_000,
        30_000_000_000,
        1_000_000_000,
        platform_bps,
        reserve_bps,
        Pubkey(3),
        threshold,
    )
    .unwrap()
}

fn curve_with(vt: u64, vn: u64, rt: u64, rs: u64, supply: u64) -> BondingCurve {
    BondingCurve {
        mint: Pubkey(10),
        creator: Pubkey(11),
        virtual_token_reserves: vt,
        virtual_sol_reserves: vn,
        real_token_reserves: rt,
        real_sol_reserves: rs,
        token_total_supply: supply,
        complete: false,
    }
}

#[test]
fn buy_reference_scenario() {
    let global = test_global(0, 0, u64::MAX);
    let mut curve = curve_with(1_000_000_000, 30_000_000_000, 1_000_000_000, 0, 1_000_000_000);
    let outcome = buy(&mut curve, &global, 1_000_000_000, 0).unwrap();
    assert_eq!(outcome.tokens_out, 32_258_065);
    assert_eq!(outcome.platform_fee, 0);
    assert_eq!(outcome.reserve_fee, 0);
    assert_eq!(outcome.reserve_tokens_out, 0);
    assert_eq!(outcome.sol_amount_after_fee, 1_000_000_000);
    assert_eq!(curve.virtual_sol_reserves, 31_000_000_000);
    assert_eq!(curve.virtual_token_reserves, 967_741_935);
    assert_eq!(curve.real_sol_reserves, 1_000_000_000);
    assert_eq!(curve.real_token_reserves, 967_741_935);
    assert!(!curve.complete);
}

#[test]
fn sell_back_reference_scenario_needs_backing() {
    // Selling the bought amount straight back prices at 1_000_000_015
    // gross, more than the 1_000_000_000 the curve custodies, so the
    // trade aborts rather than paying out value the vault lacks.
    let global = test_global(0, 0, u64::MAX);
    let mut curve = curve_with(967_741_935, 31_000_000_000, 967_741_935, 1_000_000_000, 1_000_000_000);
    let result = sell(&mut curve, &global, 32_258_065, 0);
    assert_eq!(result, Err(ErrorCode::ArithmeticUnderflow));
    assert_eq!(curve, curve_with(967_741_935, 31_000_000_000, 967_741_935, 1_000_000_000, 1_000_000_000));
}

#[test]
fn sell_back_reference_scenario_with_backing() {
    // With enough custodied native balance the same sell settles; the
    // floor division on the buy rounded in the trader's favour, so the
    // round trip pays out 15 units above the amount paid in.
    let global = test_global(0, 0, u64::MAX);
    let mut curve = curve_with(967_741_935, 31_000_000_000, 967_741_935, 2_000_000_000, 1_000_000_000);
    let outcome = sell(&mut curve, &global, 32_258_065, 0).unwrap();
    assert_eq!(outcome.sol_out_gross, 1_000_000_015);
    assert_eq!(outcome.sol_out_net, 1_000_000_015);
    assert_eq!(curve.virtual_sol_reserves, 29_999_999_985);
    assert_eq!(curve.virtual_token_reserves, 1_000_000_000);
    assert_eq!(curve.real_sol_reserves, 999_999_985);
    assert_eq!(curve.real_token_reserves, 1_000_000_000);
}

#[test]
fn round_trip_without_rounding_loss_returns_exactly() {
    // 1000 * 1000 is divisible by 1000 + 250, so the buy loses nothing
    // to rounding and the sell of the bought tokens restores the curve
    // and returns exactly the amount paid in.
    let global = test_global(0, 0, u64::MAX);
    let initial = curve_with(1000, 1000, 1000, 0, 1000);
    let mut curve = initial;
    let bought = buy(&mut curve, &global, 250, 0).unwrap();
    assert_eq!(bought.tokens_out, 200);
    assert_eq!(curve.virtual_sol_reserves, 1250);
    assert_eq!(curve.virtual_token_reserves, 800);
    // the constant product survives the fee-free buy exactly
    assert_eq!(
        u128::from(curve.virtual_sol_reserves) * u128::from(curve.virtual_token_reserves),
        1_000_000
    );
    let sold = sell(&mut curve, &global, 200, 0).unwrap();
    assert_eq!(sold.sol_out_net, 250);
    assert_eq!(curve, initial);
}

#[test]
fn buy_at_the_fee_cap() {
    // 15% + 15% is the highest configuration a write accepts; the fee
    // legs then take 30% of the paid-in amount between them.
    let global = test_global(1500, 1500, u64::MAX);
    let mut curve = curve_with(1_000_000_000, 30_000_000_000, 1_000_000_000, 0, 1_000_000_000);
    let outcome = buy(&mut curve, &global, 1_000_000_000, 0).unwrap();
    assert_eq!(outcome.platform_fee, 150_000_000);
    assert_eq!(outcome.reserve_fee, 150_000_000);
    assert_eq!(outcome.sol_amount_after_fee, 700_000_000);
    assert_eq!(outcome.reserve_tokens_out, 4_975_125);
    assert_eq!(outcome.tokens_out, 22_577_550);
    assert_eq!(curve.virtual_sol_reserves, 30_850_000_000);
    assert_eq!(curve.virtual_token_reserves, 972_447_325);
    assert_eq!(curve.real_sol_reserves, 850_000_000);
    assert_eq!(curve.real_token_reserves, 972_447_325);
}

#[test]
fn buy_with_fees_splits_and_buys_back() {
    let global = test_global(100, 200, u64::MAX);
    let mut curve = curve_with(1_000_000_000, 30_000_000_000, 1_000_000_000, 0, 1_000_000_000);
    let outcome = buy(&mut curve, &global, 1_000_000_000, 0).unwrap();
    assert_eq!(outcome.platform_fee, 10_000_000);
    assert_eq!(outcome.reserve_fee, 20_000_000);
    assert_eq!(outcome.sol_amount_after_fee, 970_000_000);
    assert_eq!(outcome.reserve_tokens_out, 666_223);
    assert_eq!(outcome.tokens_out, 31_279_567);
    assert_eq!(curve.virtual_sol_reserves, 30_990_000_000);
    assert_eq!(curve.virtual_token_reserves, 968_054_210);
    assert_eq!(curve.real_sol_reserves, 990_000_000);
    assert_eq!(curve.real_token_reserves, 968_054_210);
    assert!(!curve.complete);
}

#[test]
fn sell_with_fees_buys_back_after_swap() {
    let global = test_global(100, 200, u64::MAX);
    let mut curve = curve_with(968_054_210, 30_990_000_000, 968_054_210, 990_000_000, 1_000_000_000);
    let outcome = sell(&mut curve, &global, 20_000_000, 0).unwrap();
    assert_eq!(outcome.sol_out_gross, 627_293_517);
    assert_eq!(outcome.platform_fee, 6_272_935);
    assert_eq!(outcome.reserve_fee, 12_545_870);
    assert_eq!(outcome.sol_out_net, 608_474_712);
    assert_eq!(outcome.reserve_tokens_out, 408_096);
    assert_eq!(curve.virtual_sol_reserves, 30_375_252_353);
    assert_eq!(curve.virtual_token_reserves, 987_646_114);
    assert_eq!(curve.real_sol_reserves, 375_252_353);
    assert_eq!(curve.real_token_reserves, 987_646_114);
    assert!(!curve.complete);
}

#[test]
fn graduation_threshold_crossing() {
    // One unit below the threshold before the buy; reaching it exactly
    // completes the curve, and the completed curve rejects both trade
    // directions for good.
    let global = test_global(0, 0, 250);
    let mut curve = curve_with(1000, 1000, 1000, 0, 1000);
    let outcome = buy(&mut curve, &global, 250, 0).unwrap();
    assert_eq!(outcome.tokens_out, 200);
    assert_eq!(curve.real_sol_reserves, 250);
    assert!(curve.complete);
    let frozen = curve;
    assert_eq!(buy(&mut curve, &global, 1, 0), Err(ErrorCode::BondingCurveComplete));
    assert_eq!(curve, frozen);
    assert_eq!(sell(&mut curve, &global, 1, 0), Err(ErrorCode::BondingCurveComplete));
    assert_eq!(curve, frozen);
}

#[test]
fn graduation_not_reached_below_threshold() {
    let global = test_global(0, 0, 251);
    let mut curve = curve_with(1000, 1000, 1000, 0, 1000);
    buy(&mut curve, &global, 250, 0).unwrap();
    assert_eq!(curve.real_sol_reserves, 250);
    assert!(!curve.complete);
}

#[test]
fn buy_slippage_guard_leaves_curve_unchanged() {
    // The true output is 200 tokens; asking for one more fails and
    // leaves the state untouched.
    let global = test_global(0, 0, u64::MAX);
    let initial = curve_with(1000, 1000, 1000, 0, 1000);
    let mut curve = initial;
    assert_eq!(buy(&mut curve, &global, 250, 201), Err(ErrorCode::SlippageExceeded));
    assert_eq!(curve, initial);
    assert_eq!(buy(&mut curve, &global, 250, 200).unwrap().tokens_out, 200);
}

#[test]
fn sell_slippage_guard_leaves_curve_unchanged() {
    let global = test_global(0, 0, u64::MAX);
    let initial = curve_with(800, 1250, 800, 250, 1000);
    let mut curve = initial;
    assert_eq!(sell(&mut curve, &global, 200, 251), Err(ErrorCode::SlippageExceeded));
    assert_eq!(curve, initial);
}

#[test]
fn buy_insufficient_backing() {
    let global = test_global(0, 0, u64::MAX);
    let initial = curve_with(1000, 1000, 100, 0, 1000);
    let mut curve = initial;
    assert_eq!(buy(&mut curve, &global, 250, 0), Err(ErrorCode::InsufficientBacking));
    assert_eq!(curve, initial);
}

#[test]
fn zero_amount_trades_rejected() {
    let global = test_global(0, 0, u64::MAX);
    let initial = curve_with(1000, 1000, 1000, 0, 1000);
    let mut curve = initial;
    assert_eq!(buy(&mut curve, &global, 0, 0), Err(ErrorCode::InvalidAmount));
    assert_eq!(sell(&mut curve, &global, 0, 0), Err(ErrorCode::InvalidAmount));
    assert_eq!(curve, initial);
}

#[test]
fn buy_fee_product_overflow() {
    let global = test_global(2, 0, u64::MAX);
    let initial = curve_with(1000, 1000, 1000, 0, 1000);
    let mut curve = initial;
    assert_eq!(buy(&mut curve, &global, u64::MAX, 0), Err(ErrorCode::ArithmeticOverflow));
    assert_eq!(curve, initial);
}

#[test]
fn buy_virtual_reserve_overflow() {
    let global = test_global(0, 0, u64::MAX);
    let initial = curve_with(1000, u64::MAX - 10, 1000, 0, 1000);
    let mut curve = initial;
    assert_eq!(buy(&mut curve, &global, 100, 0), Err(ErrorCode::ArithmeticOverflow));
    assert_eq!(curve, initial);
}

#[test]
fn sell_into_empty_curve_underflows() {
    let global = test_global(0, 0, u64::MAX);
    let initial = curve_with(800, 1250, 800, 0, 1000);
    let mut curve = initial;
    assert_eq!(sell(&mut curve, &global, 200, 0), Err(ErrorCode::ArithmeticUnderflow));
    assert_eq!(curve, initial);
}

#[test]
fn fee_components_computed_independently() {
    // Each fee share is its own floor division of the paid-in amount;
    // the combined fee can exceed their sum by a rounding unit, which
    // the trader keeps rather than either fee leg.
    let global = test_global(15, 16, u64::MAX);
    let mut curve = curve_with(1_000_000, 1_000_000, 1_000_000, 0, 1_000_000);
    let outcome = buy(&mut curve, &global, 999, 0).unwrap();
    assert_eq!(outcome.platform_fee, 1);
    assert_eq!(outcome.reserve_fee, 1);
    // combined fee is 3, so the trader's net swap amount is 996, not 997
    assert_eq!(outcome.sol_amount_after_fee, 996);
    assert_eq!(outcome.reserve_tokens_out, 1);
    assert_eq!(outcome.tokens_out, 996);
    assert_eq!(curve.virtual_sol_reserves, 1_000_997);
    assert_eq!(curve.virtual_token_reserves, 999_003);
    assert_eq!(curve.real_sol_reserves, 997);
    assert_eq!(curve.real_token_reserves, 999_003);
}

#[test]
fn token_conservation_across_trades() {
    // The custodied tokens plus everything handed to traders and the
    // reserve always account for the fixed supply.
    let global = test_global(100, 200, u64::MAX);
    let mut curve = curve_with(1_000_000_000, 30_000_000_000, 1_000_000_000, 0, 1_000_000_000);
    let mut distributed: u64 = 0;

    let first = buy(&mut curve, &global, 500_000_000, 0).unwrap();
    distributed += first.tokens_out + first.reserve_tokens_out;
    assert_eq!(curve.real_token_reserves + distributed, 1_000_000_000);

    let second = buy(&mut curve, &global, 250_000_000, 0).unwrap();
    distributed += second.tokens_out + second.reserve_tokens_out;
    assert_eq!(curve.real_token_reserves + distributed, 1_000_000_000);

    let sold = sell(&mut curve, &global, first.tokens_out / 2, 0).unwrap();
    distributed -= first.tokens_out / 2;
    distributed += sold.reserve_tokens_out;
    assert_eq!(curve.real_token_reserves + distributed, 1_000_000_000);
    assert!(curve.real_token_reserves <= curve.token_total_supply);
}
