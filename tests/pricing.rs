use zentro::pricing::{
    calculate_buy_price, calculate_expected_return, calculate_market_price, calculate_payout_odds,
    calculate_sell_price, PricingParams,
};

#[test]
fn test_calculate_buy_price() {
    let current_price = 5000; // 50%
    let shares = 100;
    let liquidity = 100000;

    let yes_price = calculate_buy_price(current_price, shares, liquidity, true).unwrap();
    let no_price = calculate_buy_price(current_price, shares, liquidity, false).unwrap();

    assert!(yes_price > 0);
    assert!(no_price > 0);
    assert_eq!(yes_price, no_price); // Should be equal at 50% price
}

#[test]
fn test_payout_odds() {
    let (yes_odds, no_odds) = calculate_payout_odds(2500); // 25% price

    assert_eq!(yes_odds, 40000); // 4:1 odds for yes
    assert_eq!(no_odds, 13333); // ~1.33:1 odds for no
}

#[test]
fn payout_odds_at_the_boundaries() {
    assert_eq!(calculate_payout_odds(0), (0, 10000));
    assert_eq!(calculate_payout_odds(10000), (10000, 0));
    assert_eq!(calculate_payout_odds(20000), (10000, 0));
    assert_eq!(calculate_payout_odds(5000), (20000, 20000));
}

#[test]
fn market_price_falls_back_to_base_price() {
    let params = PricingParams::default();
    assert_eq!(calculate_market_price(10, 20, 0, &params).unwrap(), 5000);
    assert_eq!(calculate_market_price(0, 0, 100000, &params).unwrap(), 5000);
}

#[test]
fn market_price_applies_liquidity_factor() {
    let params = PricingParams::default();
    // ratio 1000 bp of the depth: factor 8400; even shares: 5000 * 8400 / 10000.
    assert_eq!(calculate_market_price(1000, 1000, 100000, &params).unwrap(), 4200);
    // 6666 * 8400 / 10000 = 5599, plus imbalance 3333 * 100 / 10000 = 33.
    assert_eq!(calculate_market_price(2000, 1000, 100000, &params).unwrap(), 5632);
    assert!(
        calculate_market_price(2000, 1000, 100000, &params).unwrap()
            > calculate_market_price(1000, 1000, 100000, &params).unwrap()
    );
}

#[test]
fn market_price_is_capped_and_factor_clamped() {
    let params = PricingParams::default();
    // deep liquidity: factor capped at 12000; all yes: 10000 * 12000 / 10000 + 100, capped.
    assert_eq!(calculate_market_price(500, 0, u64::MAX, &params).unwrap(), 10000);
    // half depth: factor 10000; 7500 + imbalance 5000 * 100 / 10000 = 50.
    assert_eq!(calculate_market_price(3000, 1000, 500000, &params).unwrap(), 7550);
}

#[test]
fn buy_price_adds_slippage() {
    // order ratio 1000 bp: slippage 1000 * 1000 / 10000 = 100 bp.
    // base 6000 * 10000 / 10000 = 6000; slippage cost 60.
    assert_eq!(calculate_buy_price(6000, 10000, 100000, true).unwrap(), 6060);
    // no side: base 4000; slippage cost 40.
    assert_eq!(calculate_buy_price(6000, 10000, 100000, false).unwrap(), 4040);
    assert_eq!(calculate_buy_price(6000, 0, 100000, true).unwrap(), 0);
    // no liquidity: 500 bp slippage on a base of 500.
    assert_eq!(calculate_buy_price(5000, 1000, 0, true).unwrap(), 525);
}

#[test]
fn sell_price_deducts_slippage() {
    assert_eq!(calculate_sell_price(6000, 10000, 100000, true).unwrap(), 5940);
    assert_eq!(calculate_sell_price(6000, 10000, 100000, false).unwrap(), 3960);
    assert_eq!(calculate_sell_price(6000, 0, 100000, false).unwrap(), 0);
    // a huge order: slippage capped at 1000 bp.
    assert_eq!(calculate_sell_price(5000, 100000, 1000, true).unwrap(), 45000);
}

#[test]
fn expected_return_floors_at_zero() {
    // odds 40000 per 10000: 1000 staked returns 4000, a gain of 3000.
    assert_eq!(calculate_expected_return(1000, 2500, true).unwrap(), 3000);
    // odds 13333: 1000 returns 1333, a gain of 333.
    assert_eq!(calculate_expected_return(1000, 2500, false).unwrap(), 333);
    // price at 10000: no odds pays nothing, gain floored at zero.
    assert_eq!(calculate_expected_return(1000, 10000, false).unwrap(), 0);
}
