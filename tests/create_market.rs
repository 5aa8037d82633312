use zentro::create_market::create_market;
use zentro::error::ZentroError;
use zentro::key::AccountKey;
use zentro::market::Market;

fn create(market: &mut Market, market_id: &str, title: &str, description: &str, end_time: i64) -> Result<zentro::create_market::MarketCreated, ZentroError> {
    create_market(
        market,
        AccountKey::new([1; 32]),
        AccountKey::new([2; 32]),
        String::from(market_id),
        String::from(title),
        String::from(description),
        end_time,
        String::from("sports"),
        9,
        100,
    )
}

#[test]
fn create_market_opens_the_market() {
    let mut market = Market::default();
    market.total_yes_amount = 5;
    market.min_bet_amount = 3;
    let notice = create(&mut market, "final-2026", "Who wins the final?", "Match on Sunday.", 500).unwrap();
    assert_eq!(notice.market_id, "final-2026");
    assert_eq!(notice.title, "Who wins the final?");
    assert_eq!((notice.end_time, notice.created_at), (500, 100));
    assert!(notice.market.same(&AccountKey::new([1; 32])));
    assert!(notice.authority.same(&AccountKey::new([2; 32])));
    assert_eq!(market.title, "Who wins the final?");
    assert_eq!(market.category, "sports");
    assert_eq!((market.end_time, market.created_at, market.bump), (500, 100, 9));
    assert_eq!(market.total_yes_amount, 0);
    assert_eq!(market.min_bet_amount, 3);
    assert!(!market.resolved);
}

#[test]
fn create_market_validates_its_parameters() {
    let mut market = Market::default();
    assert_eq!(create(&mut market, "m", "t", "d", 100).unwrap_err(), ZentroError::InvalidMarketDuration);
    assert_eq!(create(&mut market, "m", &"t".repeat(201), "d", 500).unwrap_err(), ZentroError::MarketTitleTooLong);
    assert_eq!(create(&mut market, "m", "t", &"d".repeat(1001), 500).unwrap_err(), ZentroError::MarketDescriptionTooLong);
    assert!(create(&mut Market::default(), "m", "t", &"d".repeat(1000), 500).is_ok());
    assert_eq!(create(&mut market, &"m".repeat(51), "t", "d", 500).unwrap_err(), ZentroError::MarketIdTooLong);
    assert_eq!(market.title, "");
}
