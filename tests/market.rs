use zentro::error::MarketError;
use zentro::key::AccountKey;
use zentro::market::Market;

fn open_market(min_bet: u64, max_bet: u64) -> Market {
    let mut market = Market::default();
    market
        .initialize(
            AccountKey::new([7; 32]),
            String::from("Will it rain tomorrow?"),
            String::from("Resolves yes if any rain is recorded."),
            String::from("weather"),
            String::from("national weather service"),
            2000,
            100,
            50,
            min_bet,
            max_bet,
            255,
            1000,
        )
        .unwrap();
    market
}

#[test]
fn initialize_sets_up_an_open_market() {
    let market = open_market(10, 1000);
    assert_eq!(market.title, "Will it rain tomorrow?");
    assert_eq!(market.end_time, 2000);
    assert_eq!(market.created_at, 1000);
    assert!(!market.resolved);
    assert_eq!(market.resolution, None);
    assert_eq!(market.resolved_at, None);
    assert_eq!((market.total_yes_amount, market.total_no_amount), (0, 0));
    assert_eq!((market.creator_fee_rate, market.platform_fee_rate), (100, 50));
    assert_eq!(market.bump, 255);
}

fn try_initialize(
    title: &str,
    description: &str,
    category: &str,
    source: &str,
    end_time: i64,
    fees: (u16, u16),
    bets: (u64, u64),
) -> Result<(), MarketError> {
    let mut market = Market::default();
    let r = market.initialize(
        AccountKey::new([7; 32]),
        String::from(title),
        String::from(description),
        String::from(category),
        String::from(source),
        end_time,
        fees.0,
        fees.1,
        bets.0,
        bets.1,
        0,
        1000,
    );
    if r.is_err() {
        assert_eq!(market.title, "");
        assert_eq!(market.end_time, 0);
    }
    r
}

#[test]
fn initialize_validates_each_parameter() {
    let long = "x".repeat(201);
    assert_eq!(try_initialize(&long, "", "", "", 2000, (0, 0), (1, 1)), Err(MarketError::TitleTooLong));
    assert_eq!(try_initialize(&"x".repeat(200), "", "", "", 2000, (0, 0), (1, 1)), Ok(()));
    // 101 two-byte characters are 202 bytes.
    assert_eq!(try_initialize(&"é".repeat(101), "", "", "", 2000, (0, 0), (1, 1)), Err(MarketError::TitleTooLong));
    assert_eq!(
        try_initialize("t", &"d".repeat(501), "", "", 2000, (0, 0), (1, 1)),
        Err(MarketError::DescriptionTooLong)
    );
    assert_eq!(
        try_initialize("t", "d", &"c".repeat(51), "", 2000, (0, 0), (1, 1)),
        Err(MarketError::CategoryTooLong)
    );
    assert_eq!(
        try_initialize("t", "d", "c", &"s".repeat(201), 2000, (0, 0), (1, 1)),
        Err(MarketError::ResolutionSourceTooLong)
    );
    assert_eq!(try_initialize("t", "d", "c", "s", 1000, (0, 0), (1, 1)), Err(MarketError::InvalidEndTime));
    assert_eq!(try_initialize("t", "d", "c", "s", 2000, (1001, 0), (1, 1)), Err(MarketError::InvalidFeeRate));
    assert_eq!(try_initialize("t", "d", "c", "s", 2000, (0, 1001), (1, 1)), Err(MarketError::InvalidFeeRate));
    assert_eq!(try_initialize("t", "d", "c", "s", 2000, (0, 0), (0, 1)), Err(MarketError::InvalidBetAmount));
    assert_eq!(try_initialize("t", "d", "c", "s", 2000, (0, 0), (5, 4)), Err(MarketError::InvalidBetAmount));
    assert_eq!(try_initialize("t", "d", "c", "s", 2000, (1000, 1000), (5, 5)), Ok(()));
}

#[test]
fn bets_outside_limits_are_refused() {
    let mut market = open_market(10, 1000);
    assert_eq!(market.place_bet(5, true, 1500), Err(MarketError::BetOutOfRange));
    assert_eq!(market.total_yes_amount, 0);
    assert_eq!(market.place_bet(10, true, 1500), Ok(()));
    assert_eq!(market.total_yes_amount, 10);
    assert_eq!(market.place_bet(1001, false, 1500), Err(MarketError::BetOutOfRange));
    assert_eq!(market.place_bet(1000, false, 1500), Ok(()));
    assert_eq!(market.total_no_amount, 1000);
}

#[test]
fn bets_close_at_end_time() {
    let mut market = open_market(10, 1000);
    assert_eq!(market.place_bet(10, true, 1999), Ok(()));
    assert_eq!(market.place_bet(10, true, 2000), Err(MarketError::MarketExpired));
    assert_eq!(market.total_yes_amount, 10);
}

#[test]
fn bet_overflow_is_refused() {
    let mut market = open_market(10, u64::MAX);
    market.place_bet(u64::MAX, false, 1500).unwrap();
    assert_eq!(market.place_bet(10, false, 1500), Err(MarketError::Overflow));
    assert_eq!(market.total_no_amount, u64::MAX);
    assert_eq!(market.get_total_pool(), u64::MAX);
    market.place_bet(10, true, 1500).unwrap();
    assert_eq!(market.get_total_pool(), u64::MAX);
}

#[test]
fn resolution_is_final() {
    let mut market = open_market(10, 1000);
    market.place_bet(100, true, 1500).unwrap();
    assert_eq!(market.resolve(true, 1999), Err(MarketError::MarketNotExpired));
    assert!(!market.can_resolve(1999));
    assert!(market.can_resolve(2000));
    assert_eq!(market.resolve(false, 2000), Ok(()));
    assert_eq!(market.resolution, Some(false));
    assert_eq!(market.resolved_at, Some(2000));
    assert_eq!(market.resolve(true, 3000), Err(MarketError::AlreadyResolved));
    assert_eq!(market.place_bet(100, true, 1500), Err(MarketError::MarketResolved));
    assert_eq!(market.resolution, Some(false));
    assert_eq!(market.total_yes_amount, 100);
    assert!(!market.can_resolve(3000));
}

#[test]
fn expiry_and_totals() {
    let mut market = open_market(1, 1000);
    assert!(!market.is_expired(1999));
    assert!(market.is_expired(2000));
    market.place_bet(300, true, 1000).unwrap();
    market.place_bet(200, false, 1000).unwrap();
    assert_eq!(market.get_total_pool(), 500);
}
