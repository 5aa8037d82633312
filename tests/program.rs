use zentro::error::ErrorCode;
use zentro::key::AccountKey;
use zentro::program::{claim_winnings, initialize_market, place_bet, resolve_market, Market, UserPosition};

fn key(b: u8) -> AccountKey {
    AccountKey::new([b; 32])
}

fn new_market() -> Market {
    let mut market = Market {
        id: 0,
        question: String::new(),
        end_time: 0,
        oracle: key(0),
        total_yes_tokens: 9,
        total_no_tokens: 9,
        resolved: true,
        outcome: Some(true),
        creator: key(0),
    };
    initialize_market(&mut market, key(1), 42, String::from("Will it snow?"), 2000, key(9)).unwrap();
    market
}

fn new_position() -> UserPosition {
    UserPosition { user: key(0), market: key(0), yes_tokens: 0, no_tokens: 0, claimed: false }
}

const MARKET_KEY: u8 = 50;

#[test]
fn initialize_market_sets_up_open_market() {
    let market = new_market();
    assert_eq!(market.id, 42);
    assert_eq!(market.question, "Will it snow?");
    assert_eq!((market.total_yes_tokens, market.total_no_tokens), (0, 0));
    assert!(!market.resolved);
    assert_eq!(market.outcome, None);
    assert!(market.oracle.same(&key(9)));
    assert!(market.creator.same(&key(1)));
}

#[test]
fn place_bet_records_stake() {
    let mut market = new_market();
    let mut position = new_position();
    let notice = place_bet(&mut market, key(MARKET_KEY), &mut position, key(3), 70, true, 1500).unwrap();
    assert_eq!((notice.amount, notice.prediction), (70, true));
    assert!(notice.user.same(&key(3)));
    assert!(notice.market.same(&key(MARKET_KEY)));
    place_bet(&mut market, key(MARKET_KEY), &mut position, key(3), 30, false, 1500).unwrap();
    assert_eq!((market.total_yes_tokens, market.total_no_tokens), (70, 30));
    assert_eq!((position.yes_tokens, position.no_tokens), (70, 30));
    assert!(position.user.same(&key(3)));
    assert!(position.market.same(&key(MARKET_KEY)));
}

#[test]
fn place_bet_errors() {
    let mut market = new_market();
    let mut position = new_position();
    assert_eq!(place_bet(&mut market, key(MARKET_KEY), &mut position, key(3), 0, true, 1500).unwrap_err(), ErrorCode::InvalidAmount);
    assert_eq!(place_bet(&mut market, key(MARKET_KEY), &mut position, key(3), 5, true, 2000).unwrap_err(), ErrorCode::MarketExpired);
    market.total_yes_tokens = u64::MAX;
    assert_eq!(place_bet(&mut market, key(MARKET_KEY), &mut position, key(3), 5, true, 1500).unwrap_err(), ErrorCode::ArithmeticOverflow);
    assert_eq!(position.yes_tokens, 0);
    assert!(position.user.same(&key(0)));
    market.resolved = true;
    market.outcome = Some(true);
    assert_eq!(place_bet(&mut market, key(MARKET_KEY), &mut position, key(3), 5, false, 1500).unwrap_err(), ErrorCode::MarketResolved);
}

#[test]
fn resolve_market_checks_oracle_and_time() {
    let mut market = new_market();
    assert_eq!(resolve_market(&mut market, key(MARKET_KEY), key(8), true, 2500).unwrap_err(), ErrorCode::UnauthorizedOracle);
    assert_eq!(resolve_market(&mut market, key(MARKET_KEY), key(9), true, 1999).unwrap_err(), ErrorCode::MarketNotExpired);
    assert!(!market.resolved);
    let notice = resolve_market(&mut market, key(MARKET_KEY), key(9), true, 2000).unwrap();
    assert!(notice.outcome);
    assert_eq!(market.outcome, Some(true));
    assert_eq!(resolve_market(&mut market, key(MARKET_KEY), key(9), false, 3000).unwrap_err(), ErrorCode::MarketAlreadyResolved);
    let mut position = new_position();
    assert_eq!(place_bet(&mut market, key(MARKET_KEY), &mut position, key(3), 5, false, 1500).unwrap_err(), ErrorCode::MarketResolved);
    assert_eq!(market.outcome, Some(true));
}

#[test]
fn winner_claims_pro_rata_share_once() {
    let mut market = new_market();
    let mut alice = new_position();
    let mut bob = new_position();
    let mut carol = new_position();
    place_bet(&mut market, key(MARKET_KEY), &mut alice, key(3), 100, true, 1500).unwrap();
    place_bet(&mut market, key(MARKET_KEY), &mut bob, key(4), 200, true, 1500).unwrap();
    place_bet(&mut market, key(MARKET_KEY), &mut carol, key(5), 400, false, 1500).unwrap();
    assert_eq!(claim_winnings(&market, key(MARKET_KEY), &mut alice, key(3)).unwrap_err(), ErrorCode::MarketNotResolved);
    resolve_market(&mut market, key(MARKET_KEY), key(9), true, 2000).unwrap();
    // 100 * 700 / 300 = 233, rounded down.
    let paid = claim_winnings(&market, key(MARKET_KEY), &mut alice, key(3)).unwrap();
    assert_eq!(paid.amount, 233);
    assert!(alice.claimed);
    assert_eq!(claim_winnings(&market, key(MARKET_KEY), &mut alice, key(3)).unwrap_err(), ErrorCode::AlreadyClaimed);
    assert_eq!(claim_winnings(&market, key(MARKET_KEY), &mut alice, key(4)).unwrap_err(), ErrorCode::UnauthorizedUser);
    assert_eq!(claim_winnings(&market, key(MARKET_KEY), &mut bob, key(4)).unwrap().amount, 466);
    assert_eq!(claim_winnings(&market, key(MARKET_KEY), &mut carol, key(5)).unwrap_err(), ErrorCode::NoWinnings);
    assert!(!carol.claimed);
}

#[test]
fn claim_refuses_another_user() {
    let mut market = new_market();
    let mut position = new_position();
    place_bet(&mut market, key(MARKET_KEY), &mut position, key(3), 10, false, 1500).unwrap();
    resolve_market(&mut market, key(MARKET_KEY), key(9), false, 2000).unwrap();
    assert_eq!(claim_winnings(&market, key(MARKET_KEY), &mut position, key(4)).unwrap_err(), ErrorCode::UnauthorizedUser);
    assert!(!position.claimed);
    assert_eq!(claim_winnings(&market, key(MARKET_KEY), &mut position, key(3)).unwrap().amount, 10);
}

#[test]
fn claim_refuses_overflowing_totals() {
    let mut market = new_market();
    market.resolved = true;
    market.outcome = Some(true);
    market.total_yes_tokens = u64::MAX;
    market.total_no_tokens = 1;
    let mut position = UserPosition { user: key(3), market: key(MARKET_KEY), yes_tokens: 5, no_tokens: 0, claimed: false };
    assert_eq!(claim_winnings(&market, key(MARKET_KEY), &mut position, key(3)).unwrap_err(), ErrorCode::ArithmeticOverflow);
    assert!(!position.claimed);
}
