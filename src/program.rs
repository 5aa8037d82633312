use vstd::prelude::*;

use crate::error::ErrorCode;
use crate::key::AccountKey;

verus! {

/// A pari-mutuel market: stakes on each side, settled pro rata once an oracle
/// fixes the outcome.
#[derive(Clone, Debug)]
pub struct Market {
    pub id: u64,
    pub question: String,
    /// Last instant for bets, and first for resolution.
    pub end_time: i64,
    /// The only key that may resolve the market.
    pub oracle: AccountKey,
    pub total_yes_tokens: u64,
    pub total_no_tokens: u64,
    pub resolved: bool,
    pub outcome: Option<bool>,
    pub creator: AccountKey,
}

/// One user's stakes in one market.
#[derive(Clone, Copy, Debug)]
pub struct UserPosition {
    pub user: AccountKey,
    pub market: AccountKey,
    pub yes_tokens: u64,
    pub no_tokens: u64,
    pub claimed: bool,
}

/// The notice of a bet.
#[derive(Clone, Copy, Debug)]
pub struct BetPlaced {
    pub market: AccountKey,
    pub user: AccountKey,
    pub amount: u64,
    pub prediction: bool,
}

/// The notice of a resolution.
#[derive(Clone, Copy, Debug)]
pub struct MarketResolved {
    pub market: AccountKey,
    pub outcome: bool,
}

/// The notice of a payout.
#[derive(Clone, Copy, Debug)]
pub struct WinningsClaimed {
    pub market: AccountKey,
    pub user: AccountKey,
    pub amount: u64,
}

impl Market {
    /// A market is resolved exactly when it holds an outcome.
    pub open spec fn wf(&self) -> bool {
        (self.outcome is Some) == self.resolved
    }

    /// The total staked on one side.
    pub open spec fn side_total(&self, side: bool) -> u64 {
        if side {
            self.total_yes_tokens
        } else {
            self.total_no_tokens
        }
    }
}

impl UserPosition {
    /// The position's stake on one side.
    pub open spec fn stake(&self, side: bool) -> u64 {
        if side {
            self.yes_tokens
        } else {
            self.no_tokens
        }
    }
}

/// What `place_bet` returns, short of its notice.
pub open spec fn place_bet_outcome(
    market: Market,
    position: UserPosition,
    amount: u64,
    prediction: bool,
    now: i64,
) -> Result<(), ErrorCode> {
    if market.resolved {
        Err(ErrorCode::MarketResolved)
    } else if now >= market.end_time {
        Err(ErrorCode::MarketExpired)
    } else if amount == 0 {
        Err(ErrorCode::InvalidAmount)
    } else if market.side_total(prediction) + amount > u64::MAX || position.stake(prediction)
        + amount > u64::MAX {
        Err(ErrorCode::ArithmeticOverflow)
    } else {
        Ok(())
    }
}

/// The market after a successful bet.
pub open spec fn market_after_bet(market: Market, amount: u64, prediction: bool) -> Market {
    if prediction {
        Market { total_yes_tokens: (market.total_yes_tokens + amount) as u64, ..market }
    } else {
        Market { total_no_tokens: (market.total_no_tokens + amount) as u64, ..market }
    }
}

/// The position after a successful bet: it names its user and market, and the
/// stake on the chosen side grows by `amount`.
pub open spec fn position_after_bet(
    position: UserPosition,
    user: AccountKey,
    market_key: AccountKey,
    amount: u64,
    prediction: bool,
) -> UserPosition {
    UserPosition {
        user,
        market: market_key,
        yes_tokens: if prediction {
            (position.yes_tokens + amount) as u64
        } else {
            position.yes_tokens
        },
        no_tokens: if prediction {
            position.no_tokens
        } else {
            (position.no_tokens + amount) as u64
        },
        claimed: position.claimed,
    }
}

/// What `resolve_market` returns, short of its notice.
pub open spec fn resolve_market_outcome(market: Market, oracle: AccountKey, now: i64) -> Result<
    (),
    ErrorCode,
> {
    if market.resolved {
        Err(ErrorCode::MarketAlreadyResolved)
    } else if oracle@ != market.oracle@ {
        Err(ErrorCode::UnauthorizedOracle)
    } else if now < market.end_time {
        Err(ErrorCode::MarketNotExpired)
    } else {
        Ok(())
    }
}

/// The market after a successful resolution.
pub open spec fn market_after_resolve(market: Market, outcome: bool) -> Market {
    Market { resolved: true, outcome: Some(outcome), ..market }
}

/// A winner's payout: their winning stake's share of everything staked on
/// both sides, rounded down.
pub open spec fn payout_of(market: Market, position: UserPosition, outcome: bool) -> int {
    (position.stake(outcome) * (market.total_yes_tokens + market.total_no_tokens)) / (
    market.side_total(outcome) as int)
}

/// What `claim_winnings` pays out, or why it refuses.
pub open spec fn claim_outcome(market: Market, position: UserPosition, user: AccountKey) -> Result<
    u64,
    ErrorCode,
> {
    if !market.resolved {
        Err(ErrorCode::MarketNotResolved)
    } else if position.user@ != user@ {
        Err(ErrorCode::UnauthorizedUser)
    } else if position.claimed {
        Err(ErrorCode::AlreadyClaimed)
    } else {
        match market.outcome {
            None => Err(ErrorCode::MarketNotResolved),
            Some(outcome) => if position.stake(outcome) == 0 {
                Err(ErrorCode::NoWinnings)
            } else if market.side_total(outcome) == 0 || market.total_yes_tokens
                + market.total_no_tokens > u64::MAX || payout_of(market, position, outcome)
                > u64::MAX {
                Err(ErrorCode::ArithmeticOverflow)
            } else {
                Ok(payout_of(market, position, outcome) as u64)
            },
        }
    }
}


/// Sets up an open market with empty totals, created by `creator` and resolved
/// by `oracle`.
pub fn initialize_market(
    market: &mut Market,
    creator: AccountKey,
    market_id: u64,
    question: String,
    end_time: i64,
    oracle: AccountKey,
) -> (r: Result<(), ErrorCode>)
    ensures
        r is Ok,
        *final(market) == (Market {
            id: market_id,
            question,
            end_time,
            oracle,
            total_yes_tokens: 0,
            total_no_tokens: 0,
            resolved: false,
            outcome: None,
            creator,
        }),
        final(market).wf(),
{
    market.id = market_id;
    market.question = question;
    market.end_time = end_time;
    market.oracle = oracle;
    market.total_yes_tokens = 0;
    market.total_no_tokens = 0;
    market.resolved = false;
    market.outcome = None;
    market.creator = creator;
    Ok(())
}

/// Records a stake of `amount` by `user` on `prediction` at time `now`, in the
/// market's totals and in the user's position, and returns the notice of the
/// bet. Moving the tokens is the caller's part.
pub fn place_bet(
    market: &mut Market,
    market_key: AccountKey,
    position: &mut UserPosition,
    user: AccountKey,
    amount: u64,
    prediction: bool,
    now: i64,
) -> (r: Result<BetPlaced, ErrorCode>)
    ensures
        place_bet_outcome(*old(market), *old(position), amount, prediction, now) is Err ==> r
            == Err::<BetPlaced, ErrorCode>(
            place_bet_outcome(*old(market), *old(position), amount, prediction, now)->Err_0,
        ) && *final(market) == *old(market) && *final(position) == *old(position),
        place_bet_outcome(*old(market), *old(position), amount, prediction, now) is Ok ==> r
            == Ok::<BetPlaced, ErrorCode>(
            BetPlaced { market: market_key, user, amount, prediction },
        ) && *final(market) == market_after_bet(*old(market), amount, prediction)
            && *final(position) == position_after_bet(
            *old(position),
            user,
            market_key,
            amount,
            prediction,
        ),
        old(market).wf() ==> final(market).wf(),
{
    if market.resolved {
        return Err(ErrorCode::MarketResolved);
    }
    if now >= market.end_time {
        return Err(ErrorCode::MarketExpired);
    }
    if amount == 0 {
        return Err(ErrorCode::InvalidAmount);
    }
    let side_total = if prediction {
        market.total_yes_tokens
    } else {
        market.total_no_tokens
    };
    let stake = if prediction {
        position.yes_tokens
    } else {
        position.no_tokens
    };
    let new_side_total = side_total.checked_add(amount).ok_or(ErrorCode::ArithmeticOverflow)?;
    let new_stake = stake.checked_add(amount).ok_or(ErrorCode::ArithmeticOverflow)?;
    if prediction {
        market.total_yes_tokens = new_side_total;
        position.yes_tokens = new_stake;
    } else {
        market.total_no_tokens = new_side_total;
        position.no_tokens = new_stake;
    }
    position.user = user;
    position.market = market_key;
    Ok(BetPlaced { market: market_key, user, amount, prediction })
}

/// Fixes the outcome, once, when `oracle` is the market's oracle and `now` is
/// not before the end time; returns the notice of the resolution.
pub fn resolve_market(
    market: &mut Market,
    market_key: AccountKey,
    oracle: AccountKey,
    outcome: bool,
    now: i64,
) -> (r: Result<MarketResolved, ErrorCode>)
    ensures
        resolve_market_outcome(*old(market), oracle, now) is Err ==> r == Err::<
            MarketResolved,
            ErrorCode,
        >(resolve_market_outcome(*old(market), oracle, now)->Err_0) && *final(market)
            == *old(market),
        resolve_market_outcome(*old(market), oracle, now) is Ok ==> r == Ok::<
            MarketResolved,
            ErrorCode,
        >(MarketResolved { market: market_key, outcome }) && *final(market)
            == market_after_resolve(*old(market), outcome),
        old(market).wf() ==> final(market).wf(),
{
    if market.resolved {
        return Err(ErrorCode::MarketAlreadyResolved);
    }
    if !oracle.same(&market.oracle) {
        return Err(ErrorCode::UnauthorizedOracle);
    }
    if now < market.end_time {
        return Err(ErrorCode::MarketNotExpired);
    }
    market.resolved = true;
    market.outcome = Some(outcome);
    Ok(MarketResolved { market: market_key, outcome })
}

/// Settles `user`'s winning position in a resolved market: computes the
/// payout, marks the position claimed, and returns the notice of the payout.
/// Moving the tokens is the caller's part, committed together with the claim.
pub fn claim_winnings(
    market: &Market,
    market_key: AccountKey,
    position: &mut UserPosition,
    user: AccountKey,
) -> (r: Result<WinningsClaimed, ErrorCode>)
    ensures
        claim_outcome(*market, *old(position), user) is Err ==> r == Err::<
            WinningsClaimed,
            ErrorCode,
        >(claim_outcome(*market, *old(position), user)->Err_0) && *final(position)
            == *old(position),
        claim_outcome(*market, *old(position), user) is Ok ==> r == Ok::<
            WinningsClaimed,
            ErrorCode,
        >(
            WinningsClaimed {
                market: market_key,
                user,
                amount: claim_outcome(*market, *old(position), user)->Ok_0,
            },
        ) && *final(position) == (UserPosition { claimed: true, ..*old(position) }),
{
    if !market.resolved {
        return Err(ErrorCode::MarketNotResolved);
    }
    if !position.user.same(&user) {
        return Err(ErrorCode::UnauthorizedUser);
    }
    if position.claimed {
        return Err(ErrorCode::AlreadyClaimed);
    }
    let outcome = match market.outcome {
        Some(o) => o,
        None => {
            return Err(ErrorCode::MarketNotResolved);
        },
    };
    let winning_tokens = if outcome {
        position.yes_tokens
    } else {
        position.no_tokens
    };
    if winning_tokens == 0 {
        return Err(ErrorCode::NoWinnings);
    }
    let total_winning_pool = if outcome {
        market.total_yes_tokens
    } else {
        market.total_no_tokens
    };
    if total_winning_pool == 0 {
        return Err(ErrorCode::ArithmeticOverflow);
    }
    let total_pool = market.total_yes_tokens.checked_add(market.total_no_tokens).ok_or(
        ErrorCode::ArithmeticOverflow,
    )?;
    assert((winning_tokens as int) * (total_pool as int) <= u128::MAX) by (nonlinear_arith)
        requires
            winning_tokens <= u64::MAX,
            total_pool <= u64::MAX,
    ;
    let payout = (winning_tokens as u128) * (total_pool as u128) / (total_winning_pool as u128);
    if payout > u64::MAX as u128 {
        return Err(ErrorCode::ArithmeticOverflow);
    }
    position.claimed = true;
    Ok(WinningsClaimed { market: market_key, user, amount: payout as u64 })
}

/// Resolution finality: once `resolve_market` succeeds, every later
/// `resolve_market` and `place_bet` fails, whoever calls and whenever, and the
/// outcome stays the one fixed.
pub proof fn lemma_resolution_final(
    market: Market,
    oracle: AccountKey,
    now: i64,
    outcome: bool,
    later_oracle: AccountKey,
    later_now: i64,
    position: UserPosition,
    amount: u64,
    prediction: bool,
)
    requires
        resolve_market_outcome(market, oracle, now) is Ok,
    ensures
        ({
            let resolved = market_after_resolve(market, outcome);
            &&& resolved.outcome == Some(outcome)
            &&& resolve_market_outcome(resolved, later_oracle, later_now) == Err::<(), ErrorCode>(
                ErrorCode::MarketAlreadyResolved,
            )
            &&& place_bet_outcome(resolved, position, amount, prediction, later_now) == Err::<
                (),
                ErrorCode,
            >(ErrorCode::MarketResolved)
        }),
{
}

/// At most one claim: once a claim on a position succeeds, every later claim on
/// it fails, with `AlreadyClaimed` when its owner makes it.
pub proof fn lemma_claim_at_most_once(
    market: Market,
    position: UserPosition,
    user: AccountKey,
    later_user: AccountKey,
)
    requires
        claim_outcome(market, position, user) is Ok,
    ensures
        ({
            let claimed = UserPosition { claimed: true, ..position };
            &&& claim_outcome(market, claimed, user) == Err::<u64, ErrorCode>(
                ErrorCode::AlreadyClaimed,
            )
            &&& claim_outcome(market, claimed, later_user) is Err
        }),
{
}

} // verus!
