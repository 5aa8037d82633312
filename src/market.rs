use vstd::prelude::*;
use vstd::utf8::encode_utf8;

use crate::error::MarketError;
use crate::key::AccountKey;

verus! {

/// Longest title, in bytes.
pub const MAX_TITLE_LEN: usize = 200;

/// Longest description, in bytes.
pub const MAX_DESCRIPTION_LEN: usize = 500;

/// Longest category, in bytes.
pub const MAX_CATEGORY_LEN: usize = 50;

/// Longest resolution source, in bytes.
pub const MAX_RESOLUTION_SOURCE_LEN: usize = 200;

/// Highest creator or platform fee rate, in basis points (10%).
pub const MAX_MARKET_FEE_RATE: u16 = 1000;

/// The length in bytes of a string's UTF-8 encoding, as the machine counts it.
pub open spec fn byte_len(s: Seq<char>) -> usize {
    encode_utf8(s).len() as usize
}

/// The length in bytes of `s`.
pub fn text_len(s: &String) -> (r: usize)
    ensures
        r == byte_len(s@),
{
    s.as_str().len()
}

/// A prediction market with creator and platform fees and bet limits.
#[derive(Clone, Debug)]
pub struct Market {
    pub authority: AccountKey,
    pub title: String,
    pub description: String,
    pub category: String,
    pub resolution_source: String,
    /// Last instant for bets, and first for resolution.
    pub end_time: i64,
    pub resolved: bool,
    pub resolution: Option<bool>,
    pub total_yes_amount: u64,
    pub total_no_amount: u64,
    pub creator_fee_rate: u16,
    pub platform_fee_rate: u16,
    pub min_bet_amount: u64,
    pub max_bet_amount: u64,
    pub created_at: i64,
    pub resolved_at: Option<i64>,
    pub bump: u8,
}

/// The first rule that the parameters of `Market::initialize` break, if any.
pub open spec fn initialize_error(
    title: Seq<char>,
    description: Seq<char>,
    category: Seq<char>,
    resolution_source: Seq<char>,
    end_time: i64,
    creator_fee_rate: u16,
    platform_fee_rate: u16,
    min_bet_amount: u64,
    max_bet_amount: u64,
    now: i64,
) -> Option<MarketError> {
    if byte_len(title) > MAX_TITLE_LEN {
        Some(MarketError::TitleTooLong)
    } else if byte_len(description) > MAX_DESCRIPTION_LEN {
        Some(MarketError::DescriptionTooLong)
    } else if byte_len(category) > MAX_CATEGORY_LEN {
        Some(MarketError::CategoryTooLong)
    } else if byte_len(resolution_source) > MAX_RESOLUTION_SOURCE_LEN {
        Some(MarketError::ResolutionSourceTooLong)
    } else if end_time <= now {
        Some(MarketError::InvalidEndTime)
    } else if creator_fee_rate > MAX_MARKET_FEE_RATE || platform_fee_rate > MAX_MARKET_FEE_RATE {
        Some(MarketError::InvalidFeeRate)
    } else if min_bet_amount == 0 || max_bet_amount < min_bet_amount {
        Some(MarketError::InvalidBetAmount)
    } else {
        None
    }
}

impl Market {
    /// A market is resolved exactly when it holds an outcome and a resolution time.
    pub open spec fn wf(&self) -> bool {
        &&& (self.resolution is Some) == self.resolved
        &&& (self.resolved_at is Some) == self.resolved
    }

    /// What `place_bet(amount, is_yes, now)` returns.
    pub open spec fn place_bet_outcome(&self, amount: u64, is_yes: bool, now: i64) -> Result<
        (),
        MarketError,
    > {
        let side = if is_yes {
            self.total_yes_amount
        } else {
            self.total_no_amount
        };
        if self.resolved {
            Err(MarketError::MarketResolved)
        } else if now >= self.end_time {
            Err(MarketError::MarketExpired)
        } else if amount < self.min_bet_amount || amount > self.max_bet_amount {
            Err(MarketError::BetOutOfRange)
        } else if side + amount > u64::MAX {
            Err(MarketError::Overflow)
        } else {
            Ok(())
        }
    }

    /// The market after a successful bet: the chosen side's total grows by `amount`.
    pub open spec fn after_bet(&self, amount: u64, is_yes: bool) -> Market {
        if is_yes {
            Market { total_yes_amount: (self.total_yes_amount + amount) as u64, ..*self }
        } else {
            Market { total_no_amount: (self.total_no_amount + amount) as u64, ..*self }
        }
    }

    /// What `resolve(resolution, now)` returns.
    pub open spec fn resolve_outcome(&self, now: i64) -> Result<(), MarketError> {
        if self.resolved {
            Err(MarketError::AlreadyResolved)
        } else if now < self.end_time {
            Err(MarketError::MarketNotExpired)
        } else {
            Ok(())
        }
    }

    /// The market after a successful resolution.
    pub open spec fn after_resolve(&self, resolution: bool, now: i64) -> Market {
        Market { resolved: true, resolution: Some(resolution), resolved_at: Some(now), ..*self }
    }
}

impl Default for Market {
    /// A blank market, to be set up by `initialize`.
    fn default() -> (r: Market)
        ensures
            r.authority@ == Seq::new(32, |i: int| 0u8),
            r.title@.len() == 0,
            r.description@.len() == 0,
            r.category@.len() == 0,
            r.resolution_source@.len() == 0,
            r.end_time == 0,
            !r.resolved,
            r.resolution is None,
            r.total_yes_amount == 0,
            r.total_no_amount == 0,
            r.creator_fee_rate == 0,
            r.platform_fee_rate == 0,
            r.min_bet_amount == 0,
            r.max_bet_amount == 0,
            r.created_at == 0,
            r.resolved_at is None,
            r.bump == 0,
            r.wf(),
    {
        let r = Market {
            authority: AccountKey::new([0u8; 32]),
            title: String::new(),
            description: String::new(),
            category: String::new(),
            resolution_source: String::new(),
            end_time: 0,
            resolved: false,
            resolution: None,
            total_yes_amount: 0,
            total_no_amount: 0,
            creator_fee_rate: 0,
            platform_fee_rate: 0,
            min_bet_amount: 0,
            max_bet_amount: 0,
            created_at: 0,
            resolved_at: None,
            bump: 0,
        };
        assert(r.authority@ =~= Seq::new(32, |i: int| 0u8));
        r
    }
}


impl Market {
    /// Sets up an open market with empty totals, after checking the lengths of
    /// its texts, that it ends after `now`, its fee rates and its bet limits.
    pub fn initialize(
        &mut self,
        authority: AccountKey,
        title: String,
        description: String,
        category: String,
        resolution_source: String,
        end_time: i64,
        creator_fee_rate: u16,
        platform_fee_rate: u16,
        min_bet_amount: u64,
        max_bet_amount: u64,
        bump: u8,
        now: i64,
    ) -> (r: Result<(), MarketError>)
        ensures
            ({
                let check = initialize_error(
                    title@,
                    description@,
                    category@,
                    resolution_source@,
                    end_time,
                    creator_fee_rate,
                    platform_fee_rate,
                    min_bet_amount,
                    max_bet_amount,
                    now,
                );
                match check {
                    Some(e) => r == Err::<(), MarketError>(e) && *final(self) == *old(self),
                    None => r is Ok && *final(self) == (Market {
                        authority,
                        title,
                        description,
                        category,
                        resolution_source,
                        end_time,
                        resolved: false,
                        resolution: None,
                        total_yes_amount: 0,
                        total_no_amount: 0,
                        creator_fee_rate,
                        platform_fee_rate,
                        min_bet_amount,
                        max_bet_amount,
                        created_at: now,
                        resolved_at: None,
                        bump,
                    }) && final(self).wf(),
                }
            }),
    {
        if text_len(&title) > MAX_TITLE_LEN {
            return Err(MarketError::TitleTooLong);
        }
        if text_len(&description) > MAX_DESCRIPTION_LEN {
            return Err(MarketError::DescriptionTooLong);
        }
        if text_len(&category) > MAX_CATEGORY_LEN {
            return Err(MarketError::CategoryTooLong);
        }
        if text_len(&resolution_source) > MAX_RESOLUTION_SOURCE_LEN {
            return Err(MarketError::ResolutionSourceTooLong);
        }
        if end_time <= now {
            return Err(MarketError::InvalidEndTime);
        }
        if creator_fee_rate > MAX_MARKET_FEE_RATE || platform_fee_rate > MAX_MARKET_FEE_RATE {
            return Err(MarketError::InvalidFeeRate);
        }
        if min_bet_amount == 0 || max_bet_amount < min_bet_amount {
            return Err(MarketError::InvalidBetAmount);
        }
        self.authority = authority;
        self.title = title;
        self.description = description;
        self.category = category;
        self.resolution_source = resolution_source;
        self.end_time = end_time;
        self.resolved = false;
        self.resolution = None;
        self.total_yes_amount = 0;
        self.total_no_amount = 0;
        self.creator_fee_rate = creator_fee_rate;
        self.platform_fee_rate = platform_fee_rate;
        self.min_bet_amount = min_bet_amount;
        self.max_bet_amount = max_bet_amount;
        self.created_at = now;
        self.resolved_at = None;
        self.bump = bump;
        Ok(())
    }

    /// Adds a bet of `amount` on one side, at time `now`.
    pub fn place_bet(&mut self, amount: u64, is_yes: bool, now: i64) -> (r: Result<(), MarketError>)
        ensures
            r == old(self).place_bet_outcome(amount, is_yes, now),
            r is Ok ==> *final(self) == old(self).after_bet(amount, is_yes),
            r is Err ==> *final(self) == *old(self),
            old(self).wf() ==> final(self).wf(),
    {
        if self.resolved {
            return Err(MarketError::MarketResolved);
        }
        if now >= self.end_time {
            return Err(MarketError::MarketExpired);
        }
        if amount < self.min_bet_amount || amount > self.max_bet_amount {
            return Err(MarketError::BetOutOfRange);
        }
        if is_yes {
            self.total_yes_amount = self.total_yes_amount.checked_add(amount).ok_or(
                MarketError::Overflow,
            )?;
        } else {
            self.total_no_amount = self.total_no_amount.checked_add(amount).ok_or(
                MarketError::Overflow,
            )?;
        }
        Ok(())
    }

    /// Fixes the outcome at time `now`, once, and not before the end time.
    pub fn resolve(&mut self, resolution: bool, now: i64) -> (r: Result<(), MarketError>)
        ensures
            r == old(self).resolve_outcome(now),
            r is Ok ==> *final(self) == old(self).after_resolve(resolution, now),
            r is Err ==> *final(self) == *old(self),
            old(self).wf() ==> final(self).wf(),
    {
        if self.resolved {
            return Err(MarketError::AlreadyResolved);
        }
        if now < self.end_time {
            return Err(MarketError::MarketNotExpired);
        }
        self.resolved = true;
        self.resolution = Some(resolution);
        self.resolved_at = Some(now);
        Ok(())
    }

    /// Both sides' totals together, saturating at the largest `u64`.
    pub fn get_total_pool(&self) -> (r: u64)
        ensures
            r == if self.total_yes_amount + self.total_no_amount > u64::MAX {
                u64::MAX as int
            } else {
                self.total_yes_amount + self.total_no_amount
            },
    {
        self.total_yes_amount.saturating_add(self.total_no_amount)
    }

    /// Whether betting has closed at time `now`.
    pub fn is_expired(&self, now: i64) -> (r: bool)
        ensures
            r == (now >= self.end_time),
    {
        now >= self.end_time
    }

    /// Whether the market may be resolved at time `now`.
    pub fn can_resolve(&self, now: i64) -> (r: bool)
        ensures
            r == (!self.resolved && now >= self.end_time),
    {
        !self.resolved && self.is_expired(now)
    }
}

/// Resolution finality: once `resolve` succeeds, every later `resolve` and
/// `place_bet` fails, whatever its arguments, and the outcome stays the one fixed.
pub proof fn lemma_market_resolution_final(
    m: Market,
    resolution: bool,
    now: i64,
    later_now: i64,
    amount: u64,
    is_yes: bool,
)
    requires
        m.resolve_outcome(now) is Ok,
    ensures
        ({
            let resolved = m.after_resolve(resolution, now);
            &&& resolved.resolution == Some(resolution)
            &&& resolved.resolve_outcome(later_now) == Err::<(), MarketError>(
                MarketError::AlreadyResolved,
            )
            &&& resolved.place_bet_outcome(amount, is_yes, later_now) == Err::<(), MarketError>(
                MarketError::MarketResolved,
            )
        }),
{
}

} // verus!
