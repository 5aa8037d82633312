use vstd::prelude::*;

use crate::error::ZentroError;
use crate::key::AccountKey;
use crate::market::{byte_len, text_len, Market};

verus! {

/// Longest title of a created market, in bytes.
pub const MAX_CREATED_TITLE_LEN: usize = 200;

/// Longest description of a created market, in bytes.
pub const MAX_CREATED_DESCRIPTION_LEN: usize = 1000;

/// Longest market identifier, in bytes.
pub const MAX_MARKET_ID_LEN: usize = 50;

/// The notice of a newly created market.
#[derive(Clone, Debug)]
pub struct MarketCreated {
    pub market: AccountKey,
    pub market_id: String,
    pub title: String,
    pub authority: AccountKey,
    pub end_time: i64,
    pub created_at: i64,
}

/// The first rule that the parameters of `create_market` break, if any.
pub open spec fn create_market_error(
    market_id: Seq<char>,
    title: Seq<char>,
    description: Seq<char>,
    end_time: i64,
    now: i64,
) -> Option<ZentroError> {
    if end_time <= now {
        Some(ZentroError::InvalidMarketDuration)
    } else if byte_len(title) > MAX_CREATED_TITLE_LEN {
        Some(ZentroError::MarketTitleTooLong)
    } else if byte_len(description) > MAX_CREATED_DESCRIPTION_LEN {
        Some(ZentroError::MarketDescriptionTooLong)
    } else if byte_len(market_id) > MAX_MARKET_ID_LEN {
        Some(ZentroError::MarketIdTooLong)
    } else {
        None
    }
}

/// Opens `market` (stored at `market_key`) under `authority` at time `now`, with
/// empty totals and no resolution, and returns the notice of its creation. The
/// market's fee rates, bet limits and resolution source are left as they were.
pub fn create_market(
    market: &mut Market,
    market_key: AccountKey,
    authority: AccountKey,
    market_id: String,
    title: String,
    description: String,
    end_time: i64,
    category: String,
    bump: u8,
    now: i64,
) -> (r: Result<MarketCreated, ZentroError>)
    ensures
        ({
            match create_market_error(market_id@, title@, description@, end_time, now) {
                Some(e) => r == Err::<MarketCreated, ZentroError>(e) && *final(market)
                    == *old(market),
                None => r is Ok && *final(market) == (Market {
                    authority,
                    title,
                    description,
                    category,
                    end_time,
                    resolved: false,
                    resolution: None,
                    total_yes_amount: 0,
                    total_no_amount: 0,
                    created_at: now,
                    resolved_at: None,
                    bump,
                    ..*old(market)
                }) && final(market).wf() && r->Ok_0 == (MarketCreated {
                    market: market_key,
                    market_id,
                    title,
                    authority,
                    end_time,
                    created_at: now,
                }),
            }
        }),
{
    if end_time <= now {
        return Err(ZentroError::InvalidMarketDuration);
    }
    if text_len(&title) > MAX_CREATED_TITLE_LEN {
        return Err(ZentroError::MarketTitleTooLong);
    }
    if text_len(&description) > MAX_CREATED_DESCRIPTION_LEN {
        return Err(ZentroError::MarketDescriptionTooLong);
    }
    if text_len(&market_id) > MAX_MARKET_ID_LEN {
        return Err(ZentroError::MarketIdTooLong);
    }
    let notice_title = title.clone();
    market.title = title;
    market.description = description;
    market.authority = authority;
    market.created_at = now;
    market.end_time = end_time;
    market.category = category;
    market.resolved = false;
    market.resolution = None;
    market.resolved_at = None;
    market.total_yes_amount = 0;
    market.total_no_amount = 0;
    market.bump = bump;
    Ok(
        MarketCreated {
            market: market_key,
            market_id,
            title: notice_title,
            authority,
            end_time,
            created_at: now,
        },
    )
}

} // verus!
