use vstd::prelude::*;

use crate::error::ZentroError;

verus! {

/// Scale of prices, probabilities and factors: basis points in one whole.
pub const SCALE: u64 = 10000;

/// Parameters of the display price.
#[derive(Clone, Copy, Debug)]
pub struct PricingParams {
    /// Price when there is no signal yet, in basis points.
    pub base_price: u64,
    /// Weight of the yes/no imbalance, in basis points.
    pub volatility_factor: u64,
    /// Liquidity at which the liquidity factor reaches its middle.
    pub liquidity_depth: u64,
    pub time_decay_factor: u64,
}

impl Default for PricingParams {
    fn default() -> (r: PricingParams)
        ensures
            r == (PricingParams {
                base_price: 5000,
                volatility_factor: 100,
                liquidity_depth: 1000000,
                time_decay_factor: 50,
            }),
    {
        PricingParams {
            base_price: 5000,
            volatility_factor: 100,
            liquidity_depth: 1000000,
            time_decay_factor: 50,
        }
    }
}

/// `x`, capped at the largest `u64`.
pub open spec fn sat(x: int) -> int {
    if x > u64::MAX {
        u64::MAX as int
    } else {
        x
    }
}

/// `a - b`, floored at zero.
pub open spec fn sat_sub(a: int, b: int) -> int {
    if a < b {
        0
    } else {
        a - b
    }
}

/// The lesser of two integers.
pub open spec fn min_of(a: int, b: int) -> int {
    if a <= b {
        a
    } else {
        b
    }
}

/// The greater of two integers.
pub open spec fn max_of(a: int, b: int) -> int {
    if a >= b {
        a
    } else {
        b
    }
}

/// The liquidity factor: 8000 plus 4000 times the ratio of current to target
/// liquidity, kept within 8000 and 12000; 10000 when there is no target.
pub open spec fn liquidity_factor(current_liquidity: u64, target_liquidity: u64) -> int {
    if target_liquidity == 0 {
        10000
    } else {
        let ratio = sat((current_liquidity * 10000) / (target_liquidity as int));
        max_of(8000, min_of(12000, sat(8000 + sat(ratio * 4000) / 10000)))
    }
}

/// The volatility adjustment: the yes/no imbalance over all shares, in basis
/// points, weighted by `volatility_factor`.
pub open spec fn volatility_adjustment(yes_shares: u64, no_shares: u64, volatility_factor: u64) -> int {
    let total = sat(yes_shares + no_shares);
    if total == 0 {
        0
    } else {
        let imbalance = if yes_shares > no_shares {
            yes_shares - no_shares
        } else {
            no_shares - yes_shares
        };
        sat(((imbalance * 10000) / total) * volatility_factor) / 10000
    }
}

/// The display price of yes, in basis points: the yes share of all shares,
/// scaled by the liquidity factor, plus the volatility adjustment, at most 10000;
/// the base price while there is no liquidity or no share.
pub open spec fn market_price(
    yes_shares: u64,
    no_shares: u64,
    total_liquidity: u64,
    params: PricingParams,
) -> int {
    let total = sat(yes_shares + no_shares);
    if total_liquidity == 0 || total == 0 {
        params.base_price as int
    } else {
        let probability = (yes_shares * 10000) / total;
        let scaled = sat(probability * liquidity_factor(total_liquidity, params.liquidity_depth))
            / 10000;
        min_of(sat(scaled + volatility_adjustment(yes_shares, no_shares, params.volatility_factor)), 10000)
    }
}

/// Slippage in basis points: the square of the order's size over the liquidity
/// (in basis points), over 10000, at most 1000; 500 when there is no liquidity.
pub open spec fn slippage(order_size: u64, total_liquidity: u64) -> int {
    if total_liquidity == 0 {
        500
    } else {
        let ratio = sat((order_size * 10000) / (total_liquidity as int));
        min_of(sat(ratio * ratio) / 10000, 1000)
    }
}

/// The value of `shares` at `current_price` for one side: the price itself for
/// yes, its complement to 10000 for no.
pub open spec fn base_value(current_price: u64, shares: u64, is_yes_side: bool) -> int {
    let price = if is_yes_side {
        current_price as int
    } else {
        sat_sub(10000, current_price as int)
    };
    sat(price * shares) / 10000
}

/// The cost of buying `shares`: their base value raised by the slippage.
pub open spec fn buy_cost(current_price: u64, shares: u64, total_liquidity: u64, is_yes_side: bool) -> int {
    if shares == 0 {
        0
    } else {
        let base = base_value(current_price, shares, is_yes_side);
        sat(base + sat(base * slippage(shares, total_liquidity)) / 10000)
    }
}

/// The proceeds of selling `shares`: their base value lowered by the slippage.
pub open spec fn sell_proceeds(
    current_price: u64,
    shares: u64,
    total_liquidity: u64,
    is_yes_side: bool,
) -> int {
    if shares == 0 {
        0
    } else {
        let base = base_value(current_price, shares, is_yes_side);
        sat_sub(base, sat(base * slippage(shares, total_liquidity)) / 10000)
    }
}

/// Payout odds per 10000 staked on yes and on no at `current_price`.
pub open spec fn payout_odds(current_price: u64) -> (int, int) {
    if current_price == 0 {
        (0, 10000)
    } else if current_price >= 10000 {
        (10000, 0)
    } else {
        (100000000int / (current_price as int), 100000000int / (10000 - current_price))
    }
}

/// The gain beyond the stake of `investment` on `predicted_outcome` at
/// `current_price`, floored at zero.
pub open spec fn expected_return(investment: u64, current_price: u64, predicted_outcome: bool) -> int {
    let odds = if predicted_outcome {
        payout_odds(current_price).0
    } else {
        payout_odds(current_price).1
    };
    sat_sub(sat(investment * odds) / 10000, investment as int)
}

/// `a * b`, capped at the largest `u64`.
fn mul_capped(a: u64, b: u64) -> (r: u64)
    ensures
        r == sat(a * b),
{
    match a.checked_mul(b) {
        Some(p) => p,
        None => u64::MAX,
    }
}

/// `x`, capped at the largest `u64`.
fn narrow_capped(x: u128) -> (r: u64)
    ensures
        r == sat(x as int),
{
    if x > u64::MAX as u128 {
        u64::MAX
    } else {
        x as u64
    }
}

fn calculate_liquidity_factor(current_liquidity: u64, target_liquidity: u64) -> (r: u64)
    ensures
        r == liquidity_factor(current_liquidity, target_liquidity),
        8000 <= r <= 12000 || r == 10000,
{
    if target_liquidity == 0 {
        return 10000;
    }
    let ratio = narrow_capped((current_liquidity as u128) * 10000 / (target_liquidity as u128));
    let raw = 8000u64.saturating_add(mul_capped(ratio, 4000) / SCALE);
    let capped = if raw < 12000 {
        raw
    } else {
        12000
    };
    if capped > 8000 {
        capped
    } else {
        8000
    }
}

fn calculate_volatility_adjustment(yes_shares: u64, no_shares: u64, volatility_factor: u64) -> (r: u64)
    ensures
        r == volatility_adjustment(yes_shares, no_shares, volatility_factor),
{
    let total_shares = yes_shares.saturating_add(no_shares);
    if total_shares == 0 {
        return 0;
    }
    let imbalance = if yes_shares > no_shares {
        yes_shares - no_shares
    } else {
        no_shares - yes_shares
    };
    assert(imbalance * 10000 / (total_shares as int) <= 10000) by (nonlinear_arith)
        requires
            0 <= imbalance <= total_shares,
            0 < total_shares,
    ;
    let imbalance_ratio = ((imbalance as u128) * 10000 / (total_shares as u128)) as u64;
    mul_capped(imbalance_ratio, volatility_factor) / SCALE
}

fn calculate_slippage(order_size: u64, total_liquidity: u64) -> (r: u64)
    ensures
        r == slippage(order_size, total_liquidity),
        r <= 1000,
{
    if total_liquidity == 0 {
        return 500;
    }
    let order_ratio = narrow_capped((order_size as u128) * 10000 / (total_liquidity as u128));
    let base_slippage = mul_capped(order_ratio, order_ratio) / SCALE;
    if base_slippage < 1000 {
        base_slippage
    } else {
        1000
    }
}


/// The display price of yes in basis points, from the share counts and the
/// liquidity; see `market_price`.
pub fn calculate_market_price(
    yes_shares: u64,
    no_shares: u64,
    total_liquidity: u64,
    params: &PricingParams,
) -> (r: Result<u64, ZentroError>)
    ensures
        r == Ok::<u64, ZentroError>(
            market_price(yes_shares, no_shares, total_liquidity, *params) as u64,
        ),
{
    if total_liquidity == 0 {
        return Ok(params.base_price);
    }
    let total_shares = yes_shares.saturating_add(no_shares);
    if total_shares == 0 {
        return Ok(params.base_price);
    }
    assert(yes_shares * 10000 / (total_shares as int) <= 10000) by (nonlinear_arith)
        requires
            0 <= yes_shares <= total_shares,
            0 < total_shares,
    ;
    let yes_probability = ((yes_shares as u128) * 10000 / (total_shares as u128)) as u64;
    let liquidity_factor = calculate_liquidity_factor(total_liquidity, params.liquidity_depth);
    let volatility_adjustment = calculate_volatility_adjustment(
        yes_shares,
        no_shares,
        params.volatility_factor,
    );
    let adjusted_price = (mul_capped(yes_probability, liquidity_factor) / SCALE).saturating_add(
        volatility_adjustment,
    );
    if adjusted_price < SCALE {
        Ok(adjusted_price)
    } else {
        Ok(SCALE)
    }
}

/// The value of `shares` at `current_price` for one side.
fn side_value(current_price: u64, shares: u64, is_yes_side: bool) -> (r: u64)
    ensures
        r == base_value(current_price, shares, is_yes_side),
{
    let price = if is_yes_side {
        current_price
    } else {
        SCALE.saturating_sub(current_price)
    };
    mul_capped(price, shares) / SCALE
}

/// The cost of buying `shares` of one side at `current_price`, slippage
/// included; see `buy_cost`.
pub fn calculate_buy_price(
    current_price: u64,
    shares_to_buy: u64,
    total_liquidity: u64,
    is_yes_side: bool,
) -> (r: Result<u64, ZentroError>)
    ensures
        r == Ok::<u64, ZentroError>(
            buy_cost(current_price, shares_to_buy, total_liquidity, is_yes_side) as u64,
        ),
{
    if shares_to_buy == 0 {
        return Ok(0);
    }
    let base_cost = side_value(current_price, shares_to_buy, is_yes_side);
    let slippage = calculate_slippage(shares_to_buy, total_liquidity);
    let slippage_cost = mul_capped(base_cost, slippage) / SCALE;
    Ok(base_cost.saturating_add(slippage_cost))
}

/// The proceeds of selling `shares` of one side at `current_price`, slippage
/// deducted; see `sell_proceeds`.
pub fn calculate_sell_price(
    current_price: u64,
    shares_to_sell: u64,
    total_liquidity: u64,
    is_yes_side: bool,
) -> (r: Result<u64, ZentroError>)
    ensures
        r == Ok::<u64, ZentroError>(
            sell_proceeds(current_price, shares_to_sell, total_liquidity, is_yes_side) as u64,
        ),
{
    if shares_to_sell == 0 {
        return Ok(0);
    }
    let base_value = side_value(current_price, shares_to_sell, is_yes_side);
    let slippage = calculate_slippage(shares_to_sell, total_liquidity);
    let slippage_reduction = mul_capped(base_value, slippage) / SCALE;
    Ok(base_value.saturating_sub(slippage_reduction))
}

/// Payout odds per 10000 staked on yes and on no; see `payout_odds`.
pub fn calculate_payout_odds(current_price: u64) -> (r: (u64, u64))
    ensures
        r.0 == payout_odds(current_price).0,
        r.1 == payout_odds(current_price).1,
{
    if current_price == 0 {
        return (0, 10000);
    }
    if current_price >= SCALE {
        return (10000, 0);
    }
    let yes_odds = 100000000 / current_price;
    let no_odds = 100000000 / (SCALE - current_price);
    (yes_odds, no_odds)
}

/// The gain beyond the stake of `investment` on `predicted_outcome`, floored at
/// zero; see `expected_return`.
pub fn calculate_expected_return(investment: u64, current_price: u64, predicted_outcome: bool) -> (r:
    Result<u64, ZentroError>)
    ensures
        r == Ok::<u64, ZentroError>(
            expected_return(investment, current_price, predicted_outcome) as u64,
        ),
{
    let (yes_odds, no_odds) = calculate_payout_odds(current_price);
    let odds = if predicted_outcome {
        yes_odds
    } else {
        no_odds
    };
    let potential_return = mul_capped(investment, odds) / SCALE;
    Ok(potential_return.saturating_sub(investment))
}

} // verus!
