use vstd::arithmetic::div_mod::lemma_fundamental_div_mod;
use vstd::prelude::*;

use crate::error::ZentroError;
use crate::key::AccountKey;

verus! {

/// Highest fee rate a pool accepts, in basis points (10%).
pub const MAX_FEE_RATE: u16 = 1000;

/// Basis points in one whole.
pub const BASIS_POINTS: u64 = 10000;

/// A constant-product pool holding yes and no reserves for one market.
#[derive(Clone, Copy, Debug)]
pub struct LiquidityPool {
    pub authority: AccountKey,
    pub market: AccountKey,
    pub token_mint: AccountKey,
    pub token_vault: AccountKey,
    pub yes_token_mint: AccountKey,
    pub no_token_mint: AccountKey,
    pub yes_token_vault: AccountKey,
    pub no_token_vault: AccountKey,
    pub total_liquidity: u64,
    pub yes_reserves: u64,
    pub no_reserves: u64,
    /// Fee on swap input, in basis points.
    pub fee_rate: u16,
    pub accumulated_fees: u64,
    pub is_active: bool,
    pub created_at: i64,
    pub bump: u8,
}

/// `reserve * shares / total`: the slice of a reserve that `shares` of `total` redeem.
pub open spec fn share_of(reserve: u64, shares: u64, total: u64) -> int {
    (reserve * shares) / (total as int)
}

/// The fee taken from a swap input of `amount` at `rate` basis points.
pub open spec fn fee_of(amount: u64, rate: u16) -> int {
    (amount * rate) / 10000
}

impl LiquidityPool {
    /// The fee rate stays within the cap.
    pub open spec fn wf(self) -> bool {
        self.fee_rate <= MAX_FEE_RATE
    }

    pub open spec fn reserves_sum(self) -> int {
        self.yes_reserves + self.no_reserves
    }

    /// Shares minted for a deposit of `amount`: one per unit into an empty pool,
    /// else in proportion to the shares outstanding over the reserves.
    pub open spec fn minted_shares(self, amount: u64) -> int {
        if self.total_liquidity == 0 || self.reserves_sum() == 0 {
            amount as int
        } else {
            (amount * self.total_liquidity) / self.reserves_sum()
        }
    }

    /// What `add_liquidity(amount)` returns.
    pub open spec fn add_liquidity_outcome(self, amount: u64) -> Result<u64, ZentroError> {
        let half = amount / 2;
        if !self.is_active {
            Err(ZentroError::PoolInactive)
        } else if amount == 0 {
            Err(ZentroError::InvalidAmount)
        } else if self.total_liquidity != 0 && self.reserves_sum() > u64::MAX {
            Err(ZentroError::ArithmeticOverflow)
        } else if self.total_liquidity != 0 && self.reserves_sum() != 0 && amount
            * self.total_liquidity > u64::MAX {
            Err(ZentroError::ArithmeticOverflow)
        } else if self.yes_reserves + half > u64::MAX || self.no_reserves + half > u64::MAX
            || self.total_liquidity + self.minted_shares(amount) > u64::MAX {
            Err(ZentroError::ArithmeticOverflow)
        } else {
            Ok(self.minted_shares(amount) as u64)
        }
    }

    /// The pool after a successful `add_liquidity(amount)`: half of the amount
    /// (rounded down) goes to each reserve.
    pub open spec fn after_add(self, amount: u64) -> LiquidityPool {
        LiquidityPool {
            yes_reserves: (self.yes_reserves + amount / 2) as u64,
            no_reserves: (self.no_reserves + amount / 2) as u64,
            total_liquidity: (self.total_liquidity + self.minted_shares(amount)) as u64,
            ..self
        }
    }

    /// What `remove_liquidity(shares)` returns.
    pub open spec fn remove_liquidity_outcome(self, shares: u64) -> Result<(u64, u64), ZentroError> {
        if !self.is_active {
            Err(ZentroError::PoolInactive)
        } else if shares == 0 {
            Err(ZentroError::InvalidAmount)
        } else if shares > self.total_liquidity {
            Err(ZentroError::InsufficientLiquidity)
        } else if self.yes_reserves * shares > u64::MAX || self.no_reserves * shares > u64::MAX {
            Err(ZentroError::ArithmeticOverflow)
        } else {
            Ok(
                (
                    share_of(self.yes_reserves, shares, self.total_liquidity) as u64,
                    share_of(self.no_reserves, shares, self.total_liquidity) as u64,
                ),
            )
        }
    }

    /// The pool after a successful `remove_liquidity(shares)`.
    pub open spec fn after_remove(self, shares: u64) -> LiquidityPool {
        LiquidityPool {
            yes_reserves: (self.yes_reserves - share_of(
                self.yes_reserves,
                shares,
                self.total_liquidity,
            )) as u64,
            no_reserves: (self.no_reserves - share_of(
                self.no_reserves,
                shares,
                self.total_liquidity,
            )) as u64,
            total_liquidity: (self.total_liquidity - shares) as u64,
            ..self
        }
    }

    /// The reserve a swap takes its input into.
    pub open spec fn input_reserve(self, is_yes_to_no: bool) -> u64 {
        if is_yes_to_no {
            self.yes_reserves
        } else {
            self.no_reserves
        }
    }

    /// The reserve a swap pays its output from.
    pub open spec fn output_reserve(self, is_yes_to_no: bool) -> u64 {
        if is_yes_to_no {
            self.no_reserves
        } else {
            self.yes_reserves
        }
    }

    /// The input that reaches the reserve once the fee is taken.
    pub open spec fn net_input(self, input_amount: u64) -> int {
        input_amount - fee_of(input_amount, self.fee_rate)
    }

    /// The output reserve left after a swap: the product of the reserves over
    /// the new input reserve, rounded down.
    pub open spec fn new_output_reserve(self, input_amount: u64, is_yes_to_no: bool) -> int {
        (self.input_reserve(is_yes_to_no) * self.output_reserve(is_yes_to_no)) / (
        self.input_reserve(is_yes_to_no) + self.net_input(input_amount))
    }

    /// What `calculate_swap_output(input_amount, is_yes_to_no)` returns.
    pub open spec fn swap_outcome(self, input_amount: u64, is_yes_to_no: bool) -> Result<
        u64,
        ZentroError,
    > {
        let x = self.input_reserve(is_yes_to_no);
        let y = self.output_reserve(is_yes_to_no);
        if !self.is_active {
            Err(ZentroError::PoolInactive)
        } else if input_amount == 0 {
            Err(ZentroError::InvalidAmount)
        } else if x == 0 || y == 0 {
            Err(ZentroError::InsufficientLiquidity)
        } else if input_amount * self.fee_rate > u64::MAX || self.net_input(input_amount) < 0 || x
            + self.net_input(input_amount) > u64::MAX || x * y > u64::MAX {
            Err(ZentroError::ArithmeticOverflow)
        } else if self.new_output_reserve(input_amount, is_yes_to_no) == 0 {
            Err(ZentroError::InsufficientLiquidity)
        } else {
            Ok((y - self.new_output_reserve(input_amount, is_yes_to_no)) as u64)
        }
    }

    /// What `execute_swap(input_amount, is_yes_to_no)` returns.
    pub open spec fn execute_swap_outcome(self, input_amount: u64, is_yes_to_no: bool) -> Result<
        u64,
        ZentroError,
    > {
        match self.swap_outcome(input_amount, is_yes_to_no) {
            Ok(out) => if self.accumulated_fees + fee_of(input_amount, self.fee_rate) > u64::MAX {
                Err(ZentroError::ArithmeticOverflow)
            } else {
                Ok(out)
            },
            Err(e) => Err(e),
        }
    }

    /// The pool after a successful swap: the net input joins the input reserve,
    /// the output reserve drops to its new value, and the fee is set aside.
    pub open spec fn after_swap(self, input_amount: u64, is_yes_to_no: bool) -> LiquidityPool {
        let new_in = (self.input_reserve(is_yes_to_no) + self.net_input(input_amount)) as u64;
        let new_out = self.new_output_reserve(input_amount, is_yes_to_no) as u64;
        LiquidityPool {
            yes_reserves: if is_yes_to_no {
                new_in
            } else {
                new_out
            },
            no_reserves: if is_yes_to_no {
                new_out
            } else {
                new_in
            },
            accumulated_fees: (self.accumulated_fees + fee_of(input_amount, self.fee_rate)) as u64,
            ..self
        }
    }

    /// What `get_price(is_yes_price)` returns.
    pub open spec fn price_outcome(self, is_yes_price: bool) -> Result<u64, ZentroError> {
        let side = if is_yes_price {
            self.yes_reserves
        } else {
            self.no_reserves
        };
        if self.yes_reserves == 0 || self.no_reserves == 0 {
            Err(ZentroError::InsufficientLiquidity)
        } else if self.reserves_sum() > u64::MAX || side * 10000 > u64::MAX {
            Err(ZentroError::ArithmeticOverflow)
        } else {
            Ok(((side * 10000) / self.reserves_sum()) as u64)
        }
    }
}


/// `reserve * shares / total` never exceeds `reserve` when `shares <= total`.
proof fn lemma_share_at_most(reserve: u64, shares: u64, total: u64)
    requires
        0 < total,
        shares <= total,
    ensures
        0 <= share_of(reserve, shares, total) <= reserve,
{
    assert(reserve * shares <= reserve * total) by (nonlinear_arith)
        requires
            shares <= total,
    ;
    assert((reserve * shares) / (total as int) <= (reserve * total) / (total as int)) by (
    nonlinear_arith)
        requires
            reserve * shares <= reserve * total,
            0 < total,
    ;
    assert((reserve * total) / (total as int) == reserve) by (nonlinear_arith)
        requires
            0 < total,
    ;
    assert(0 <= (reserve * shares) / (total as int)) by (nonlinear_arith)
        requires
            0 < total,
    ;
}

/// The rounded-down quotient `k / d` with `0 < x <= d` is at most `k / x`.
proof fn lemma_new_output_at_most(x: u64, y: u64, d: int)
    requires
        0 < x <= d,
    ensures
        0 <= (x * y) / d <= y,
{
    assert((x * y) / d <= (x * y) / (x as int)) by (nonlinear_arith)
        requires
            0 < x <= d,
            0 <= x * y,
    ;
    assert((x * y) / (x as int) == y) by (nonlinear_arith)
        requires
            0 < x,
    ;
    assert(0 <= (x * y) / d) by (nonlinear_arith)
        requires
            0 < d,
            0 <= x * y,
    ;
}

impl LiquidityPool {
    /// Sets up an empty, active pool; refuses a fee rate above the cap.
    pub fn initialize(
        &mut self,
        authority: AccountKey,
        market: AccountKey,
        token_mint: AccountKey,
        token_vault: AccountKey,
        yes_token_mint: AccountKey,
        no_token_mint: AccountKey,
        yes_token_vault: AccountKey,
        no_token_vault: AccountKey,
        fee_rate: u16,
        bump: u8,
        now: i64,
    ) -> (r: Result<(), ZentroError>)
        ensures
            fee_rate > MAX_FEE_RATE ==> r == Err::<(), ZentroError>(ZentroError::FeeTooHigh)
                && *final(self) == *old(self),
            fee_rate <= MAX_FEE_RATE ==> r is Ok && final(self).wf() && *final(self) == (
            LiquidityPool {
                authority,
                market,
                token_mint,
                token_vault,
                yes_token_mint,
                no_token_mint,
                yes_token_vault,
                no_token_vault,
                total_liquidity: 0,
                yes_reserves: 0,
                no_reserves: 0,
                fee_rate,
                accumulated_fees: 0,
                is_active: true,
                created_at: now,
                bump,
            }),
    {
        if fee_rate > MAX_FEE_RATE {
            return Err(ZentroError::FeeTooHigh);
        }
        self.authority = authority;
        self.market = market;
        self.token_mint = token_mint;
        self.token_vault = token_vault;
        self.yes_token_mint = yes_token_mint;
        self.no_token_mint = no_token_mint;
        self.yes_token_vault = yes_token_vault;
        self.no_token_vault = no_token_vault;
        self.total_liquidity = 0;
        self.yes_reserves = 0;
        self.no_reserves = 0;
        self.fee_rate = fee_rate;
        self.accumulated_fees = 0;
        self.is_active = true;
        self.created_at = now;
        self.bump = bump;
        Ok(())
    }

    /// Deposits `amount`, split evenly over the two reserves, and returns the
    /// liquidity shares minted for it.
    pub fn add_liquidity(&mut self, amount: u64) -> (r: Result<u64, ZentroError>)
        ensures
            r == old(self).add_liquidity_outcome(amount),
            r is Ok ==> *final(self) == old(self).after_add(amount),
            r is Err ==> *final(self) == *old(self),
    {
        if !self.is_active {
            return Err(ZentroError::PoolInactive);
        }
        if amount == 0 {
            return Err(ZentroError::InvalidAmount);
        }
        let liquidity_tokens: u64 = if self.total_liquidity == 0 {
            amount
        } else {
            let total_reserves = self.yes_reserves.checked_add(self.no_reserves).ok_or(
                ZentroError::ArithmeticOverflow,
            )?;
            if total_reserves == 0 {
                amount
            } else {
                let product = amount.checked_mul(self.total_liquidity).ok_or(
                    ZentroError::ArithmeticOverflow,
                )?;
                product / total_reserves
            }
        };
        let half_amount = amount / 2;
        let yes_reserves = self.yes_reserves.checked_add(half_amount).ok_or(
            ZentroError::ArithmeticOverflow,
        )?;
        let no_reserves = self.no_reserves.checked_add(half_amount).ok_or(
            ZentroError::ArithmeticOverflow,
        )?;
        let total_liquidity = self.total_liquidity.checked_add(liquidity_tokens).ok_or(
            ZentroError::ArithmeticOverflow,
        )?;
        self.yes_reserves = yes_reserves;
        self.no_reserves = no_reserves;
        self.total_liquidity = total_liquidity;
        Ok(liquidity_tokens)
    }

    /// Redeems `liquidity_tokens` shares for their proportional slice of each
    /// reserve, rounded down, and returns the two amounts paid out.
    pub fn remove_liquidity(&mut self, liquidity_tokens: u64) -> (r: Result<(u64, u64), ZentroError>)
        ensures
            r == old(self).remove_liquidity_outcome(liquidity_tokens),
            r is Ok ==> *final(self) == old(self).after_remove(liquidity_tokens),
            r is Err ==> *final(self) == *old(self),
    {
        if !self.is_active {
            return Err(ZentroError::PoolInactive);
        }
        if liquidity_tokens == 0 {
            return Err(ZentroError::InvalidAmount);
        }
        if liquidity_tokens > self.total_liquidity {
            return Err(ZentroError::InsufficientLiquidity);
        }
        let yes_amount = self.yes_reserves.checked_mul(liquidity_tokens).ok_or(
            ZentroError::ArithmeticOverflow,
        )? / self.total_liquidity;
        let no_amount = self.no_reserves.checked_mul(liquidity_tokens).ok_or(
            ZentroError::ArithmeticOverflow,
        )? / self.total_liquidity;
        proof {
            lemma_share_at_most(self.yes_reserves, liquidity_tokens, self.total_liquidity);
            lemma_share_at_most(self.no_reserves, liquidity_tokens, self.total_liquidity);
        }
        self.yes_reserves = self.yes_reserves - yes_amount;
        self.no_reserves = self.no_reserves - no_amount;
        self.total_liquidity = self.total_liquidity - liquidity_tokens;
        Ok((yes_amount, no_amount))
    }

    /// Quotes a swap of `input_amount` from one side into the other without
    /// changing the pool. A quote always leaves some of the output reserve.
    pub fn calculate_swap_output(&self, input_amount: u64, is_yes_to_no: bool) -> (r: Result<
        u64,
        ZentroError,
    >)
        ensures
            r == self.swap_outcome(input_amount, is_yes_to_no),
            r is Ok ==> r->Ok_0 < self.output_reserve(is_yes_to_no),
    {
        if !self.is_active {
            return Err(ZentroError::PoolInactive);
        }
        if input_amount == 0 {
            return Err(ZentroError::InvalidAmount);
        }
        let (input_reserve, output_reserve) = if is_yes_to_no {
            (self.yes_reserves, self.no_reserves)
        } else {
            (self.no_reserves, self.yes_reserves)
        };
        if input_reserve == 0 || output_reserve == 0 {
            return Err(ZentroError::InsufficientLiquidity);
        }
        let fee_amount = input_amount.checked_mul(self.fee_rate as u64).ok_or(
            ZentroError::ArithmeticOverflow,
        )? / BASIS_POINTS;
        let input_after_fee = input_amount.checked_sub(fee_amount).ok_or(
            ZentroError::ArithmeticOverflow,
        )?;
        let new_input_reserve = input_reserve.checked_add(input_after_fee).ok_or(
            ZentroError::ArithmeticOverflow,
        )?;
        let k = input_reserve.checked_mul(output_reserve).ok_or(ZentroError::ArithmeticOverflow)?;
        let new_output_reserve = k / new_input_reserve;
        proof {
            lemma_new_output_at_most(input_reserve, output_reserve, new_input_reserve as int);
        }
        let output_amount = output_reserve - new_output_reserve;
        if output_amount >= output_reserve {
            return Err(ZentroError::InsufficientLiquidity);
        }
        Ok(output_amount)
    }

    /// Performs the swap that `calculate_swap_output` quotes: the net input
    /// joins the input reserve, the quoted output leaves the other reserve, and
    /// the fee is added to the accumulated fees.
    pub fn execute_swap(&mut self, input_amount: u64, is_yes_to_no: bool) -> (r: Result<
        u64,
        ZentroError,
    >)
        ensures
            r == old(self).execute_swap_outcome(input_amount, is_yes_to_no),
            r is Ok ==> r == old(self).swap_outcome(input_amount, is_yes_to_no),
            r is Ok ==> *final(self) == old(self).after_swap(input_amount, is_yes_to_no),
            r is Err ==> *final(self) == *old(self),
    {
        let output_amount = self.calculate_swap_output(input_amount, is_yes_to_no)?;
        let fee_amount = input_amount * (self.fee_rate as u64) / BASIS_POINTS;
        let input_after_fee = input_amount - fee_amount;
        proof {
            lemma_new_output_at_most(
                self.input_reserve(is_yes_to_no),
                self.output_reserve(is_yes_to_no),
                self.input_reserve(is_yes_to_no) + self.net_input(input_amount),
            );
        }
        let accumulated_fees = self.accumulated_fees.checked_add(fee_amount).ok_or(
            ZentroError::ArithmeticOverflow,
        )?;
        if is_yes_to_no {
            self.yes_reserves = self.yes_reserves + input_after_fee;
            self.no_reserves = self.no_reserves - output_amount;
        } else {
            self.no_reserves = self.no_reserves + input_after_fee;
            self.yes_reserves = self.yes_reserves - output_amount;
        }
        self.accumulated_fees = accumulated_fees;
        Ok(output_amount)
    }

    /// The price of one side in basis points: its reserve over both reserves.
    pub fn get_price(&self, is_yes_price: bool) -> (r: Result<u64, ZentroError>)
        ensures
            r == self.price_outcome(is_yes_price),
    {
        if self.yes_reserves == 0 || self.no_reserves == 0 {
            return Err(ZentroError::InsufficientLiquidity);
        }
        let total_reserves = self.yes_reserves.checked_add(self.no_reserves).ok_or(
            ZentroError::ArithmeticOverflow,
        )?;
        let side = if is_yes_price {
            self.yes_reserves
        } else {
            self.no_reserves
        };
        let scaled = side.checked_mul(BASIS_POINTS).ok_or(ZentroError::ArithmeticOverflow)?;
        Ok(scaled / total_reserves)
    }

    /// Stops deposits, withdrawals and swaps.
    pub fn deactivate(&mut self) -> (r: Result<(), ZentroError>)
        ensures
            r is Ok,
            *final(self) == (LiquidityPool { is_active: false, ..*old(self) }),
    {
        self.is_active = false;
        Ok(())
    }

    /// Allows deposits, withdrawals and swaps again.
    pub fn reactivate(&mut self) -> (r: Result<(), ZentroError>)
        ensures
            r is Ok,
            *final(self) == (LiquidityPool { is_active: true, ..*old(self) }),
    {
        self.is_active = true;
        Ok(())
    }

    /// Sets a new fee rate; refuses one above the cap.
    pub fn update_fee_rate(&mut self, new_fee_rate: u16) -> (r: Result<(), ZentroError>)
        ensures
            new_fee_rate > MAX_FEE_RATE ==> r == Err::<(), ZentroError>(ZentroError::FeeTooHigh)
                && *final(self) == *old(self),
            new_fee_rate <= MAX_FEE_RATE ==> r is Ok && final(self).wf() && *final(self) == (
            LiquidityPool { fee_rate: new_fee_rate, ..*old(self) }),
    {
        if new_fee_rate > MAX_FEE_RATE {
            return Err(ZentroError::FeeTooHigh);
        }
        self.fee_rate = new_fee_rate;
        Ok(())
    }

    /// Hands out the accumulated fees and sets them to zero.
    pub fn collect_fees(&mut self) -> (r: Result<u64, ZentroError>)
        ensures
            r == Ok::<u64, ZentroError>(old(self).accumulated_fees),
            *final(self) == (LiquidityPool { accumulated_fees: 0, ..*old(self) }),
    {
        let fees = self.accumulated_fees;
        self.accumulated_fees = 0;
        Ok(fees)
    }
}


/// One deposit (`(true, amount)`) or withdrawal (`(false, shares)`) on a pool:
/// the pool after it, the amount deposited, the amount paid out, and the unit a
/// deposit of an odd amount loses to the even split. A step that fails changes
/// nothing.
pub open spec fn liquidity_step(p: LiquidityPool, step: (bool, u64)) -> (LiquidityPool, int, int, int) {
    if step.0 {
        match p.add_liquidity_outcome(step.1) {
            Ok(_) => (p.after_add(step.1), step.1 as int, 0, (step.1 % 2) as int),
            Err(_) => (p, 0, 0, 0),
        }
    } else {
        match p.remove_liquidity_outcome(step.1) {
            Ok(paid) => (p.after_remove(step.1), 0, paid.0 + paid.1, 0),
            Err(_) => (p, 0, 0, 0),
        }
    }
}

/// A run of deposits and withdrawals, in order: the pool at the end, the totals
/// deposited and paid out, and the units lost to rounding.
pub open spec fn liquidity_run(p: LiquidityPool, steps: Seq<(bool, u64)>) -> (
    LiquidityPool,
    int,
    int,
    int,
)
    decreases steps.len(),
{
    if steps.len() == 0 {
        (p, 0, 0, 0)
    } else {
        let before = liquidity_run(p, steps.drop_last());
        let last = liquidity_step(before.0, steps.last());
        (last.0, before.1 + last.1, before.2 + last.2, before.3 + last.3)
    }
}

proof fn lemma_liquidity_step(p: LiquidityPool, step: (bool, u64))
    ensures
        ({
            let r = liquidity_step(p, step);
            r.0.reserves_sum() + r.3 == p.reserves_sum() + r.1 - r.2 && 0 <= r.3 <= 1
        }),
{
    if !step.0 {
        if p.remove_liquidity_outcome(step.1) is Ok {
            lemma_share_at_most(p.yes_reserves, step.1, p.total_liquidity);
            lemma_share_at_most(p.no_reserves, step.1, p.total_liquidity);
        }
    }
}

/// Conservation: over any run of deposits and withdrawals without swaps, the
/// reserves hold the amount deposited less the amount paid out, short by at most
/// one unit per step, lost when an odd deposit is split in two.
pub proof fn lemma_liquidity_conservation(p: LiquidityPool, steps: Seq<(bool, u64)>)
    ensures
        ({
            let r = liquidity_run(p, steps);
            r.0.reserves_sum() + r.3 == p.reserves_sum() + r.1 - r.2 && 0 <= r.3 <= steps.len()
        }),
    decreases steps.len(),
{
    if steps.len() > 0 {
        lemma_liquidity_conservation(p, steps.drop_last());
        lemma_liquidity_step(liquidity_run(p, steps.drop_last()).0, steps.last());
    }
}

/// Share proportionality: redeeming `shares` of the outstanding liquidity pays,
/// on each side, at most what redeeming all of it pays, and exactly that amount
/// scaled by `shares / total_liquidity`, rounded down.
pub proof fn lemma_share_proportionality(p: LiquidityPool, shares: u64)
    requires
        0 < shares <= p.total_liquidity,
        p.remove_liquidity_outcome(p.total_liquidity) is Ok,
    ensures
        p.remove_liquidity_outcome(shares) is Ok,
        ({
            let part = p.remove_liquidity_outcome(shares)->Ok_0;
            let all = p.remove_liquidity_outcome(p.total_liquidity)->Ok_0;
            &&& part.0 <= all.0
            &&& part.1 <= all.1
            &&& part.0 == (all.0 * shares) / (p.total_liquidity as int)
            &&& part.1 == (all.1 * shares) / (p.total_liquidity as int)
        }),
{
    let t = p.total_liquidity;
    assert(p.yes_reserves * shares <= p.yes_reserves * t) by (nonlinear_arith)
        requires
            shares <= t,
    ;
    assert(p.no_reserves * shares <= p.no_reserves * t) by (nonlinear_arith)
        requires
            shares <= t,
    ;
    assert((p.yes_reserves * t) / (t as int) == p.yes_reserves) by (nonlinear_arith)
        requires
            0 < t,
    ;
    assert((p.no_reserves * t) / (t as int) == p.no_reserves) by (nonlinear_arith)
        requires
            0 < t,
    ;
    lemma_share_at_most(p.yes_reserves, shares, t);
    lemma_share_at_most(p.no_reserves, shares, t);
}

/// The product of the reserves after a successful swap, against the one before:
/// rounding the new output reserve down can lower it, by less than the new input
/// reserve, and never raises it.
pub proof fn lemma_swap_product_rounding(p: LiquidityPool, input_amount: u64, is_yes_to_no: bool)
    requires
        p.execute_swap_outcome(input_amount, is_yes_to_no) is Ok,
    ensures
        ({
            let q = p.after_swap(input_amount, is_yes_to_no);
            let d = p.input_reserve(is_yes_to_no) + p.net_input(input_amount);
            &&& q.yes_reserves * q.no_reserves <= p.yes_reserves * p.no_reserves
            &&& p.yes_reserves * p.no_reserves - d < q.yes_reserves * q.no_reserves
        }),
{
    let x = p.input_reserve(is_yes_to_no);
    let y = p.output_reserve(is_yes_to_no);
    let d = x + p.net_input(input_amount);
    let k = x * y;
    lemma_new_output_at_most(x, y, d);
    lemma_fundamental_div_mod(k, d);
    assert(0 <= k % d < d) by (nonlinear_arith)
        requires
            0 < d,
    ;
    assert(p.yes_reserves * p.no_reserves == k) by (nonlinear_arith)
        requires
            k == x * y,
            is_yes_to_no ==> x == p.yes_reserves && y == p.no_reserves,
            !is_yes_to_no ==> x == p.no_reserves && y == p.yes_reserves,
    ;
    let q = p.after_swap(input_amount, is_yes_to_no);
    assert(q.yes_reserves * q.no_reserves == d * (k / d)) by (nonlinear_arith)
        requires
            is_yes_to_no ==> q.yes_reserves == d && q.no_reserves == k / d,
            !is_yes_to_no ==> q.no_reserves == d && q.yes_reserves == k / d,
    ;
}

/// Constant product: a swap with a positive fee leaves the product of the
/// reserves at least where it was, whenever the new input reserve divides that
/// product. (Where it does not, rounding the new output reserve down lowers the
/// product slightly: see `lemma_swap_product_rounding`.)
pub proof fn lemma_swap_keeps_product(p: LiquidityPool, input_amount: u64, is_yes_to_no: bool)
    requires
        p.execute_swap_outcome(input_amount, is_yes_to_no) is Ok,
        p.fee_rate > 0,
        (p.yes_reserves * p.no_reserves) % (p.input_reserve(is_yes_to_no) + p.net_input(
            input_amount,
        )) == 0,
    ensures
        ({
            let q = p.after_swap(input_amount, is_yes_to_no);
            q.yes_reserves * q.no_reserves >= p.yes_reserves * p.no_reserves
        }),
{
    let x = p.input_reserve(is_yes_to_no);
    let y = p.output_reserve(is_yes_to_no);
    let d = x + p.net_input(input_amount);
    let k = x * y;
    lemma_new_output_at_most(x, y, d);
    lemma_fundamental_div_mod(k, d);
    assert(p.yes_reserves * p.no_reserves == k) by (nonlinear_arith)
        requires
            k == x * y,
            is_yes_to_no ==> x == p.yes_reserves && y == p.no_reserves,
            !is_yes_to_no ==> x == p.no_reserves && y == p.yes_reserves,
    ;
    let q = p.after_swap(input_amount, is_yes_to_no);
    assert(q.yes_reserves * q.no_reserves == d * (k / d)) by (nonlinear_arith)
        requires
            is_yes_to_no ==> q.yes_reserves == d && q.no_reserves == k / d,
            !is_yes_to_no ==> q.no_reserves == d && q.yes_reserves == k / d,
    ;
}


/// The yes and no prices of a pool add up to the whole, 10000 basis points,
/// less at most one point lost to rounding down.
pub proof fn lemma_prices_sum(p: LiquidityPool)
    requires
        p.price_outcome(true) is Ok,
        p.price_outcome(false) is Ok,
    ensures
        ({
            let sum = p.price_outcome(true)->Ok_0 + p.price_outcome(false)->Ok_0;
            sum == 9999 || sum == 10000
        }),
{
    let a = p.yes_reserves as int;
    let b = p.no_reserves as int;
    let t = a + b;
    lemma_fundamental_div_mod(a * 10000, t);
    lemma_fundamental_div_mod(b * 10000, t);
    let qa = (a * 10000) / t;
    let qb = (b * 10000) / t;
    let ra = (a * 10000) % t;
    let rb = (b * 10000) % t;
    assert(0 <= ra < t && 0 <= rb < t) by (nonlinear_arith)
        requires
            0 < t,
            ra == (a * 10000) % t,
            rb == (b * 10000) % t,
    ;
    assert(t * (10000 - qa - qb) == ra + rb) by (nonlinear_arith)
        requires
            a * 10000 == t * qa + ra,
            b * 10000 == t * qb + rb,
            t == a + b,
    ;
    assert(0 <= 10000 - qa - qb < 2) by (nonlinear_arith)
        requires
            t * (10000 - qa - qb) == ra + rb,
            0 <= ra + rb < 2 * t,
            0 < t,
    ;
}

} // verus!
