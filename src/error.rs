use vstd::prelude::*;

verus! {

/// Errors of the liquidity pool and of market creation.
#[derive(Clone, Copy, Debug, PartialEq, Eq, Structural)]
pub enum ZentroError {
    MarketNotActive,
    MarketAlreadyResolved,
    InsufficientFunds,
    InvalidBetAmount,
    ResolutionTimeNotReached,
    UnauthorizedResolver,
    InvalidOutcome,
    BetNotFound,
    CannotClaimLosingBet,
    WinningsAlreadyClaimed,
    InsufficientCreationFee,
    InvalidMarketDuration,
    MarketTitleTooLong,
    MarketDescriptionTooLong,
    InvalidOracleAuthority,
    OracleResolutionPending,
    ArithmeticOverflow,
    ArithmeticUnderflow,
    DivisionByZero,
    InvalidPercentage,
    MarketPaused,
    NotImplemented,
    /// The market identifier is longer than allowed.
    MarketIdTooLong,
    /// A fee rate above the cap of 1000 basis points.
    FeeTooHigh,
    /// The pool is deactivated.
    PoolInactive,
    /// A zero amount where a positive one is needed.
    InvalidAmount,
    /// The pool cannot serve the request from its reserves or shares.
    InsufficientLiquidity,
}

/// Errors of the fee-aware market.
#[derive(Clone, Copy, Debug, PartialEq, Eq, Structural)]
pub enum MarketError {
    TitleTooLong,
    DescriptionTooLong,
    CategoryTooLong,
    ResolutionSourceTooLong,
    InvalidEndTime,
    InvalidFeeRate,
    InvalidBetAmount,
    /// A bet on a market that is already resolved.
    MarketResolved,
    /// A bet at or after the market's end time.
    MarketExpired,
    /// A bet below the minimum or above the maximum.
    BetOutOfRange,
    Overflow,
    /// A second resolution.
    AlreadyResolved,
    /// A resolution before the market's end time.
    MarketNotExpired,
}

/// Errors of the pari-mutuel market and its settlement.
#[derive(Clone, Copy, Debug, PartialEq, Eq, Structural)]
pub enum ErrorCode {
    MarketResolved,
    MarketExpired,
    InvalidAmount,
    MarketAlreadyResolved,
    UnauthorizedOracle,
    MarketNotExpired,
    MarketNotResolved,
    UnauthorizedUser,
    AlreadyClaimed,
    NoWinnings,
    /// A total or a payout that does not fit its integer type.
    ArithmeticOverflow,
}

} // verus!
