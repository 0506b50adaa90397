//! The error taxonomy of the market core.

use vstd::prelude::*;

verus! {

/// Why an operation was refused.
///
/// Every operation of the core either succeeds as a whole or returns one of
/// these and leaves every record exactly as it was.
#[derive(Clone, Copy, Debug, PartialEq, Eq, Structural)]
pub enum PredictionError {
    /// The caller is not the market's authority.
    Unauthorized,
    /// The market is not in the status the operation needs.
    InvalidMarketStatus,
    /// The market's trading deadline has passed.
    MarketExpired,
    /// The outcome index is neither YES (0) nor NO (1).
    InvalidOutcome,
    /// A checked arithmetic step overflowed, underflowed, or failed to
    /// narrow back to the 64-bit working unit.
    MathOverflow,
    /// A claim was attempted on a market that is not resolved.
    MarketNotResolved,
    /// A resolved market carries no recorded winning outcome.
    InvalidWinningOutcome,
    /// The position has already claimed its payout.
    AlreadyClaimed,
    /// No winnings are available: zero winning shares at resolution, or a
    /// zero balance, share count or payout at claim time.
    NoWinnings,
    /// The position references a different market than the one supplied.
    PositionMarketMismatch,
    /// The position belongs to a different owner than the caller.
    PositionOwnerMismatch,
    /// A reserve is zero, or the initial liquidity of a new market is zero.
    InvalidLiquidity,
    /// A zero amount was supplied where a positive one is required, or a
    /// trade produced zero gross collateral.
    ZeroAmount,
    /// The realized output fell below the caller's slippage floor.
    SlippageExceeded,
    /// The trade produced zero shares.
    ZeroSharesOut,
    /// The caller holds fewer shares of the outcome than it tried to sell.
    InsufficientShares,
    /// The market question exceeds the permitted length.
    QuestionTooLong,
}

} // verus!
