//! Error taxonomy of the distribution engine.

use vstd::prelude::*;

verus! {

/// Everything that can abort an invocation.  An error always aborts the whole
/// invocation: no partial state change survives.
#[derive(Clone, Copy, Debug, PartialEq, Eq, Structural)]
pub enum HonoraryFeeError {
    /// The pool configuration would accrue base-token fees.
    BaseFeesDetected,
    /// The quote mint could not be identified among the pair's tokens.
    InvalidTokenOrder,
    /// The 24 hour cooldown has not yet elapsed.
    CooldownNotElapsed,
    /// The daily cap was exceeded.
    DailyCapExceeded,
    /// An amount fell below the minimum payout threshold.
    BelowMinPayout,
    /// No locked tokens were found for distribution.
    NoLockedTokens,
    /// A vesting stream account was malformed.
    InvalidStreamAccount,
    /// Overflow, underflow or division by zero.
    ArithmeticOverflow,
    /// A new-day operation was attempted while a day is still open.
    DistributionComplete,
    /// The pagination cursor or page size is out of bounds.
    InvalidPaginationCursor,
    /// The pool account is not initialized properly.
    PoolNotInitialized,
    /// The position is not owned by the program's derived authority.
    InvalidPositionOwner,
    /// Base-token fees were detected in a claim.
    BaseFeesInClaim,
    /// The quote mint does not match this vault's policy.
    InvalidQuoteMint,
    /// The treasury or destination token account is invalid.
    InvalidTreasury,
}

} // verus!
