use vstd::prelude::*;

verus! {

/// Every way an operation of the escrow engine can be refused.
#[derive(Debug, Clone, Copy, PartialEq, Eq, Structural)]
pub enum ErrorCode {
    /// The precision handed to the deviation is zero or not a multiple of 100.
    InvalidPrecision,
    /// The period id is not below the number of periods.
    InvalidPeriodId,
    /// The period already holds a terminal status.
    AlreadyVerifiedPeriod,
    /// The period has not elapsed yet.
    PeriodNotElapsed,
    /// An earlier period still waits for its validation.
    PeriodOutOfOrder,
    /// A value could not be brought into the fixed-point form the engine computes with.
    DecimalConversionError,
    /// An intermediate result does not fit its integer type.
    CheckedOperationOverflow,
    /// A division by zero was asked for.
    DivisionByZero,
    /// The staker has fewer vested claim tokens than asked for.
    NoAvailableTokensForWithdrawal,
    /// The agreement has ended; no stake is taken any more.
    CannotStakeAfterSlaEnded,
    /// A withdrawal of zero claim tokens.
    WithdrawalIsZero,
    /// The agreement is already registered.
    SLaAlreadyInitialized,
    /// The governance parameters do not add up.
    NonValidGovernanceParameters,
    /// The provider pool would no longer cover the leveraged user pool.
    InsufficientCollateral,
    /// The agreement has not started yet.
    SlaNotStarted,
    /// The feed value is older than allowed.
    StaleFeed,
    /// The feed's confidence interval is wider than allowed.
    ConfidenceIntervalExceeded,
    /// The feed is not the one the agreement reads.
    InvalidFeedSource,
    /// No objective is registered for the agreement.
    SloNotFound,
    /// The agreement registry holds as many agreements as it can.
    SlaRegistryFull,
    /// The token of the agreement has more decimals than supported.
    InvalidMintDecimals,
    /// The schedule has no periods, periods of no length, or ends beyond the clock.
    InvalidSchedule,
    /// The leverage is negative or above the governance maximum.
    InvalidLeverage,
}

} // verus!
