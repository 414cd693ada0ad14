use vstd::prelude::*;

verus! {

/// Why an operation on a bonding curve was rejected.
///
/// A rejected operation leaves the curve exactly as it was.
#[derive(PartialEq, Eq, Structural, Clone, Copy, Debug)]
pub enum BondingCurveError {
    /// The trade amount is zero, or a creation parameter that must be
    /// positive is zero.
    InvalidAmount,
    /// A buy or sell was attempted while the curve is not trading.
    TradingClosed,
    /// The quoted output is below the caller's floor.
    SlippageExceeded,
    /// The quoted output exceeds what the curve really holds.
    InsufficientCurveLiquidity,
    /// The pricing or accounting arithmetic would give a non-positive
    /// output or leave its integer width.
    InvalidComputation,
    /// Migration was attempted before the curve graduated.
    NotYetGraduated,
    /// The curve has already been migrated.
    AlreadyMigrated,
    /// The caller does not hold the identity the operation requires.
    Unauthorized,
    /// A claim was attempted with nothing pending.
    NoClaimableFees,
    /// The external ledger rejected a transfer of the trade.
    TransferFailed,
    /// A fee table charges more than the whole amount.
    FeeTooHigh,
    /// A curve for this token already exists.
    CurveAlreadyExists,
    /// No curve exists for this token.
    UnknownCurve,
}

} // verus!
