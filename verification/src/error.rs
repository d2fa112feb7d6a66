use vstd::prelude::*;

verus! {

/// Every way a trade or an administrative call can fail. Each failure leaves
/// the curve and the configuration exactly as they were.
#[derive(Clone, Copy, Debug, PartialEq, Eq, Structural)]
pub enum ErrorCode {
    /// The curve has graduated; trading is permanently disabled.
    BondingCurveComplete,
    /// The caller is not the configured authority.
    Unauthorized,
    /// A withdrawal or deposit names an empty or unavailable amount.
    NothingToWithdraw,
    /// The matured-funds withdrawal path needs a graduated curve.
    BondingCurveNotComplete,
    /// A configuration write asked for a combined fee above the 30% cap.
    FeeTooHigh,
    /// The configured supply cannot back the initial real token reserves.
    InvalidTokenReserveConfiguration,
    /// A trade amount of zero was requested.
    InvalidAmount,
    /// A checked addition or multiplication left the 64-bit range.
    ArithmeticOverflow,
    /// A checked subtraction went below zero.
    ArithmeticUnderflow,
    /// The computed output is worse than the caller's stated minimum.
    SlippageExceeded,
    /// The real reserves cannot cover the computed output; this marks an
    /// integrity fault and never occurs when the invariants hold.
    InsufficientBacking,
}

} // verus!
