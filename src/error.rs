use vstd::prelude::*;

verus! {

/// Every way a call into the distribution engine can fail.
#[derive(Clone, Copy, Debug, PartialEq, Eq, Structural)]
pub enum ErrorCode {
    /// The lower tick of a position is not below its upper tick.
    InvalidTickRange,
    /// A fee claim returned base tokens.
    BaseFeeDetected,
    /// The pool cannot accrue quote-only fees.
    InvalidPoolForQuoteOnly,
    /// The day key of the call does not match the stored progress.
    DayGateNotPassed,
    /// The page was already applied.
    AlreadyProcessedPage,
    /// An investor's token account is missing.
    MissingInvestorATA,
    /// The daily cap would be exceeded.
    CapExceeded,
    /// Nothing was claimed, or the payouts would exceed what was claimed.
    InsufficientClaimedQuote,
    /// The vesting program is not the expected one.
    InvalidStreamflowProgram,
    /// No vesting stream exists for a participant.
    StreamAccountNotFound,
    /// An amount does not fit its integer type.
    MathOverflow,
    /// The progress account is not the one derived for the day.
    InvalidProgressAccount,
    /// The policy parameters are unusable: `y0` is zero, the share exceeds
    /// 10000 basis points, or a whole-day locked total is below a page's.
    InvalidPolicy,
}

} // verus!
