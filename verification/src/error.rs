use vstd::prelude::*;

verus! {

/// Errors surfaced by the flash-loan entry point. Each cause gets a
/// distinct variant so that callers can branch on it.
#[derive(Clone, Copy, Debug, PartialEq, Eq, Structural)]
pub enum FlashLoanError {
    /// The instruction payload was malformed: unknown tag byte or fewer
    /// than nine bytes.
    InvalidInstruction,
    /// The requested amount was zero.
    InvalidAmount,
    /// The designated authority has not proven signing authority in this
    /// execution.
    InvalidSigner,
}

impl FlashLoanError {
    /// The numeric code this error is reported under to the host runtime:
    /// a custom range starting at 1000, one code per variant.
    pub fn error_code(&self) -> (code: u32)
        ensures
            code == 1000 + match *self {
                FlashLoanError::InvalidInstruction => 0u32,
                FlashLoanError::InvalidAmount => 1u32,
                FlashLoanError::InvalidSigner => 2u32,
            },
    {
        1000 + match self {
            FlashLoanError::InvalidInstruction => 0,
            FlashLoanError::InvalidAmount => 1,
            FlashLoanError::InvalidSigner => 2,
        }
    }
}

/// A failure of one token-transfer sub-call, as the token-transfer
/// primitive reports it: the source balance is short, or the destination
/// balance would overflow.
#[derive(Clone, Copy, Debug, PartialEq, Eq, Structural)]
pub enum TokenError {
    InsufficientFunds,
    Overflow,
}

/// Errors of the liquidation orchestrator.
#[derive(Clone, Copy, Debug, PartialEq, Eq, Structural)]
pub enum LiquidateError {
    /// The liquidity amount was zero; rejected before any sub-call.
    InvalidArgument,
    /// A transfer sub-call failed; the cause is propagated verbatim.
    SubCall(TokenError),
    /// The destination-liquidity balance was zero at the distribution
    /// step: a reportable failure, not a silent no-op.
    NoProfit,
}

} // verus!
