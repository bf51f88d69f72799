//! A verified model of an atomic flash-loan liquidation pipeline.
//!
//! The library has two independent entry points sharing one theme:
//!
//! * [`liquidation`] — the orchestrator: borrow liquidity, liquidate an
//!   undercollateralized obligation, swap the seized collateral back,
//!   repay the loan and distribute the residual profit, all-or-nothing.
//! * [`flash_loan`] — the flash-loan primitive: decode an instruction
//!   payload and frame a borrow sub-call paired with a repay sub-call
//!   that back-references the borrow's position.
//!
//! The host ledger runtime (which executes the framed sub-calls and
//! provides atomic revert) is an unverified shell around this library;
//! everything here works on plain modeled values and is verified.

pub mod error;
pub mod flash_loan;
pub mod instruction;
pub mod liquidation;
pub mod token;
