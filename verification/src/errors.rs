//! The engine-wide error taxonomy.
//!
//! Each operation reports failures through its own narrower enum (see the
//! `instructions` modules); this shared taxonomy names every kind the engine
//! can surface. `Overflow` guards pool accumulation; `DivisionByZero` is
//! reserved for a payout-share computation that is an explicit extension
//! point, not part of this engine.

use vstd::prelude::*;

verus! {

/// Every failure kind the engine can report, across all five operations.
#[derive(Clone, Copy, Debug, PartialEq, Eq, Structural)]
pub enum ErrorCode {
    /// The question text exceeds the creation-time length limit.
    QuestionTooLong,
    /// A bet's stake must be strictly positive.
    InvalidAmount,
    /// A side or outcome code names neither yes nor no.
    InvalidSide,
    /// The market is no longer (or not yet properly) open.
    MarketNotOpen,
    /// The market's outcome has already been fixed.
    AlreadyResolved,
    /// The caller is neither the market's authority nor its oracle.
    Unauthorized,
    /// The market's outcome has not been fixed yet.
    MarketNotResolved,
    /// This bet's stake was already reclaimed.
    AlreadyWithdrawn,
    /// Adding the stake to a pool total would exceed the accumulator's range.
    Overflow,
    /// Reserved for a payout-share computation; never produced by this engine.
    DivisionByZero,
}

} // verus!
