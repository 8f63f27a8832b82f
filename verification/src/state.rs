//! The durable records the engine reads and mutates, and the plain value
//! types their fields are made of.

use vstd::prelude::*;

pub mod market;
pub mod bet;

verus! {

/// An authenticated identity, as resolved by the execution environment.
///
/// The engine only ever compares identities for equality; how a caller
/// proves control of one is the environment's concern.
#[derive(Clone, Copy, Debug, PartialEq, Eq, Structural)]
pub struct AccountId {
    pub id: u64,
}

/// The two mutually exclusive positions a bet can back.
#[derive(Clone, Copy, Debug, PartialEq, Eq, Structural)]
pub enum Side {
    Yes,
    No,
}

/// A market's lifecycle stage. It is meant to advance Open -> Resolving ->
/// Resolved, though a late bet latches any market back to Resolving (see
/// `instructions::place_bet`).
#[derive(Clone, Copy, Debug, PartialEq, Eq, Structural)]
pub enum Status {
    /// Accepting bets.
    Open,
    /// Closed to bets, awaiting the oracle's report.
    Resolving,
    /// Outcome fixed; winners may reclaim their stake.
    Resolved,
}

/// What the real world answered, once the oracle has reported it.
#[derive(Clone, Copy, Debug, PartialEq, Eq, Structural)]
pub enum Outcome {
    /// No report yet; the only outcome a market may hold before it is
    /// resolved.
    Undetermined,
    Yes,
    No,
}

/// The outcome under which a bet on `side` wins.
pub open spec fn winning_outcome(side: Side) -> Outcome {
    match side {
        Side::Yes => Outcome::Yes,
        Side::No => Outcome::No,
    }
}

} // verus!
