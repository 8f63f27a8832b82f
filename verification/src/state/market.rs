//! The record of one yes/no question and its aggregate stake pools.

use vstd::prelude::*;
use crate::state::{AccountId, Outcome, Status};

verus! {

/// One market: a question, its two stake pools, and where it stands in the
/// lifecycle. Created once, mutated only through the engine's operations.
#[derive(Debug)]
pub struct Market {
    /// Identity of the creator; may close the market.
    pub authority: AccountId,
    /// Identity trusted to report the outcome; may also close the market.
    pub oracle: AccountId,
    /// The question text, fixed at creation.
    pub question: String,
    /// Total stake placed on yes. Only grows, and only while open.
    pub total_yes: u64,
    /// Total stake placed on no. Only grows, and only while open.
    pub total_no: u64,
    /// Undetermined until the market is resolved, then fixed.
    pub outcome: Outcome,
    /// The lifecycle stage.
    pub status: Status,
    /// No bets are accepted at or after this timestamp.
    pub end_time: i64,
    /// Informational flag, fixed at creation; no rule reads it.
    pub is_curated: bool,
}

/// A market as creation leaves it and as every operation keeps it: while a
/// market still accepts bets its outcome is undetermined. (Nothing stronger
/// holds of the status field alone: a late bet latches even a resolved
/// market back to Resolving without clearing its outcome — see
/// `instructions::place_bet`.)
pub open spec fn market_wf(m: Market) -> bool {
    m.status == Status::Open ==> m.outcome == Outcome::Undetermined
}

} // verus!
