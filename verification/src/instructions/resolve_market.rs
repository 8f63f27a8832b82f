//! The oracle's Resolving -> Resolved transition.

use vstd::prelude::*;
use crate::state::{winning_outcome, AccountId, Outcome, Status};
use crate::state::market::Market;
use crate::instructions::place_bet::{side_of_code, valid_side_code};

verus! {

/// Resolution failures; the market record is untouched by all of them.
#[derive(Clone, Copy, Debug, PartialEq, Eq, Structural)]
pub enum ResolveMarketError {
    /// The outcome code names neither yes nor no.
    InvalidSide,
    /// The market has not been closed yet, or is already resolved.
    MarketNotResolving,
    /// The deadline has not passed yet.
    MarketStillActive,
}

/// What resolving returns. Checks run in the engine's order: outcome code,
/// status, deadline.
pub open spec fn resolve_result(m: Market, outcome: u8, now: i64) -> Result<
    (),
    ResolveMarketError,
> {
    if !valid_side_code(outcome) {
        Err(ResolveMarketError::InvalidSide)
    } else if m.status != Status::Resolving {
        Err(ResolveMarketError::MarketNotResolving)
    } else if now < m.end_time {
        Err(ResolveMarketError::MarketStillActive)
    } else {
        Ok(())
    }
}

/// What resolving leaves of the market: Resolved with the reported outcome
/// on success, untouched on failure.
pub open spec fn market_after_resolve(m: Market, outcome: u8, now: i64) -> Market {
    if resolve_result(m, outcome, now) is Ok {
        Market {
            outcome: winning_outcome(side_of_code(outcome)),
            status: Status::Resolved,
            ..m
        }
    } else {
        m
    }
}

/// Fix the market's outcome to the side named by `outcome` (1 yes, 2 no).
///
/// The caller must be the market's stored oracle; the record store binds
/// the resolving identity to that field before this operation runs, so the
/// binding is a precondition here, not a re-checked failure path. Succeeds
/// exactly when the outcome code is well formed, the market is Resolving,
/// and `now` has reached the deadline; the market is then Resolved and
/// carries the reported outcome.
pub fn handle_resolve(market: &mut Market, caller: AccountId, outcome: u8, now: i64) -> (r: Result<
    (),
    ResolveMarketError,
>)
    requires
        caller == old(market).oracle,
    ensures
        r == resolve_result(*old(market), outcome, now),
        *final(market) == market_after_resolve(*old(market), outcome, now),
        r is Ok <==> valid_side_code(outcome) && old(market).status == Status::Resolving
            && now >= old(market).end_time,
        r is Ok ==> final(market).status == Status::Resolved
            && final(market).outcome == winning_outcome(side_of_code(outcome)),
        r is Err ==> *final(market) == *old(market),
{
    if !(outcome == 1 || outcome == 2) {
        return Err(ResolveMarketError::InvalidSide);
    }
    if market.status != Status::Resolving {
        return Err(ResolveMarketError::MarketNotResolving);
    }
    if now < market.end_time {
        return Err(ResolveMarketError::MarketStillActive);
    }
    market.outcome = if outcome == 1 {
        Outcome::Yes
    } else {
        Outcome::No
    };
    market.status = Status::Resolved;
    Ok(())
}

} // verus!
