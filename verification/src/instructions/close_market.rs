//! The caller-initiated Open -> Resolving transition.

use vstd::prelude::*;
use crate::state::{AccountId, Status};
use crate::state::market::{market_wf, Market};
use crate::instructions::place_bet::market_latched;

verus! {

/// Closing failures; the market record is untouched by all of them.
#[derive(Clone, Copy, Debug, PartialEq, Eq, Structural)]
pub enum CloseMarketError {
    /// The market is already past Open.
    MarketNotOpen,
    /// The deadline has not passed yet.
    MarketStillActive,
    /// The caller is neither the market's authority nor its oracle.
    Unauthorized,
}

/// Who may close a market: its authority or its oracle.
pub open spec fn may_close(m: Market, caller: AccountId) -> bool {
    caller == m.authority || caller == m.oracle
}

/// What closing returns. Checks run in the engine's order: status,
/// deadline, authorization.
pub open spec fn close_result(m: Market, signer: AccountId, now: i64) -> Result<
    (),
    CloseMarketError,
> {
    if m.status != Status::Open {
        Err(CloseMarketError::MarketNotOpen)
    } else if now < m.end_time {
        Err(CloseMarketError::MarketStillActive)
    } else if !may_close(m, signer) {
        Err(CloseMarketError::Unauthorized)
    } else {
        Ok(())
    }
}

/// What closing leaves of the market: Resolving on success, untouched on
/// failure.
pub open spec fn market_after_close(m: Market, signer: AccountId, now: i64) -> Market {
    if close_result(m, signer, now) is Ok {
        market_latched(m)
    } else {
        m
    }
}

/// Close an open market whose deadline has passed, on behalf of `signer`.
///
/// Succeeds exactly when the market is Open, `now` has reached the
/// deadline, and the signer is the market's authority or oracle; the market
/// is then Resolving. This is the caller-initiated path for the same
/// Open -> Resolving edge that a late bet takes implicitly; taking either
/// first leaves the other a plain failure, never a broken record.
pub fn handle_close_market(market: &mut Market, signer: AccountId, now: i64) -> (r: Result<
    (),
    CloseMarketError,
>)
    ensures
        r == close_result(*old(market), signer, now),
        *final(market) == market_after_close(*old(market), signer, now),
        r is Ok <==> old(market).status == Status::Open && now >= old(market).end_time
            && may_close(*old(market), signer),
        r is Ok ==> final(market).status == Status::Resolving,
        r is Err ==> *final(market) == *old(market),
        market_wf(*old(market)) ==> market_wf(*final(market)),
{
    if market.status != Status::Open {
        return Err(CloseMarketError::MarketNotOpen);
    }
    if now < market.end_time {
        return Err(CloseMarketError::MarketStillActive);
    }
    if !(signer == market.authority || signer == market.oracle) {
        return Err(CloseMarketError::Unauthorized);
    }
    market.status = Status::Resolving;
    Ok(())
}

} // verus!
