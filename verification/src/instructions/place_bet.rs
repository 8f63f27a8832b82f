//! Bet placement, and the auto-close latch it carries.

use vstd::prelude::*;
use crate::state::{AccountId, Side, Status};
use crate::state::market::{market_wf, Market};
use crate::state::bet::Bet;

verus! {

/// Placement failures. The market record is untouched by all of them except
/// `MarketClosed`, which latches the market into Resolving as it fails.
#[derive(Clone, Copy, Debug, PartialEq, Eq, Structural)]
pub enum PlaceBetError {
    /// The side code names neither yes nor no.
    InvalidSide,
    /// The stake must be strictly positive.
    InvalidAmount,
    /// The market is past Open (and its deadline has not passed yet).
    MarketNotOpen,
    /// The deadline has passed; no further bets, ever.
    MarketClosed,
    /// The stake would push its side's pool past the accumulator's range.
    Overflow,
}

/// Whether a wire code names a side: 1 is yes, 2 is no.
pub open spec fn valid_side_code(side: u8) -> bool {
    side == 1 || side == 2
}

/// The side a valid wire code names.
pub open spec fn side_of_code(side: u8) -> Side {
    if side == 1 {
        Side::Yes
    } else {
        Side::No
    }
}

/// Whether `amount` still fits into its side's pool accumulator.
pub open spec fn pool_fits(m: Market, side: Side, amount: u64) -> bool {
    match side {
        Side::Yes => m.total_yes + amount <= u64::MAX,
        Side::No => m.total_no + amount <= u64::MAX,
    }
}

/// The market after a successful bet: the stake joins its side's pool and
/// nothing else moves.
pub open spec fn market_after_bet(m: Market, side: Side, amount: u64) -> Market {
    match side {
        Side::Yes => Market { total_yes: (m.total_yes + amount) as u64, ..m },
        Side::No => Market { total_no: (m.total_no + amount) as u64, ..m },
    }
}

/// The market after the auto-close latch: Resolving, all else untouched.
pub open spec fn market_latched(m: Market) -> Market {
    Market { status: Status::Resolving, ..m }
}

/// What placing a bet returns: the fresh bet record on success, and the
/// matching failure kind otherwise. Checks run in the engine's order:
/// side, amount, deadline, status, pool capacity.
pub open spec fn place_bet_result(
    m: Market,
    market_id: AccountId,
    bettor: AccountId,
    side: u8,
    amount: u64,
    now: i64,
) -> Result<Bet, PlaceBetError> {
    if !valid_side_code(side) {
        Err(PlaceBetError::InvalidSide)
    } else if amount == 0 {
        Err(PlaceBetError::InvalidAmount)
    } else if now >= m.end_time {
        Err(PlaceBetError::MarketClosed)
    } else if m.status != Status::Open {
        Err(PlaceBetError::MarketNotOpen)
    } else if !pool_fits(m, side_of_code(side), amount) {
        Err(PlaceBetError::Overflow)
    } else {
        Ok(Bet {
            bettor,
            market: market_id,
            side: side_of_code(side),
            amount,
            withdrawn: false,
        })
    }
}

/// What placing a bet leaves of the market: grown pool on success, the
/// Resolving latch on a late attempt with well-formed side and amount, and
/// the record untouched on every other failure.
pub open spec fn market_after_place_bet(m: Market, side: u8, amount: u64, now: i64) -> Market {
    if !valid_side_code(side) || amount == 0 {
        m
    } else if now >= m.end_time {
        market_latched(m)
    } else if m.status != Status::Open {
        m
    } else if !pool_fits(m, side_of_code(side), amount) {
        m
    } else {
        market_after_bet(m, side_of_code(side), amount)
    }
}

/// The Open -> Resolving edge taken implicitly by a late bet: the first
/// operation to touch a market at or past its deadline latches it into
/// Resolving, whatever its prior status. Named so the latch can be
/// exercised on its own, apart from bet placement.
pub fn auto_close(market: &mut Market)
    ensures
        *final(market) == market_latched(*old(market)),
{
    market.status = Status::Resolving;
}

/// Place a stake of `amount` on the side named by `side` (1 yes, 2 no).
///
/// Succeeds exactly when the side code and amount are well formed, `now` is
/// still before the market's deadline, the market is Open, and the pool
/// accumulator has room; the stake then joins its side's pool and the fresh
/// bet record carries the call's side and amount, not yet withdrawn. A
/// well-formed bet arriving at or past the deadline fails with
/// `MarketClosed` and, as a deliberate side effect, latches the market into
/// Resolving whatever its prior status.
pub fn handle_place_bet(
    market: &mut Market,
    market_id: AccountId,
    bettor: AccountId,
    side: u8,
    amount: u64,
    now: i64,
) -> (r: Result<Bet, PlaceBetError>)
    ensures
        r == place_bet_result(*old(market), market_id, bettor, side, amount, now),
        *final(market) == market_after_place_bet(*old(market), side, amount, now),
        r is Ok <==> valid_side_code(side) && amount > 0 && now < old(market).end_time
            && old(market).status == Status::Open
            && pool_fits(*old(market), side_of_code(side), amount),
        valid_side_code(side) && amount > 0 && now >= old(market).end_time ==> (
            r == Err::<Bet, PlaceBetError>(PlaceBetError::MarketClosed)
            && final(market).status == Status::Resolving
        ),
        r is Ok ==> final(market).total_yes + final(market).total_no
            == old(market).total_yes + old(market).total_no + amount,
        market_wf(*old(market)) ==> market_wf(*final(market)),
        final(market).outcome == old(market).outcome,
{
    if !(side == 1 || side == 2) {
        return Err(PlaceBetError::InvalidSide);
    }
    if amount == 0 {
        return Err(PlaceBetError::InvalidAmount);
    }
    if now >= market.end_time {
        auto_close(market);
        return Err(PlaceBetError::MarketClosed);
    }
    if market.status != Status::Open {
        return Err(PlaceBetError::MarketNotOpen);
    }
    let chosen: Side = if side == 1 {
        Side::Yes
    } else {
        Side::No
    };
    match chosen {
        Side::Yes => {
            if amount > u64::MAX - market.total_yes {
                return Err(PlaceBetError::Overflow);
            }
            market.total_yes = market.total_yes + amount;
        },
        Side::No => {
            if amount > u64::MAX - market.total_no {
                return Err(PlaceBetError::Overflow);
            }
            market.total_no = market.total_no + amount;
        },
    }
    Ok(Bet { bettor, market: market_id, side: chosen, amount, withdrawn: false })
}

} // verus!
