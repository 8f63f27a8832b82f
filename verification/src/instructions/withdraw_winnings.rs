//! Winner eligibility gating: the one mutation a bet ever sees.

use vstd::prelude::*;
use crate::state::{winning_outcome, AccountId, Outcome, Side, Status};
use crate::state::market::Market;
use crate::state::bet::Bet;

verus! {

/// Withdrawal failures; the bet record is untouched by all of them.
#[derive(Clone, Copy, Debug, PartialEq, Eq, Structural)]
pub enum WithdrawError {
    /// The market's outcome has not been fixed yet.
    MarketNotResolved,
    /// This bet's stake was already reclaimed.
    AlreadyWithdrawn,
    /// The bet backed the losing side.
    NotAWinner,
}

/// What withdrawing returns. Checks run in the engine's order: market
/// status, the bet's withdrawn flag, the bet's side against the outcome.
pub open spec fn withdraw_result(m: Market, b: Bet) -> Result<(), WithdrawError> {
    if m.status != Status::Resolved {
        Err(WithdrawError::MarketNotResolved)
    } else if b.withdrawn {
        Err(WithdrawError::AlreadyWithdrawn)
    } else if m.outcome != winning_outcome(b.side) {
        Err(WithdrawError::NotAWinner)
    } else {
        Ok(())
    }
}

/// What withdrawing leaves of the bet: marked withdrawn on success,
/// untouched on failure.
pub open spec fn bet_after_withdraw(m: Market, b: Bet) -> Bet {
    if withdraw_result(m, b) is Ok {
        Bet { withdrawn: true, ..b }
    } else {
        b
    }
}

/// Mark a winning bet's stake as reclaimed.
///
/// The record store binds the bet to this market and to the calling bettor
/// before this operation runs, so both bindings are preconditions here, not
/// re-checked failure paths. Succeeds exactly when the market is Resolved,
/// the bet has not been withdrawn yet, and the bet backed the reported
/// outcome; the bet is then marked withdrawn, and a second attempt fails
/// with `AlreadyWithdrawn`. The market record is never mutated. The actual
/// release of winnings is a settlement collaborator's step, gated by this
/// flag; no payout formula is defined here.
pub fn handle_withdraw(
    market: &Market,
    market_id: AccountId,
    bet: &mut Bet,
    caller: AccountId,
) -> (r: Result<(), WithdrawError>)
    requires
        old(bet).market == market_id,
        old(bet).bettor == caller,
    ensures
        r == withdraw_result(*market, *old(bet)),
        *final(bet) == bet_after_withdraw(*market, *old(bet)),
        r is Ok <==> market.status == Status::Resolved && !old(bet).withdrawn
            && market.outcome == winning_outcome(old(bet).side),
        r is Ok ==> final(bet).withdrawn,
        r is Err ==> *final(bet) == *old(bet),
        final(bet).side == old(bet).side && final(bet).amount == old(bet).amount
            && final(bet).bettor == old(bet).bettor && final(bet).market == old(bet).market,
{
    if market.status != Status::Resolved {
        return Err(WithdrawError::MarketNotResolved);
    }
    if bet.withdrawn {
        return Err(WithdrawError::AlreadyWithdrawn);
    }
    let want = match bet.side {
        Side::Yes => Outcome::Yes,
        Side::No => Outcome::No,
    };
    if market.outcome != want {
        return Err(WithdrawError::NotAWinner);
    }
    bet.withdrawn = true;
    Ok(())
}

} // verus!
