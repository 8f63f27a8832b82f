//! Laws of the lifecycle engine that span several operations, stated over
//! the spec-level transitions the operation contracts are written in.

use vstd::prelude::*;
use crate::state::{winning_outcome, AccountId, Side, Status};
use crate::state::market::Market;
use crate::state::bet::Bet;
use crate::instructions::place_bet::{market_after_bet, market_after_place_bet};
use crate::instructions::close_market::market_after_close;
use crate::instructions::resolve_market::market_after_resolve;
use crate::instructions::withdraw_winnings::{bet_after_withdraw, withdraw_result, WithdrawError};

verus! {

/// The market after a run of accepted bets, each applied as a successful
/// placement applies it.
pub open spec fn apply_bets(m: Market, calls: Seq<(Side, u64)>) -> Market
    decreases calls.len(),
{
    if calls.len() == 0 {
        m
    } else {
        market_after_bet(apply_bets(m, calls.drop_last()), calls.last().0, calls.last().1)
    }
}

/// The total stake of a run of bets.
pub open spec fn sum_amounts(calls: Seq<(Side, u64)>) -> int
    decreases calls.len(),
{
    if calls.len() == 0 {
        0
    } else {
        sum_amounts(calls.drop_last()) + calls.last().1
    }
}

/// A run's total stake is never negative.
pub proof fn lemma_sum_amounts_nonneg(calls: Seq<(Side, u64)>)
    ensures
        sum_amounts(calls) >= 0,
    decreases calls.len(),
{
    if calls.len() > 0 {
        lemma_sum_amounts_nonneg(calls.drop_last());
    }
}

/// Law: over any run of accepted bets whose total stake still fits the
/// pool accumulators, the two pool totals together grow by exactly the sum
/// of the accepted amounts, and nothing else in the market record moves.
/// (That each accepted bet record carries its call's side and amount is part
/// of `handle_place_bet`'s own contract.)
pub proof fn lemma_pool_accounting(m: Market, calls: Seq<(Side, u64)>)
    requires
        m.total_yes + m.total_no + sum_amounts(calls) <= u64::MAX,
    ensures
        apply_bets(m, calls).total_yes + apply_bets(m, calls).total_no == m.total_yes
            + m.total_no + sum_amounts(calls),
        apply_bets(m, calls).total_yes >= m.total_yes,
        apply_bets(m, calls).total_no >= m.total_no,
        apply_bets(m, calls) == (Market {
            total_yes: apply_bets(m, calls).total_yes,
            total_no: apply_bets(m, calls).total_no,
            ..m
        }),
    decreases calls.len(),
{
    if calls.len() > 0 {
        let prefix = calls.drop_last();
        lemma_sum_amounts_nonneg(prefix);
        lemma_pool_accounting(m, prefix);
    }
}

/// Law: no single operation changes a resolved market's outcome. A late
/// bet may latch its status back to Resolving, but the outcome field
/// stands; closing and resolving a resolved market fail and leave the
/// record untouched; withdrawal never mutates a market at all (it takes
/// the record read-only).
pub proof fn lemma_resolved_outcome_stable(
    m: Market,
    side: u8,
    amount: u64,
    signer: AccountId,
    outcome_code: u8,
    now: i64,
)
    requires
        m.status == Status::Resolved,
    ensures
        market_after_place_bet(m, side, amount, now).outcome == m.outcome,
        market_after_close(m, signer, now) == m,
        market_after_resolve(m, outcome_code, now) == m,
{
}

/// Law: a winning bet's stake can be reclaimed at most once. On a resolved
/// market, the first withdrawal of a not-yet-withdrawn winning bet
/// succeeds and marks it withdrawn; a second withdrawal of the same bet
/// fails with `AlreadyWithdrawn` and leaves it as it stands.
pub proof fn lemma_withdraw_at_most_once(m: Market, b: Bet)
    requires
        m.status == Status::Resolved,
        !b.withdrawn,
        m.outcome == winning_outcome(b.side),
    ensures
        withdraw_result(m, b) == Ok::<(), WithdrawError>(()),
        bet_after_withdraw(m, b).withdrawn,
        withdraw_result(m, bet_after_withdraw(m, b)) == Err::<(), WithdrawError>(
            WithdrawError::AlreadyWithdrawn,
        ),
        bet_after_withdraw(m, bet_after_withdraw(m, b)) == bet_after_withdraw(m, b),
{
}

/// Law: a bet on the losing side of a resolved market can never reclaim
/// its stake: withdrawal fails with `NotAWinner` and the bet stands
/// untouched, however often it is retried.
pub proof fn lemma_losing_bet_never_withdraws(m: Market, b: Bet)
    requires
        m.status == Status::Resolved,
        m.outcome != winning_outcome(b.side),
        !b.withdrawn,
    ensures
        withdraw_result(m, b) == Err::<(), WithdrawError>(WithdrawError::NotAWinner),
        bet_after_withdraw(m, b) == b,
{
}

/// Law: no operation ever rewrites a market's identities, question,
/// deadline, or curation flag, and the pool totals never shrink.
pub proof fn lemma_immutable_fields(
    m: Market,
    side: u8,
    amount: u64,
    signer: AccountId,
    outcome_code: u8,
    now: i64,
)
    ensures
        market_after_place_bet(m, side, amount, now) == (Market {
            total_yes: market_after_place_bet(m, side, amount, now).total_yes,
            total_no: market_after_place_bet(m, side, amount, now).total_no,
            status: market_after_place_bet(m, side, amount, now).status,
            ..m
        }),
        market_after_place_bet(m, side, amount, now).total_yes >= m.total_yes,
        market_after_place_bet(m, side, amount, now).total_no >= m.total_no,
        market_after_close(m, signer, now) == (Market {
            status: market_after_close(m, signer, now).status,
            ..m
        }),
        market_after_resolve(m, outcome_code, now) == (Market {
            status: market_after_resolve(m, outcome_code, now).status,
            outcome: market_after_resolve(m, outcome_code, now).outcome,
            ..m
        }),
{
}

} // verus!
