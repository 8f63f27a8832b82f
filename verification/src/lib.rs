//! Settlement engine for a binary-outcome prediction market.
//!
//! Participants stake value on one side of a yes/no question, an oracle later
//! reports the outcome, and winners become eligible to reclaim their stake.
//! This crate holds the market lifecycle state machine and its bet-accounting
//! and authorization rules as pure functions over plain records. The
//! surrounding execution environment supplies the collaborators the engine
//! consumes: a clock (passed in as a timestamp argument), caller
//! authentication (passed in as an identity argument), and a record store
//! that allocates one `Market` per question and at most one `Bet` per
//! (market, bettor) pair.

use vstd::prelude::*;

pub mod constants;
pub mod errors;
pub mod state;
pub mod instructions;
pub mod lemmas;

use crate::state::AccountId;
use crate::state::market::Market;
use crate::state::bet::Bet;
use crate::instructions::initialize_market::{
    handle_initialize, initialize_result, InitializeMarketError,
};
use crate::instructions::place_bet::{
    handle_place_bet, market_after_place_bet, place_bet_result, PlaceBetError,
};
use crate::instructions::close_market::{
    close_result, handle_close_market, market_after_close, CloseMarketError,
};
use crate::instructions::resolve_market::{
    handle_resolve, market_after_resolve, resolve_result, ResolveMarketError,
};
use crate::instructions::withdraw_winnings::{
    bet_after_withdraw, handle_withdraw, withdraw_result, WithdrawError,
};

verus! {

/// Create a market. Entry point over
/// `instructions::initialize_market::handle_initialize`, which carries the
/// full contract.
pub fn initialize_market(
    authority: AccountId,
    question: String,
    end_time: i64,
    oracle: AccountId,
    is_curated: bool,
    now: i64,
) -> (r: Result<Market, InitializeMarketError>)
    ensures
        r == initialize_result(authority, question, end_time, oracle, is_curated, now),
{
    handle_initialize(authority, question, end_time, oracle, is_curated, now)
}

/// Place a bet. Entry point over
/// `instructions::place_bet::handle_place_bet`, which carries the full
/// contract.
pub fn place_bet(
    market: &mut Market,
    market_id: AccountId,
    bettor: AccountId,
    side: u8,
    amount: u64,
    now: i64,
) -> (r: Result<Bet, PlaceBetError>)
    ensures
        r == place_bet_result(*old(market), market_id, bettor, side, amount, now),
        *final(market) == market_after_place_bet(*old(market), side, amount, now),
{
    handle_place_bet(market, market_id, bettor, side, amount, now)
}

/// Close a market. Entry point over
/// `instructions::close_market::handle_close_market`, which carries the
/// full contract.
pub fn close_market(market: &mut Market, signer: AccountId, now: i64) -> (r: Result<
    (),
    CloseMarketError,
>)
    ensures
        r == close_result(*old(market), signer, now),
        *final(market) == market_after_close(*old(market), signer, now),
{
    handle_close_market(market, signer, now)
}

/// Resolve a market. Entry point over
/// `instructions::resolve_market::handle_resolve`, which carries the full
/// contract; the caller must be the market's stored oracle.
pub fn resolve_market(market: &mut Market, caller: AccountId, outcome: u8, now: i64) -> (r: Result<
    (),
    ResolveMarketError,
>)
    requires
        caller == old(market).oracle,
    ensures
        r == resolve_result(*old(market), outcome, now),
        *final(market) == market_after_resolve(*old(market), outcome, now),
{
    handle_resolve(market, caller, outcome, now)
}

/// Withdraw a winning bet's stake eligibility. Entry point over
/// `instructions::withdraw_winnings::handle_withdraw`, which carries the
/// full contract; the bet must be bound to this market and caller.
pub fn withdraw_winnings(
    market: &Market,
    market_id: AccountId,
    bet: &mut Bet,
    caller: AccountId,
) -> (r: Result<(), WithdrawError>)
    requires
        old(bet).market == market_id,
        old(bet).bettor == caller,
    ensures
        r == withdraw_result(*market, *old(bet)),
        *final(bet) == bet_after_withdraw(*market, *old(bet)),
{
    handle_withdraw(market, market_id, bet, caller)
}

} // verus!
