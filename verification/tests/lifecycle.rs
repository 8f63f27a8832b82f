//! End-to-end runs of the market lifecycle.

use prediction_market::instructions::close_market::handle_close_market;
use prediction_market::instructions::initialize_market::handle_initialize;
use prediction_market::instructions::place_bet::{handle_place_bet, PlaceBetError};
use prediction_market::instructions::resolve_market::handle_resolve;
use prediction_market::instructions::withdraw_winnings::{handle_withdraw, WithdrawError};
use prediction_market::state::bet::Bet;
use prediction_market::state::market::Market;
use prediction_market::state::{AccountId, Outcome, Side, Status};

fn acct(id: u64) -> AccountId {
    AccountId { id }
}

fn open_market(end_time: i64, now: i64) -> Market {
    handle_initialize(
        acct(1),
        String::from("Will it rain?"),
        end_time,
        acct(2),
        false,
        now,
    )
    .expect("valid creation")
}

#[test]
fn full_lifecycle_with_two_bettors() {
    let t: i64 = 1_000;
    let authority = acct(1);
    let oracle = acct(2);
    let market_id = acct(10);
    let yes_bettor = acct(3);
    let no_bettor = acct(4);

    let mut market = open_market(t + 100, t);
    assert_eq!(market.status, Status::Open);
    assert_eq!(market.outcome, Outcome::Undetermined);
    assert_eq!(market.total_yes, 0);
    assert_eq!(market.total_no, 0);
    assert_eq!(market.authority, authority);
    assert_eq!(market.oracle, oracle);

    let yes_bet = handle_place_bet(&mut market, market_id, yes_bettor, 1, 50, t + 1)
        .expect("yes bet accepted");
    assert_eq!(market.total_yes, 50);
    assert_eq!(market.total_no, 0);
    assert_eq!(yes_bet.side, Side::Yes);
    assert_eq!(yes_bet.amount, 50);
    assert_eq!(yes_bet.bettor, yes_bettor);
    assert_eq!(yes_bet.market, market_id);
    assert!(!yes_bet.withdrawn);

    let no_bet = handle_place_bet(&mut market, market_id, no_bettor, 2, 30, t + 2)
        .expect("no bet accepted");
    assert_eq!(market.total_yes, 50);
    assert_eq!(market.total_no, 30);
    assert_eq!(no_bet.side, Side::No);
    assert_eq!(no_bet.amount, 30);

    handle_close_market(&mut market, authority, t + 100).expect("authority closes at deadline");
    assert_eq!(market.status, Status::Resolving);

    handle_resolve(&mut market, oracle, 1, t + 100).expect("oracle resolves to yes");
    assert_eq!(market.status, Status::Resolved);
    assert_eq!(market.outcome, Outcome::Yes);

    let mut winner = yes_bet;
    handle_withdraw(&market, market_id, &mut winner, yes_bettor).expect("winner withdraws");
    assert!(winner.withdrawn);

    let mut loser = no_bet;
    let denied = handle_withdraw(&market, market_id, &mut loser, no_bettor);
    assert_eq!(denied, Err(WithdrawError::NotAWinner));
    assert!(!loser.withdrawn);
}

#[test]
fn late_bet_on_open_market_fails_and_latches_resolving() {
    let t: i64 = 1_000;
    let mut market = open_market(t + 100, t);
    assert_eq!(market.status, Status::Open);

    let attempt = handle_place_bet(&mut market, acct(10), acct(3), 1, 25, t + 150);
    assert_eq!(attempt, Err(PlaceBetError::MarketClosed));
    assert_eq!(market.status, Status::Resolving);
    assert_eq!(market.total_yes, 0);
    assert_eq!(market.total_no, 0);
}

#[test]
fn late_bet_latches_whatever_the_prior_status_was() {
    let t: i64 = 1_000;
    let mut market = open_market(t + 100, t);
    market.status = Status::Resolving;
    let attempt = handle_place_bet(&mut market, acct(10), acct(3), 2, 5, t + 200);
    assert_eq!(attempt, Err(PlaceBetError::MarketClosed));
    assert_eq!(market.status, Status::Resolving);

    market.status = Status::Resolved;
    market.outcome = Outcome::No;
    let attempt = handle_place_bet(&mut market, acct(10), acct(3), 2, 5, t + 200);
    assert_eq!(attempt, Err(PlaceBetError::MarketClosed));
    assert_eq!(market.status, Status::Resolving);
    assert_eq!(market.outcome, Outcome::No);
}

#[test]
fn close_and_auto_close_are_interchangeable_entry_points() {
    let t: i64 = 1_000;

    // Caller-initiated close first: the late bet then fails the same way.
    let mut market = open_market(t + 100, t);
    handle_close_market(&mut market, acct(1), t + 100).expect("close succeeds");
    let attempt = handle_place_bet(&mut market, acct(10), acct(3), 1, 5, t + 100);
    assert_eq!(attempt, Err(PlaceBetError::MarketClosed));
    assert_eq!(market.status, Status::Resolving);

    // Late bet first: the close then reports the market as past Open.
    let mut market = open_market(t + 100, t);
    let attempt = handle_place_bet(&mut market, acct(10), acct(3), 1, 5, t + 100);
    assert_eq!(attempt, Err(PlaceBetError::MarketClosed));
    let closed = handle_close_market(&mut market, acct(1), t + 100);
    assert!(closed.is_err());
    assert_eq!(market.status, Status::Resolving);
}

#[test]
fn pool_totals_equal_sum_of_accepted_bets() {
    let t: i64 = 1_000;
    let mut market = open_market(t + 100, t);
    let market_id = acct(10);
    let amounts: Vec<(u8, u64)> = vec![(1, 50), (2, 30), (1, 7), (2, 13), (1, 1)];
    let mut accepted_sum: u64 = 0;
    for (i, (side, amount)) in amounts.iter().enumerate() {
        let bet: Bet =
            handle_place_bet(&mut market, market_id, acct(100 + i as u64), *side, *amount, t + 1)
                .expect("bet accepted");
        assert_eq!(bet.amount, *amount);
        accepted_sum += *amount;
    }
    assert_eq!(market.total_yes + market.total_no, accepted_sum);
    assert_eq!(market.total_yes, 58);
    assert_eq!(market.total_no, 43);
}

#[test]
fn winning_bet_withdraws_exactly_once() {
    let t: i64 = 1_000;
    let mut market = open_market(t + 100, t);
    let market_id = acct(10);
    let bettor = acct(3);
    let mut bet = handle_place_bet(&mut market, market_id, bettor, 2, 40, t + 1)
        .expect("bet accepted");
    handle_close_market(&mut market, acct(2), t + 100).expect("oracle may close");
    handle_resolve(&mut market, acct(2), 2, t + 101).expect("resolved to no");

    assert_eq!(handle_withdraw(&market, market_id, &mut bet, bettor), Ok(()));
    assert!(bet.withdrawn);
    assert_eq!(
        handle_withdraw(&market, market_id, &mut bet, bettor),
        Err(WithdrawError::AlreadyWithdrawn)
    );
    assert!(bet.withdrawn);
}
