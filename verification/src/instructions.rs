//! The five operations of the market lifecycle engine.

pub mod initialize_market;
pub mod place_bet;
pub mod close_market;
pub mod resolve_market;
pub mod withdraw_winnings;
