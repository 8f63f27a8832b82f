//! The record of one participant's stake in one market.

use vstd::prelude::*;
use crate::state::{AccountId, Side};

verus! {

/// One bet: who staked, on which market, which side, and how much. The
/// record store allocates at most one per (market, bettor) pair; every
/// field but `withdrawn` is fixed at placement.
#[derive(Clone, Copy, Debug, PartialEq, Eq, Structural)]
pub struct Bet {
    /// Identity of the staking participant.
    pub bettor: AccountId,
    /// Key of the market this bet belongs to.
    pub market: AccountId,
    /// The side the stake backs.
    pub side: Side,
    /// The stake, strictly positive at placement.
    pub amount: u64,
    /// False at placement; set to true exactly once, by withdrawal.
    pub withdrawn: bool,
}

} // verus!
