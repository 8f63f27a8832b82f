//! Market creation.

use vstd::prelude::*;
use vstd::string::StrSliceExecFns;
use crate::constants::QUESTION_MAX_LEN;
use crate::state::{AccountId, Outcome, Status};
use crate::state::market::{market_wf, Market};

verus! {

/// Creation failures; always detected before any record exists.
#[derive(Clone, Copy, Debug, PartialEq, Eq, Structural)]
pub enum InitializeMarketError {
    /// The question has more than `QUESTION_MAX_LEN` characters.
    QuestionTooLong,
    /// The betting deadline is not strictly in the future.
    EndTimeInPast,
}

/// What creating a market returns: the fresh record on valid input, and the
/// matching failure kind otherwise. Validation order follows the engine:
/// question length first, then the deadline.
pub open spec fn initialize_result(
    authority: AccountId,
    question: String,
    end_time: i64,
    oracle: AccountId,
    is_curated: bool,
    now: i64,
) -> Result<Market, InitializeMarketError> {
    if question@.len() > QUESTION_MAX_LEN {
        Err(InitializeMarketError::QuestionTooLong)
    } else if end_time <= now {
        Err(InitializeMarketError::EndTimeInPast)
    } else {
        Ok(Market {
            authority,
            oracle,
            question,
            total_yes: 0,
            total_no: 0,
            outcome: Outcome::Undetermined,
            status: Status::Open,
            end_time,
            is_curated,
        })
    }
}

/// Create a market for `question`, closing to bets at `end_time`.
///
/// Succeeds exactly when the question fits the length limit and the
/// deadline is strictly later than `now`; the fresh market is open, its
/// outcome undetermined, and both pools empty.
pub fn handle_initialize(
    authority: AccountId,
    question: String,
    end_time: i64,
    oracle: AccountId,
    is_curated: bool,
    now: i64,
) -> (r: Result<Market, InitializeMarketError>)
    ensures
        r == initialize_result(authority, question, end_time, oracle, is_curated, now),
        r matches Ok(m) ==> market_wf(m),
        r is Ok <==> question@.len() <= QUESTION_MAX_LEN && end_time > now,
{
    if question.as_str().unicode_len() > QUESTION_MAX_LEN {
        return Err(InitializeMarketError::QuestionTooLong);
    }
    if end_time <= now {
        return Err(InitializeMarketError::EndTimeInPast);
    }
    Ok(Market {
        authority,
        oracle,
        question,
        total_yes: 0,
        total_no: 0,
        outcome: Outcome::Undetermined,
        status: Status::Open,
        end_time,
        is_curated,
    })
}

} // verus!
