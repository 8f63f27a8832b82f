//! Creation-time limits on market records.

use vstd::prelude::*;

verus! {

/// Longest question, in characters, that a market may be created with.
pub const QUESTION_MAX_LEN: usize = 200;

} // verus!
