//! Request shapes of the governance service.

use vstd::prelude::*;

verus! {

/// A vote cast on a proposal: for, against, or abstain.
#[derive(Clone, Debug)]
pub struct CastVoteRequest {
    pub vote_choice: String,
    pub vote_reason: Option<String>,
    pub delegate_power: Option<bool>,
}

} // verus!
