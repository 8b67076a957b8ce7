//! The requests a host hands to the poll, and the tally it answers with.

use vstd::prelude::*;

verus! {

/// Opens a poll on the given question.
pub struct InitMsg {
    pub poll: String,
}

/// Casts one vote: `yes` for a yes vote, otherwise a no vote.
#[derive(Clone, Copy, Debug, PartialEq, Eq, Structural)]
pub struct HandleMsg {
    pub yes: bool,
}

/// The two read-only questions a host may ask.
#[derive(Clone, Copy, Debug, PartialEq, Eq, Structural)]
pub enum QueryMsg {
    GetPoll {},
    GetTally {},
}

/// Counts of yes and no votes.
#[derive(Clone, Copy, Debug, PartialEq, Eq, Structural)]
pub struct Tally {
    pub yes: u64,
    pub no: u64,
}

} // verus!
