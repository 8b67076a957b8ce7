//! The entry points a host dispatches decoded requests to.

use vstd::prelude::*;

use crate::msg::{HandleMsg, InitMsg, QueryMsg, Tally};
use crate::poll::{initial_model, visible_tally, vote_outcome, PollError, VotingPoll};

verus! {

/// The answer to a query.
pub enum QueryAnswer {
    Poll(String),
    Tally(Tally),
}

/// Opens the poll that `msg` asks for, with `sender` as its admin.
pub fn init(msg: InitMsg, sender: &[u8]) -> (r: VotingPoll)
    ensures
        r.wf(),
        r@ == initial_model(msg.poll@, sender@),
{
    VotingPoll::initialize(msg.poll, sender)
}

/// Casts the vote that `msg` holds, for `sender`.
pub fn handle(poll: &mut VotingPoll, msg: HandleMsg, sender: &[u8]) -> (r: Result<(), PollError>)
    requires
        old(poll).wf(),
        sender@.len() + 7 <= usize::MAX,
    ensures
        final(poll).wf(),
        (final(poll)@, r) == vote_outcome(old(poll)@, msg.yes, sender@),
{
    poll.vote(msg.yes, sender)
}

/// Answers `msg`: the question, or the tally as `get_tally` shows it.
pub fn query(poll: &VotingPoll, msg: QueryMsg) -> (r: Result<QueryAnswer, PollError>)
    requires
        poll.wf(),
    ensures
        msg is GetPoll ==> (r matches Ok(QueryAnswer::Poll(s)) && s@ == poll@.poll),
        msg is GetTally ==> (r matches Ok(QueryAnswer::Tally(t)) && (t.yes, t.no) == visible_tally(poll@)),
{
    match msg {
        QueryMsg::GetPoll {} => match poll.get_poll() {
            Ok(s) => Ok(QueryAnswer::Poll(s)),
            Err(e) => Err(e),
        },
        QueryMsg::GetTally {} => match poll.get_tally() {
            Ok(t) => Ok(QueryAnswer::Tally(t)),
            Err(e) => Err(e),
        },
    }
}

} // verus!
