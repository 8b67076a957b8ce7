//! What holds of the poll over whole runs of operations.

use vstd::prelude::*;

use crate::poll::{close_outcome, initial_model, visible_tally, vote_outcome, PollError, PollModel};

verus! {

/// Casts `votes` one after another, each a choice and a caller: the poll at
/// the end and how many of the votes were accepted.
pub open spec fn run_votes(m: PollModel, votes: Seq<(bool, Seq<u8>)>) -> (PollModel, nat)
    decreases votes.len(),
{
    if votes.len() == 0 {
        (m, 0)
    } else {
        let step = vote_outcome(m, votes[0].0, votes[0].1);
        let rest = run_votes(step.0, votes.drop_first());
        (rest.0, rest.1 + if step.1 is Ok { 1nat } else { 0nat })
    }
}

/// Every accepted vote adds exactly one to `yes + no`, and a refused one adds
/// nothing: from a fresh poll the sum is the number of accepted votes.
pub proof fn lemma_tally_counts_accepted(m: PollModel, votes: Seq<(bool, Seq<u8>)>)
    ensures
        run_votes(m, votes).0.yes + run_votes(m, votes).0.no == m.yes + m.no + run_votes(m, votes).1,
    decreases votes.len(),
{
    if votes.len() > 0 {
        lemma_tally_counts_accepted(vote_outcome(m, votes[0].0, votes[0].1).0, votes.drop_first());
    }
}

/// From a fresh poll, `yes + no` is the number of accepted votes.
pub proof fn lemma_fresh_tally_counts_accepted(poll: Seq<char>, admin: Seq<u8>, votes: Seq<(bool, Seq<u8>)>)
    ensures
        run_votes(initial_model(poll, admin), votes).0.yes + run_votes(initial_model(poll, admin), votes).0.no
            == run_votes(initial_model(poll, admin), votes).1,
{
    lemma_tally_counts_accepted(initial_model(poll, admin), votes);
}

/// Once a caller's vote is accepted, any further vote by that caller is
/// refused as a duplicate and changes nothing.
pub proof fn lemma_second_vote_refused(m: PollModel, first: bool, second: bool, caller: Seq<u8>)
    requires
        vote_outcome(m, first, caller).1 is Ok,
    ensures
        vote_outcome(vote_outcome(m, first, caller).0, second, caller) == (
            vote_outcome(m, first, caller).0,
            Err::<(), PollError>(PollError::DuplicateVote),
        ),
{
}

/// Votes never stop a running poll, so its tally reads zero on both sides
/// however many votes were accepted.
pub proof fn lemma_tally_hidden_while_running(m: PollModel, votes: Seq<(bool, Seq<u8>)>)
    requires
        m.running,
    ensures
        run_votes(m, votes).0.running,
        visible_tally(run_votes(m, votes).0) == (0u64, 0u64),
    decreases votes.len(),
{
    if votes.len() > 0 {
        lemma_tally_hidden_while_running(vote_outcome(m, votes[0].0, votes[0].1).0, votes.drop_first());
    }
}

/// After a successful close the tally shows the counts of that moment, and
/// every later vote is refused as closed and leaves the poll as it is.
pub proof fn lemma_close_freezes_tally(m: PollModel, caller: Seq<u8>, votes: Seq<(bool, Seq<u8>)>)
    requires
        close_outcome(m, caller).1 is Ok,
    ensures
        visible_tally(close_outcome(m, caller).0) == (m.yes, m.no),
        run_votes(close_outcome(m, caller).0, votes) == (close_outcome(m, caller).0, 0nat),
        forall|i: int|
            0 <= i < votes.len() ==> #[trigger] vote_outcome(close_outcome(m, caller).0, votes[i].0, votes[i].1) == (
                close_outcome(m, caller).0,
                Err::<(), PollError>(PollError::PollClosed),
            ),
{
    lemma_closed_ignores_votes(close_outcome(m, caller).0, votes);
}

/// A closed poll refuses every vote.
proof fn lemma_closed_ignores_votes(m: PollModel, votes: Seq<(bool, Seq<u8>)>)
    requires
        !m.running,
    ensures
        run_votes(m, votes) == (m, 0nat),
    decreases votes.len(),
{
    if votes.len() > 0 {
        lemma_closed_ignores_votes(m, votes.drop_first());
    }
}

/// While a poll runs after any votes, only the address that opened it can
/// close it; anyone else is refused as unauthorized and the poll keeps running.
pub proof fn lemma_only_admin_closes(poll: Seq<char>, admin: Seq<u8>, votes: Seq<(bool, Seq<u8>)>, caller: Seq<u8>)
    ensures
        close_outcome(run_votes(initial_model(poll, admin), votes).0, caller).1 is Ok <==> caller == admin,
        caller != admin ==> close_outcome(run_votes(initial_model(poll, admin), votes).0, caller) == (
            run_votes(initial_model(poll, admin), votes).0,
            Err::<(), PollError>(PollError::Unauthorized),
        ),
        caller != admin ==> close_outcome(run_votes(initial_model(poll, admin), votes).0, caller).0.running,
{
    lemma_tally_hidden_while_running(initial_model(poll, admin), votes);
    lemma_votes_keep_admin(initial_model(poll, admin), votes);
}

/// Votes never change the admin.
proof fn lemma_votes_keep_admin(m: PollModel, votes: Seq<(bool, Seq<u8>)>)
    ensures
        run_votes(m, votes).0.admin == m.admin,
    decreases votes.len(),
{
    if votes.len() > 0 {
        lemma_votes_keep_admin(vote_outcome(m, votes[0].0, votes[0].1).0, votes.drop_first());
    }
}

} // verus!
