use poll_voting::{handle, init, query, HandleMsg, InitMsg, PollError, QueryAnswer, QueryMsg, Tally, VotingPoll};

const CREATOR: &[u8] = b"creator";
const ALICE: &[u8] = b"alice";
const BOB: &[u8] = b"bob";
const CAROL: &[u8] = b"carol";

fn tally(p: &VotingPoll) -> (u64, u64) {
    let t = p.get_tally().unwrap();
    (t.yes, t.no)
}

#[test]
fn pizza_poll_end_to_end() {
    let mut p = init(InitMsg { poll: "Pizza?".to_string() }, CREATOR);
    assert_eq!(p.get_poll(), Ok("Pizza?".to_string()));
    assert_eq!(handle(&mut p, HandleMsg { yes: true }, ALICE), Ok(()));
    assert_eq!(handle(&mut p, HandleMsg { yes: true }, ALICE), Err(PollError::DuplicateVote));
    assert_eq!(handle(&mut p, HandleMsg { yes: false }, BOB), Ok(()));
    assert_eq!(p.get_tally(), Ok(Tally { yes: 0, no: 0 }));
    assert_eq!(p.close(ALICE), Err(PollError::Unauthorized));
    assert_eq!(p.close(CREATOR), Ok(()));
    assert_eq!(p.get_tally(), Ok(Tally { yes: 1, no: 1 }));
    assert_eq!(handle(&mut p, HandleMsg { yes: true }, CAROL), Err(PollError::PollClosed));
}

#[test]
fn accepted_votes_are_counted() {
    let mut p = VotingPoll::initialize("Tea or coffee?".to_string(), CREATOR);
    let voters: [&[u8]; 5] = [b"a1", b"a2", b"a3", b"a4", b"a5"];
    let mut accepted: u64 = 0;
    for (i, v) in voters.iter().enumerate() {
        if p.vote(i % 2 == 0, v).is_ok() {
            accepted += 1;
        }
        assert!(p.vote(true, v).is_err());
    }
    assert_eq!(p.close(CREATOR), Ok(()));
    let (yes, no) = tally(&p);
    assert_eq!(yes + no, accepted);
    assert_eq!((yes, no), (3, 2));
}

#[test]
fn second_vote_leaves_tally_unchanged() {
    let mut p = VotingPoll::initialize("q".to_string(), CREATOR);
    assert_eq!(p.vote(false, ALICE), Ok(()));
    assert_eq!(p.vote(false, ALICE), Err(PollError::DuplicateVote));
    assert_eq!(p.vote(true, ALICE), Err(PollError::DuplicateVote));
    assert_eq!(p.close(CREATOR), Ok(()));
    assert_eq!(tally(&p), (0, 1));
}

#[test]
fn tally_hidden_while_running() {
    let mut p = VotingPoll::initialize("q".to_string(), CREATOR);
    assert_eq!(tally(&p), (0, 0));
    assert_eq!(p.vote(true, ALICE), Ok(()));
    assert_eq!(tally(&p), (0, 0));
    assert_eq!(p.vote(true, BOB), Ok(()));
    assert_eq!(p.vote(false, CAROL), Ok(()));
    assert_eq!(tally(&p), (0, 0));
    assert_eq!(p.close(CREATOR), Ok(()));
    assert_eq!(tally(&p), (2, 1));
}

#[test]
fn closed_poll_refuses_votes_and_keeps_tally() {
    let mut p = VotingPoll::initialize("q".to_string(), CREATOR);
    assert_eq!(p.vote(true, ALICE), Ok(()));
    assert_eq!(p.close(CREATOR), Ok(()));
    assert_eq!(tally(&p), (1, 0));
    assert_eq!(p.vote(true, BOB), Err(PollError::PollClosed));
    assert_eq!(p.vote(false, CAROL), Err(PollError::PollClosed));
    assert_eq!(p.vote(false, ALICE), Err(PollError::PollClosed));
    assert_eq!(tally(&p), (1, 0));
}

#[test]
fn close_after_close_is_poll_closed() {
    let mut p = VotingPoll::initialize("q".to_string(), CREATOR);
    assert_eq!(p.close(CREATOR), Ok(()));
    assert_eq!(p.close(CREATOR), Err(PollError::PollClosed));
    assert_eq!(p.close(ALICE), Err(PollError::PollClosed));
}

#[test]
fn only_admin_may_close() {
    let mut p = VotingPoll::initialize("q".to_string(), CREATOR);
    assert_eq!(p.vote(true, ALICE), Ok(()));
    assert_eq!(p.close(ALICE), Err(PollError::Unauthorized));
    assert_eq!(p.close(b"creato"), Err(PollError::Unauthorized));
    assert_eq!(p.close(b"creatorx"), Err(PollError::Unauthorized));
    assert_eq!(p.close(b""), Err(PollError::Unauthorized));
    // still running: votes are accepted and the tally stays hidden
    assert_eq!(p.vote(false, BOB), Ok(()));
    assert_eq!(tally(&p), (0, 0));
    assert_eq!(p.close(CREATOR), Ok(()));
    assert_eq!(tally(&p), (1, 1));
}

#[test]
fn empty_address_and_empty_question() {
    let mut p = VotingPoll::initialize(String::new(), b"");
    assert_eq!(p.get_poll(), Ok(String::new()));
    assert_eq!(p.vote(true, b""), Ok(()));
    assert_eq!(p.vote(true, b""), Err(PollError::DuplicateVote));
    assert_eq!(p.close(b"x"), Err(PollError::Unauthorized));
    assert_eq!(p.close(b""), Ok(()));
    assert_eq!(tally(&p), (1, 0));
}

#[test]
fn question_round_trips_through_store() {
    let text = "Which café? ☕ — pick one".to_string();
    let p = VotingPoll::initialize(text.clone(), CREATOR);
    assert_eq!(p.get_poll(), Ok(text));
}

#[test]
fn voter_named_like_a_record_is_separate() {
    let mut p = VotingPoll::initialize("q".to_string(), CREATOR);
    for addr in [b"poll".as_slice(), b"tally", b"admin", b"running", b"voters:"] {
        assert_eq!(p.vote(true, addr), Ok(()));
    }
    assert_eq!(p.get_poll(), Ok("q".to_string()));
    assert_eq!(p.close(CREATOR), Ok(()));
    assert_eq!(tally(&p), (5, 0));
}

#[test]
fn query_answers() {
    let mut p = init(InitMsg { poll: "Pizza?".to_string() }, CREATOR);
    match query(&p, QueryMsg::GetPoll {}) {
        Ok(QueryAnswer::Poll(s)) => assert_eq!(s, "Pizza?"),
        _ => panic!("expected the question"),
    }
    assert_eq!(handle(&mut p, HandleMsg { yes: false }, ALICE), Ok(()));
    match query(&p, QueryMsg::GetTally {}) {
        Ok(QueryAnswer::Tally(t)) => assert_eq!(t, Tally { yes: 0, no: 0 }),
        _ => panic!("expected a tally"),
    }
    assert_eq!(p.close(CREATOR), Ok(()));
    match query(&p, QueryMsg::GetTally {}) {
        Ok(QueryAnswer::Tally(t)) => assert_eq!(t, Tally { yes: 0, no: 1 }),
        _ => panic!("expected a tally"),
    }
}

#[test]
fn error_messages() {
    assert_eq!(PollError::PollClosed.message(), "the poll is closed");
    assert_eq!(PollError::DuplicateVote.message(), "this address has voted already");
    assert_eq!(PollError::Unauthorized.message(), "only the poll's admin may close it");
    assert_eq!(PollError::StorageCorrupt.message(), "a poll record is missing or unreadable");
    assert_eq!(PollError::TallyOverflow.message(), "the tally cannot count another vote");
}
