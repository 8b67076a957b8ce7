//! The poll state machine: `initialize`, `vote`, `close`, and the two queries,
//! each stated against an abstract model of the poll.

use vstd::prelude::*;

use cosmwasm_std::MemoryStorage;

use crate::codec::{decode_pair, decode_text, encode_pair, encode_text, pair_encoding, text_encoding, BincodeResult};
use crate::keys::{
    admin_key, admin_key_bytes, lemma_voter_key_separate, poll_key, poll_key_bytes, running_key,
    running_key_bytes, tally_key, tally_key_bytes, voter_key, voter_key_bytes,
};
use crate::msg::Tally;
use crate::store::{new_store, store_contents, store_get, store_set};

verus! {

/// Why an operation on the poll was refused.
#[derive(Clone, Copy, Debug, PartialEq, Eq, Structural)]
pub enum PollError {
    /// The poll is closed: no vote, and no second close, is accepted.
    PollClosed,
    /// The caller has voted already.
    DuplicateVote,
    /// Only the poll's admin may close it.
    Unauthorized,
    /// A record the poll needs is missing from the store or cannot be read.
    StorageCorrupt,
    /// The counter the vote would raise is at its largest value.
    TallyOverflow,
}

impl PollError {
    /// A human-readable account of the error.
    pub fn message(&self) -> (r: String)
        ensures
            *self is PollClosed ==> r@ == "the poll is closed"@,
            *self is DuplicateVote ==> r@ == "this address has voted already"@,
            *self is Unauthorized ==> r@ == "only the poll's admin may close it"@,
            *self is StorageCorrupt ==> r@ == "a poll record is missing or unreadable"@,
            *self is TallyOverflow ==> r@ == "the tally cannot count another vote"@,
    {
        match self {
            PollError::PollClosed => String::from_str("the poll is closed"),
            PollError::DuplicateVote => String::from_str("this address has voted already"),
            PollError::Unauthorized => String::from_str("only the poll's admin may close it"),
            PollError::StorageCorrupt => String::from_str("a poll record is missing or unreadable"),
            PollError::TallyOverflow => String::from_str("the tally cannot count another vote"),
        }
    }
}

/// The poll as a value: its question, its admin, whether it is running, the
/// counts, and the addresses that have voted.
pub struct PollModel {
    pub poll: Seq<char>,
    pub admin: Seq<u8>,
    pub running: bool,
    pub yes: u64,
    pub no: u64,
    pub voters: Set<Seq<u8>>,
}

/// The poll just after `initialize`.
pub open spec fn initial_model(poll: Seq<char>, admin: Seq<u8>) -> PollModel {
    PollModel { poll, admin, running: true, yes: 0, no: 0, voters: Set::empty() }
}

/// What `vote` does: refuse a closed poll, then a repeated voter, then a
/// counter that cannot grow; otherwise record the voter and count the vote.
pub open spec fn vote_outcome(m: PollModel, yes: bool, caller: Seq<u8>) -> (PollModel, Result<(), PollError>) {
    if !m.running {
        (m, Err(PollError::PollClosed))
    } else if m.voters.contains(caller) {
        (m, Err(PollError::DuplicateVote))
    } else if yes && m.yes == u64::MAX || !yes && m.no == u64::MAX {
        (m, Err(PollError::TallyOverflow))
    } else if yes {
        (
            PollModel {
                poll: m.poll,
                admin: m.admin,
                running: m.running,
                yes: (m.yes + 1) as u64,
                no: m.no,
                voters: m.voters.insert(caller),
            },
            Ok(()),
        )
    } else {
        (
            PollModel {
                poll: m.poll,
                admin: m.admin,
                running: m.running,
                yes: m.yes,
                no: (m.no + 1) as u64,
                voters: m.voters.insert(caller),
            },
            Ok(()),
        )
    }
}

/// What `close` does: refuse a closed poll, then anyone but the admin;
/// otherwise stop the poll.
pub open spec fn close_outcome(m: PollModel, caller: Seq<u8>) -> (PollModel, Result<(), PollError>) {
    if !m.running {
        (m, Err(PollError::PollClosed))
    } else if caller != m.admin {
        (m, Err(PollError::Unauthorized))
    } else {
        (
            PollModel {
                poll: m.poll,
                admin: m.admin,
                running: false,
                yes: m.yes,
                no: m.no,
                voters: m.voters,
            },
            Ok(()),
        )
    }
}

/// The tally that `get_tally` shows: nothing while the poll runs, the real
/// counts once it is closed.
pub open spec fn visible_tally(m: PollModel) -> (u64, u64) {
    if m.running {
        (0, 0)
    } else {
        (m.yes, m.no)
    }
}

/// The stored form of the running flag: one byte, 1 or 0.
pub open spec fn flag_bytes(b: bool) -> Seq<u8> {
    if b {
        seq![1u8]
    } else {
        seq![0u8]
    }
}

/// A poll and the store that holds its records.
pub struct VotingPoll {
    store: MemoryStorage,
    model: Ghost<PollModel>,
}

impl View for VotingPoll {
    type V = PollModel;

    closed spec fn view(&self) -> PollModel {
        self.model@
    }
}

impl VotingPoll {
    /// The store holds each record of the model, a marker for exactly the
    /// addresses that voted, and no more votes than voters.
    pub closed spec fn wf(&self) -> bool {
        let c = store_contents(self.store);
        let m = self.model@;
        &&& c.contains_key(poll_key()) && c[poll_key()] == text_encoding(m.poll)
        &&& c.contains_key(tally_key()) && c[tally_key()] == pair_encoding((m.yes, m.no))
        &&& c.contains_key(admin_key()) && c[admin_key()] == m.admin
        &&& c.contains_key(running_key()) && c[running_key()] == flag_bytes(m.running)
        &&& forall|a: Seq<u8>| #[trigger] c.contains_key(voter_key(a)) == m.voters.contains(a)
        &&& m.voters.finite()
        &&& m.yes + m.no <= m.voters.len()
    }

    /// Opens a poll on `poll`, with `caller` as its admin: the question, a
    /// tally of zero, the admin and a set running flag are written to a new store.
    pub fn initialize(poll: String, caller: &[u8]) -> (r: VotingPoll)
        ensures
            r.wf(),
            r@ == initial_model(poll@, caller@),
    {
        let mut store = new_store();
        let poll_bytes = encoded(encode_text(&poll));
        let tally_bytes = encoded(encode_pair((0, 0)));
        let pk = poll_key_bytes();
        let tk = tally_key_bytes();
        let ak = admin_key_bytes();
        let rk = running_key_bytes();
        let flag: Vec<u8> = vec![1u8];
        store_set(&mut store, pk.as_slice(), poll_bytes.as_slice());
        store_set(&mut store, tk.as_slice(), tally_bytes.as_slice());
        store_set(&mut store, ak.as_slice(), caller);
        store_set(&mut store, rk.as_slice(), flag.as_slice());
        let ghost m = initial_model(poll@, caller@);
        proof {
            assert(flag@ =~= flag_bytes(true));
            assert forall|a: Seq<u8>| #[trigger]
                store_contents(store).contains_key(voter_key(a)) == m.voters.contains(a) by {
                lemma_voter_key_separate(a, a);
            }
        }
        VotingPoll { store, model: Ghost(m) }
    }

    /// Reads the running flag.
    fn read_running(&self) -> (r: Result<bool, PollError>)
        requires
            self.wf(),
        ensures
            r == Ok::<bool, PollError>(self@.running),
    {
        let rk = running_key_bytes();
        match store_get(&self.store, rk.as_slice()) {
            Some(v) => {
                if v.len() == 1 {
                    Ok(v[0] == 1)
                } else {
                    Err(PollError::StorageCorrupt)
                }
            },
            None => Err(PollError::StorageCorrupt),
        }
    }

    /// Reads the stored counts.
    fn read_tally(&self) -> (r: Result<(u64, u64), PollError>)
        requires
            self.wf(),
        ensures
            r == Ok::<(u64, u64), PollError>((self@.yes, self@.no)),
    {
        let tk = tally_key_bytes();
        match store_get(&self.store, tk.as_slice()) {
            Some(v) => match decode_pair(v.as_slice()) {
                Ok(p) => Ok(p),
                Err(_) => Err(PollError::StorageCorrupt),
            },
            None => Err(PollError::StorageCorrupt),
        }
    }

    /// Casts a vote for `caller`: a yes vote if `yes`, a no vote otherwise.
    pub fn vote(&mut self, yes: bool, caller: &[u8]) -> (r: Result<(), PollError>)
        requires
            old(self).wf(),
            caller@.len() + 7 <= usize::MAX,
        ensures
            final(self).wf(),
            (final(self)@, r) == vote_outcome(old(self)@, yes, caller@),
    {
        let running = match self.read_running() {
            Ok(b) => b,
            Err(e) => return Err(e),
        };
        if !running {
            return Err(PollError::PollClosed);
        }
        let key = voter_key_bytes(caller);
        proof {
            lemma_voter_key_separate(caller@, caller@);
        }
        if store_get(&self.store, key.as_slice()).is_some() {
            return Err(PollError::DuplicateVote);
        }
        let (y, n) = match self.read_tally() {
            Ok(p) => p,
            Err(e) => return Err(e),
        };
        let next: (u64, u64) = if yes {
            if y == u64::MAX {
                return Err(PollError::TallyOverflow);
            }
            (y + 1, n)
        } else {
            if n == u64::MAX {
                return Err(PollError::TallyOverflow);
            }
            (y, n + 1)
        };
        let ghost m0 = self.model@;
        let ghost c0 = store_contents(self.store);
        let marker: Vec<u8> = vec![1u8];
        let tally_bytes = encoded(encode_pair(next));
        let tk = tally_key_bytes();
        store_set(&mut self.store, key.as_slice(), marker.as_slice());
        store_set(&mut self.store, tk.as_slice(), tally_bytes.as_slice());
        let ghost m1 = vote_outcome(m0, yes, caller@).0;
        self.model = Ghost(m1);
        proof {
            let c = store_contents(self.store);
            assert(c[poll_key()] == c0[poll_key()]);
            assert(c[admin_key()] == c0[admin_key()]);
            assert(c[running_key()] == c0[running_key()]);
            assert forall|a: Seq<u8>| #[trigger]
                c.contains_key(voter_key(a)) == m1.voters.contains(a) by {
                lemma_voter_key_separate(a, caller@);
                assert(c0.contains_key(voter_key(a)) == m0.voters.contains(a));
            }
        }
        Ok(())
    }

    /// Closes the poll for good, if `caller` is its admin.
    pub fn close(&mut self, caller: &[u8]) -> (r: Result<(), PollError>)
        requires
            old(self).wf(),
        ensures
            final(self).wf(),
            (final(self)@, r) == close_outcome(old(self)@, caller@),
    {
        let running = match self.read_running() {
            Ok(b) => b,
            Err(e) => return Err(e),
        };
        if !running {
            return Err(PollError::PollClosed);
        }
        let ak = admin_key_bytes();
        let admin = match store_get(&self.store, ak.as_slice()) {
            Some(v) => v,
            None => return Err(PollError::StorageCorrupt),
        };
        if !bytes_equal(admin.as_slice(), caller) {
            return Err(PollError::Unauthorized);
        }
        let ghost m0 = self.model@;
        let ghost c0 = store_contents(self.store);
        let rk = running_key_bytes();
        let flag: Vec<u8> = vec![0u8];
        store_set(&mut self.store, rk.as_slice(), flag.as_slice());
        let ghost m1 = close_outcome(m0, caller@).0;
        self.model = Ghost(m1);
        proof {
            let c = store_contents(self.store);
            assert(flag@ =~= flag_bytes(false));
            assert(c[poll_key()] == c0[poll_key()]);
            assert(c[admin_key()] == c0[admin_key()]);
            assert(c[tally_key()] == c0[tally_key()]);
            assert forall|a: Seq<u8>| #[trigger]
                c.contains_key(voter_key(a)) == m1.voters.contains(a) by {
                lemma_voter_key_separate(a, a);
                assert(c0.contains_key(voter_key(a)) == m0.voters.contains(a));
            }
        }
        Ok(())
    }

    /// The poll's question.
    pub fn get_poll(&self) -> (r: Result<String, PollError>)
        requires
            self.wf(),
        ensures
            r matches Ok(s) && s@ == self@.poll,
    {
        let pk = poll_key_bytes();
        match store_get(&self.store, pk.as_slice()) {
            Some(v) => match decode_text(v.as_slice()) {
                Ok(s) => Ok(s),
                Err(_) => Err(PollError::StorageCorrupt),
            },
            None => Err(PollError::StorageCorrupt),
        }
    }

    /// The tally: zero on both sides while the poll runs, the real counts once
    /// it is closed.
    pub fn get_tally(&self) -> (r: Result<Tally, PollError>)
        requires
            self.wf(),
        ensures
            r matches Ok(t) && (t.yes, t.no) == visible_tally(self@),
    {
        let running = match self.read_running() {
            Ok(b) => b,
            Err(e) => return Err(e),
        };
        if running {
            return Ok(Tally { yes: 0, no: 0 });
        }
        match self.read_tally() {
            Ok((y, n)) => Ok(Tally { yes: y, no: n }),
            Err(e) => Err(e),
        }
    }
}

/// Whether two byte strings are the same.
fn bytes_equal(a: &[u8], b: &[u8]) -> (r: bool)
    ensures
        r == (a@ == b@),
{
    if a.len() != b.len() {
        return false;
    }
    let mut i: usize = 0;
    while i < a.len()
        invariant
            a@.len() == b@.len(),
            i <= a@.len(),
            a@.subrange(0, i as int) == b@.subrange(0, i as int),
        decreases a@.len() - i,
    {
        if a[i] != b[i] {
            assert(a@[i as int] != b@[i as int]);
            return false;
        }
        assert(a@.subrange(0, i + 1) =~= a@.subrange(0, i as int).push(a@[i as int]));
        assert(b@.subrange(0, i + 1) =~= b@.subrange(0, i as int).push(b@[i as int]));
        i = i + 1;
    }
    assert(a@ =~= a@.subrange(0, a@.len() as int));
    assert(b@ =~= b@.subrange(0, b@.len() as int));
    true
}

/// The bytes of an encoding that cannot fail.
fn encoded(r: BincodeResult<Vec<u8>>) -> (b: Vec<u8>)
    requires
        r is Ok,
    ensures
        r matches Ok(v) && b@ == v@,
{
    match r {
        Ok(v) => v,
        Err(_) => Vec::new(),
    }
}

} // verus!
