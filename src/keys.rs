//! The keys under which the poll's records live in the store.

use vstd::prelude::*;

verus! {

/// `poll`
pub open spec fn poll_key() -> Seq<u8> {
    seq![112u8, 111, 108, 108]
}

/// `tally`
pub open spec fn tally_key() -> Seq<u8> {
    seq![116u8, 97, 108, 108, 121]
}

/// `admin`
pub open spec fn admin_key() -> Seq<u8> {
    seq![97u8, 100, 109, 105, 110]
}

/// `running`
pub open spec fn running_key() -> Seq<u8> {
    seq![114u8, 117, 110, 110, 105, 110, 103]
}

/// `voters:`, the namespace that holds one marker per address that has voted.
pub open spec fn voters_prefix() -> Seq<u8> {
    seq![118u8, 111, 116, 101, 114, 115, 58]
}

pub open spec fn voter_key(addr: Seq<u8>) -> Seq<u8> {
    voters_prefix() + addr
}

/// No voter marker can land on one of the four fixed records, and distinct
/// addresses get distinct markers.
pub proof fn lemma_voter_key_separate(a: Seq<u8>, b: Seq<u8>)
    ensures
        voter_key(a) != poll_key(),
        voter_key(a) != tally_key(),
        voter_key(a) != admin_key(),
        voter_key(a) != running_key(),
        voter_key(a) == voter_key(b) ==> a == b,
{
    assert(voter_key(a)[0] == 118u8);
    assert(running_key()[0] == 114u8);
    assert(a =~= voter_key(a).subrange(7, voter_key(a).len() as int));
    assert(b =~= voter_key(b).subrange(7, voter_key(b).len() as int));
}

pub(crate) fn poll_key_bytes() -> (r: Vec<u8>)
    ensures
        r@ == poll_key(),
{
    let r = vec![112u8, 111, 108, 108];
    assert(r@ =~= poll_key());
    r
}

pub(crate) fn tally_key_bytes() -> (r: Vec<u8>)
    ensures
        r@ == tally_key(),
{
    let r = vec![116u8, 97, 108, 108, 121];
    assert(r@ =~= tally_key());
    r
}

pub(crate) fn admin_key_bytes() -> (r: Vec<u8>)
    ensures
        r@ == admin_key(),
{
    let r = vec![97u8, 100, 109, 105, 110];
    assert(r@ =~= admin_key());
    r
}

pub(crate) fn running_key_bytes() -> (r: Vec<u8>)
    ensures
        r@ == running_key(),
{
    let r = vec![114u8, 117, 110, 110, 105, 110, 103];
    assert(r@ =~= running_key());
    r
}

/// The marker key for an address: the voters' namespace followed by its bytes.
pub(crate) fn voter_key_bytes(addr: &[u8]) -> (r: Vec<u8>)
    requires
        addr@.len() + 7 <= usize::MAX,
    ensures
        r@ == voter_key(addr@),
{
    let mut r = vec![118u8, 111, 116, 101, 114, 115, 58];
    assert(r@ =~= voters_prefix());
    let mut i: usize = 0;
    while i < addr.len()
        invariant
            i <= addr@.len(),
            r@ == voters_prefix() + addr@.subrange(0, i as int),
        decreases addr@.len() - i,
    {
        r.push(addr[i]);
        i = i + 1;
        assert(r@ =~= voters_prefix() + addr@.subrange(0, i as int));
    }
    assert(addr@.subrange(0, addr@.len() as int) =~= addr@);
    r
}

} // verus!
