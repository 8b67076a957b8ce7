//! Record encoding through bincode2, as the poll's question and its tally are
//! written to the store.

use vstd::prelude::*;

verus! {

#[verifier::external_type_specification]
#[verifier::external_body]
pub struct ExBincodeErrorKind(bincode2::ErrorKind);

/// What bincode2 hands back: a value, or its error.
pub type BincodeResult<T> = Result<T, Box<bincode2::ErrorKind>>;

/// The bytes that bincode2's default configuration writes for a string.
pub uninterp spec fn text_encoding(s: Seq<char>) -> Seq<u8>;

/// The bytes that bincode2's default configuration writes for a pair of `u64`.
pub uninterp spec fn pair_encoding(p: (u64, u64)) -> Seq<u8>;

/// Relies on `bincode2::serialize` of a `String`: under the default
/// configuration (no size limit) writing a string into a vector cannot fail.
#[verifier::external_body]
pub(crate) fn encode_text(s: &String) -> (r: BincodeResult<Vec<u8>>)
    ensures
        r is Ok,
        r matches Ok(b) ==> b@ == text_encoding(s@),
{
    bincode2::serialize(s)
}

/// Relies on `bincode2::deserialize` into a `String`: it reads back what
/// `bincode2::serialize` wrote.
#[verifier::external_body]
pub(crate) fn decode_text(data: &[u8]) -> (r: BincodeResult<String>)
    ensures
        forall|t: Seq<char>| data@ == text_encoding(t) ==> r is Ok,
        r matches Ok(s) ==> forall|t: Seq<char>| data@ == text_encoding(t) ==> s@ == t,
{
    bincode2::deserialize(data)
}

/// Relies on `bincode2::serialize` of a pair of `u64`: under the default
/// configuration (no size limit) writing two integers into a vector cannot fail.
#[verifier::external_body]
pub(crate) fn encode_pair(p: (u64, u64)) -> (r: BincodeResult<Vec<u8>>)
    ensures
        r is Ok,
        r matches Ok(b) ==> b@ == pair_encoding(p),
{
    bincode2::serialize(&p)
}

/// Relies on `bincode2::deserialize` into a pair of `u64`: it reads back what
/// `bincode2::serialize` wrote.
#[verifier::external_body]
pub(crate) fn decode_pair(data: &[u8]) -> (r: BincodeResult<(u64, u64)>)
    ensures
        forall|p: (u64, u64)| data@ == pair_encoding(p) ==> r is Ok,
        r matches Ok(q) ==> forall|p: (u64, u64)| data@ == pair_encoding(p) ==> q == p,
{
    bincode2::deserialize(data)
}

} // verus!
