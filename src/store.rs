//! The key-value store behind the poll: cosmwasm's in-memory storage, seen by the
//! proofs as a map from byte keys to byte values.

use vstd::prelude::*;

use cosmwasm_std::MemoryStorage;
use cosmwasm_std::ReadonlyStorage;
use cosmwasm_std::Storage;

verus! {

#[verifier::external_type_specification]
#[verifier::external_body]
pub struct ExMemoryStorage(MemoryStorage);

/// What the store holds: each key that was set, with the last value set under it.
pub uninterp spec fn store_contents(s: MemoryStorage) -> Map<Seq<u8>, Seq<u8>>;

/// Relies on `MemoryStorage::new`: a store that holds no key.
#[verifier::external_body]
pub(crate) fn new_store() -> (r: MemoryStorage)
    ensures
        store_contents(r).dom().is_empty(),
{
    MemoryStorage::new()
}

/// Relies on `ReadonlyStorage::get` of `MemoryStorage`: a copy of the value
/// stored under the key, if there is one.
#[verifier::external_body]
pub(crate) fn store_get(s: &MemoryStorage, key: &[u8]) -> (r: Option<Vec<u8>>)
    ensures
        r is Some <==> store_contents(*s).contains_key(key@),
        r matches Some(v) ==> v@ == store_contents(*s)[key@],
{
    s.get(key)
}

/// Relies on `Storage::set` of `MemoryStorage`: the key now maps to a copy of
/// the value, and every other key is untouched.
#[verifier::external_body]
pub(crate) fn store_set(s: &mut MemoryStorage, key: &[u8], value: &[u8])
    ensures
        store_contents(*final(s)) == store_contents(*old(s)).insert(key@, value@),
{
    s.set(key, value)
}

} // verus!
