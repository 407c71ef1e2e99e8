//! The engine handle and the operations on it.

use crate::buffer::SledData;
use crate::engine::{engine_get, engine_insert, engine_open, engine_remove, stored, text_of};
use crate::status::SledResult;
use vstd::prelude::*;
use vstd::utf8::valid_utf8;

verus! {

/// An open engine instance. It is made by a successful [`sled_open`] and
/// consumed by [`sled_close`]; its view is the map from keys to values that
/// the store holds.
pub struct SledDb(sled::Db);

impl View for SledDb {
    type V = Map<Seq<u8>, Seq<u8>>;

    closed spec fn view(&self) -> Map<Seq<u8>, Seq<u8>> {
        stored(self.0)
    }
}

/// The value bound to `key` in `store`, if there is one.
pub open spec fn lookup(store: Map<Seq<u8>, Seq<u8>>, key: Seq<u8>) -> Option<Seq<u8>> {
    if store.contains_key(key) {
        Some(store[key])
    } else {
        None
    }
}

impl SledDb {
    /// Wraps the engine's answer to an open: a handle for an instance, and
    /// no handle for a fault. The handle takes the instance over: the caller
    /// keeps no clone of it.
    pub fn of_open(outcome: Result<sled::Db, sled::Error>) -> (r: Option<SledDb>)
        ensures
            r is Some <==> outcome is Ok,
            r matches Some(h) ==> outcome matches Ok(db) && h@ == stored(db),
    {
        match outcome {
            Ok(db) => Some(SledDb(db)),
            Err(_) => None,
        }
    }
}

/// Opens the store at the location that `path` spells. There is no handle
/// when `path` is not well-formed UTF-8; otherwise the engine decides.
pub fn sled_open(path: &[u8]) -> (r: Option<SledDb>)
    ensures
        !valid_utf8(path@) ==> r is None,
{
    match text_of(path) {
        Some(text) => SledDb::of_open(engine_open(text)),
        None => None,
    }
}

/// Closes a handle: the engine instance shuts down as it is dropped. No
/// handle is a no-op. The handle is consumed, so it cannot be used or closed
/// again.
pub fn sled_close(db: Option<SledDb>) {
    match db {
        Some(handle) => {
            let SledDb(_engine) = handle;
        },
        None => {},
    }
}

/// Binds `key` to `value`, replacing any earlier value. On `Success` the
/// store is the old one with that binding, so a lookup of `key` now finds
/// `value`; on `Error` nothing is known of it.
pub fn sled_insert(db: &mut SledDb, key: &[u8], value: &[u8]) -> (r: SledResult)
    ensures
        r == SledResult::Success ==> final(db)@ == old(db)@.insert(key@, value@),
        r == SledResult::Success ==> lookup(final(db)@, key@) == Some(value@),
{
    let outcome = engine_insert(&mut db.0, key, value);
    SledResult::of_write(&outcome)
}

/// Looks `key` up. A present buffer holds exactly the value bound to `key`;
/// the buffer is absent when `key` is unbound, and also when the engine
/// faults.
pub fn sled_get(db: &SledDb, key: &[u8]) -> (data: SledData)
    ensures
        data@ is None || data@ == lookup(db@, key@),
{
    let outcome = engine_get(&db.0, key);
    SledData::of_lookup(outcome)
}

/// Unbinds `key`. On `Success` the store is the old one without `key`,
/// whether or not `key` was bound, so a lookup of `key` now finds nothing; on
/// `Error` nothing is known of it.
pub fn sled_remove(db: &mut SledDb, key: &[u8]) -> (r: SledResult)
    ensures
        r == SledResult::Success ==> final(db)@ == old(db)@.remove(key@),
        r == SledResult::Success ==> lookup(final(db)@, key@) is None,
{
    let outcome = engine_remove(&mut db.0, key);
    SledResult::of_write(&outcome)
}

} // verus!
