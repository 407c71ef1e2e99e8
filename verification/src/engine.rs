//! What this library believes of the storage engine and of std's UTF-8
//! validation.
//!
//! Nothing in this file is proved. Each item states, over plain values, what
//! the engine's source shows of one of its functions.
//!
//! The engine's own methods take a shared reference, and an instance can be
//! cloned and written from several places at once. The statements below on
//! what a write leaves behind hold for a holder that is alone with the
//! instance, which is why the write wrappers ask for an exclusive borrow:
//! this library never clones an instance, and the engine's file lock keeps
//! a second instance off the same store.

use vstd::prelude::*;
use vstd::string::StringSliceAdditionalSpecFns;
use vstd::utf8::valid_utf8;

verus! {

/// `sled::Db`, an open engine instance. Nothing inside it is visible here.
#[verifier::external_type_specification]
#[verifier::external_body]
pub struct ExDb(sled::Db);

/// `sled::Error`, the engine's fault report. It is carried, never inspected.
#[verifier::external_type_specification]
#[verifier::external_body]
pub struct ExError(sled::Error);

/// The key-value pairs that the default tree of an engine instance holds.
pub uninterp spec fn stored(db: sled::Db) -> Map<Seq<u8>, Seq<u8>>;

/// `std::str::from_utf8`: the bytes are handed back as text exactly when they
/// are well-formed UTF-8, and the text is made of those same bytes.
#[verifier::external_body]
pub(crate) fn text_of(bytes: &[u8]) -> (r: Option<&str>)
    ensures
        r is Some <==> valid_utf8(bytes@),
        r matches Some(s) ==> s.spec_bytes() == bytes@,
{
    match std::str::from_utf8(bytes) {
        Ok(s) => Some(s),
        Err(_) => None,
    }
}

/// `sled::open`: opens or creates the store at `path`. Whether it succeeds,
/// and what the store then holds, depends on the file system, so nothing is
/// claimed of the result.
#[verifier::external_body]
pub(crate) fn engine_open(path: &str) -> (r: Result<sled::Db, sled::Error>) {
    sled::open(path)
}

/// `sled::Tree::insert` on the default tree. When the engine answers, the key
/// is bound to the new value, every other key is untouched, and the answer is
/// the value that the key had before, if it had one. Nothing is claimed after
/// a fault. The exclusive borrow stands for the caller being the only writer
/// while the call runs.
#[verifier::external_body]
pub(crate) fn engine_insert(db: &mut sled::Db, key: &[u8], value: &[u8]) -> (r: Result<
    Option<Vec<u8>>,
    sled::Error,
>)
    ensures
        r matches Ok(prev) ==> {
            &&& stored(*final(db)) == stored(*old(db)).insert(key@, value@)
            &&& prev is Some <==> stored(*old(db)).contains_key(key@)
            &&& prev matches Some(p) ==> p@ == stored(*old(db))[key@]
        },
{
    db.insert(key, value).map(|prev| prev.map(|bytes| bytes.to_vec()))
}

/// `sled::Tree::get` on the default tree. When the engine answers, the answer
/// is the value bound to the key, or nothing when the key is unbound.
#[verifier::external_body]
pub(crate) fn engine_get(db: &sled::Db, key: &[u8]) -> (r: Result<Option<Vec<u8>>, sled::Error>)
    ensures
        r matches Ok(found) ==> {
            &&& found is Some <==> stored(*db).contains_key(key@)
            &&& found matches Some(v) ==> v@ == stored(*db)[key@]
        },
{
    db.get(key).map(|found| found.map(|bytes| bytes.to_vec()))
}

/// `sled::Tree::remove` on the default tree. When the engine answers, the key
/// is unbound, every other key is untouched, and the answer is the value that
/// the key had before, if it had one: an unbound key is no fault. Nothing is
/// claimed after a fault.
#[verifier::external_body]
pub(crate) fn engine_remove(db: &mut sled::Db, key: &[u8]) -> (r: Result<
    Option<Vec<u8>>,
    sled::Error,
>)
    ensures
        r matches Ok(prev) ==> {
            &&& stored(*final(db)) == stored(*old(db)).remove(key@)
            &&& prev is Some <==> stored(*old(db)).contains_key(key@)
            &&& prev matches Some(p) ==> p@ == stored(*old(db))[key@]
        },
{
    db.remove(key).map(|prev| prev.map(|bytes| bytes.to_vec()))
}

} // verus!
