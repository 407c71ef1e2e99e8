//! What holds of the operations taken together.
//!
//! The operations' contracts speak of the store as a map, of [`lookup`] in
//! it, and of [`write_status`] and [`exported`] for the engine's answers. The
//! statements here are over the same terms.

use crate::buffer::exported;
use crate::handle::lookup;
use crate::status::{write_status, SledResult};
use vstd::prelude::*;

verus! {

/// After `key` is bound to `value`, a lookup of `key` finds exactly `value`,
/// whatever the store held before. So a buffer that a lookup hands out right
/// after a successful insert is either absent, on a fault, or holds `value`.
pub proof fn insert_then_get(
    store: Map<Seq<u8>, Seq<u8>>,
    key: Seq<u8>,
    value: Seq<u8>,
    data: Option<Seq<u8>>,
)
    requires
        data is None || data == lookup(store.insert(key, value), key),
    ensures
        lookup(store.insert(key, value), key) == Some(value),
        data is None || data == Some(value),
{
}

/// The buffer exported for an answered lookup holds what the lookup found:
/// the bytes of the value for a bound key, nothing for an unbound one.
pub proof fn answered_lookup_is_exported(found: Option<Vec<u8>>)
    ensures
        found matches Some(v) ==> exported(Ok(found)) == Some(v@),
        found is None ==> exported(Ok(found)) is None,
{
}

/// After `key` is unbound, a lookup of `key` finds nothing, whether or not
/// `key` was bound before. So a buffer that a lookup hands out right after a
/// successful removal is absent.
pub proof fn remove_then_get(store: Map<Seq<u8>, Seq<u8>>, key: Seq<u8>, data: Option<Seq<u8>>)
    requires
        data is None || data == lookup(store.remove(key), key),
    ensures
        lookup(store.remove(key), key) is None,
        data is None,
{
}

/// A write to one key leaves the lookup of every other key as it was.
pub proof fn writes_keep_other_keys(
    store: Map<Seq<u8>, Seq<u8>>,
    key: Seq<u8>,
    value: Seq<u8>,
    other: Seq<u8>,
)
    requires
        other != key,
    ensures
        lookup(store.insert(key, value), other) == lookup(store, other),
        lookup(store.remove(key), other) == lookup(store, other),
{
}

/// Unbinding a key that is not bound is a success like any other answered
/// removal, and leaves the store as it was.
pub proof fn remove_of_unbound_key(store: Map<Seq<u8>, Seq<u8>>, key: Seq<u8>)
    requires
        !store.contains_key(key),
    ensures
        write_status(Ok(None)) == SledResult::Success,
        store.remove(key) == store,
{
    assert(store.remove(key) =~= store);
}

/// A key bound to the empty value is bound: its lookup finds a value of zero
/// bytes, and the buffer exported for it is present, not the absent encoding
/// that an unbound key or a fault gives.
pub proof fn empty_value_is_not_absent(
    store: Map<Seq<u8>, Seq<u8>>,
    key: Seq<u8>,
    found: Vec<u8>,
    fault: sled::Error,
)
    requires
        found@.len() == 0,
    ensures
        lookup(store.insert(key, Seq::empty()), key) == Some(Seq::<u8>::empty()),
        exported(Ok(Some(found))) is Some,
        exported(Ok(Some(found))) != exported(Ok(None)),
        exported(Ok(Some(found))) != exported(Err(fault)),
{
}

} // verus!
