use sled_bridge::{sled_close, sled_free_data, sled_get, sled_insert, sled_open, sled_remove};
use sled_bridge::{SledDb, SledResult};

fn location(name: &str) -> Vec<u8> {
    let stamp = std::time::SystemTime::now()
        .duration_since(std::time::UNIX_EPOCH)
        .map(|d| d.as_nanos())
        .unwrap_or(0);
    format!("/tmp/sled_bridge_{}_{}", name, stamp).into_bytes()
}

fn open(path: &[u8]) -> SledDb {
    match sled_open(path) {
        Some(db) => db,
        None => panic!("the store did not open"),
    }
}

#[test]
fn insert_then_get_round_trips() {
    let mut db = open(&location("round_trip"));
    let key = [0u8, 1, 2, 255];
    let value = [9u8, 0, 0, 7, 200];
    assert_eq!(sled_insert(&mut db, &key, &value), SledResult::Success);
    let data = sled_get(&db, &key);
    assert!(!data.is_null());
    assert_eq!(data.len(), 5);
    assert_eq!(data.into_bytes(), Some(vec![9, 0, 0, 7, 200]));
    sled_close(Some(db));
}

#[test]
fn insert_overwrites_an_earlier_value() {
    let mut db = open(&location("overwrite"));
    assert_eq!(sled_insert(&mut db, b"k", b"first"), SledResult::Success);
    assert_eq!(sled_insert(&mut db, b"k", b"second"), SledResult::Success);
    assert_eq!(sled_get(&db, b"k").into_bytes(), Some(b"second".to_vec()));
    sled_close(Some(db));
}

#[test]
fn get_of_unbound_key_is_absent() {
    let db = open(&location("unbound"));
    let data = sled_get(&db, b"nothing here");
    assert!(data.is_null());
    assert_eq!(data.len(), 0);
    sled_close(Some(db));
}

#[test]
fn remove_then_get_is_absent() {
    let mut db = open(&location("deletion"));
    assert_eq!(sled_insert(&mut db, b"bound", b"v"), SledResult::Success);
    assert_eq!(sled_remove(&mut db, b"bound"), SledResult::Success);
    assert!(sled_get(&db, b"bound").is_null());
    assert_eq!(sled_remove(&mut db, b"never bound"), SledResult::Success);
    assert!(sled_get(&db, b"never bound").is_null());
    sled_close(Some(db));
}

#[test]
fn remove_of_absent_key_succeeds() {
    let mut db = open(&location("idempotent"));
    assert_eq!(sled_remove(&mut db, b"k"), SledResult::Success);
    assert_eq!(sled_remove(&mut db, b"k"), SledResult::Success);
    assert_eq!(sled_insert(&mut db, b"other", b"kept"), SledResult::Success);
    assert_eq!(sled_remove(&mut db, b"k"), SledResult::Success);
    assert_eq!(sled_get(&db, b"other").into_bytes(), Some(b"kept".to_vec()));
    sled_close(Some(db));
}

#[test]
fn empty_value_is_not_absent() {
    let mut db = open(&location("empty_value"));
    assert_eq!(sled_insert(&mut db, b"k", b""), SledResult::Success);
    let data = sled_get(&db, b"k");
    assert!(!data.is_null());
    assert_eq!(data.len(), 0);
    assert_eq!(data.into_bytes(), Some(Vec::new()));
    assert!(sled_get(&db, b"unbound").is_null());
    sled_close(Some(db));
}

#[test]
fn empty_key_is_a_key() {
    let mut db = open(&location("empty_key"));
    assert!(sled_get(&db, b"").is_null());
    assert_eq!(sled_insert(&mut db, b"", b"x"), SledResult::Success);
    assert_eq!(sled_get(&db, b"").into_bytes(), Some(b"x".to_vec()));
    sled_close(Some(db));
}

#[test]
fn values_persist_across_reopen() {
    let path = location("reopen");
    let mut first = open(&path);
    assert_eq!(sled_insert(&mut first, b"k", b"kept"), SledResult::Success);
    sled_close(Some(first));
    let second = open(&path);
    assert_eq!(sled_get(&second, b"k").into_bytes(), Some(b"kept".to_vec()));
    sled_close(Some(second));
}

#[test]
fn open_fails_while_the_store_is_open() {
    let path = location("contended");
    let first = open(&path);
    assert!(sled_open(&path).is_none());
    sled_close(Some(first));
}

#[test]
fn every_buffer_is_released_once() {
    let mut db = open(&location("hygiene"));
    assert_eq!(sled_insert(&mut db, b"k", b"value"), SledResult::Success);
    let present = sled_get(&db, b"k");
    assert!(!present.is_null());
    sled_free_data(present);
    let absent = sled_get(&db, b"missing");
    assert!(absent.is_null());
    sled_free_data(absent);
    sled_close(Some(db));
}

#[test]
fn example_scenario() {
    let mut h = open(&location("store"));
    assert_eq!(sled_insert(&mut h, b"a", b"1"), SledResult::Success);
    assert_eq!(sled_insert(&mut h, b"b", b"22"), SledResult::Success);
    assert_eq!(sled_get(&h, b"a").into_bytes(), Some(b"1".to_vec()));
    assert_eq!(sled_remove(&mut h, b"a"), SledResult::Success);
    assert!(sled_get(&h, b"a").is_null());
    assert_eq!(sled_get(&h, b"b").into_bytes(), Some(b"22".to_vec()));
    sled_close(Some(h));
}
