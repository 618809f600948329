use reminder_vault::error::Error;
use reminder_vault::namespace::namespace_key;
use reminder_vault::state::{config_key, load, may_load, save, Entity, Reminder, State};
use reminder_vault::store::{bytes_eq, KvStore};

#[test]
fn state_round_trips() {
    let mut store = KvStore::new();
    let value = State { max_size: 1000, reminder_count: 77, prng_seed: vec![1, 2, 3, 4, 5] };
    save(&mut store, b"some-key", &value);
    let loaded: State = load(&store, b"some-key").unwrap();
    assert_eq!(loaded, value);
    let maybe: Option<State> = may_load(&store, b"some-key").unwrap();
    assert_eq!(maybe, Some(value));
}

#[test]
fn reminder_round_trips() {
    let mut store = KvStore::new();
    let value = Reminder { content: b"call the doctor".to_vec(), timestamp: 123456789 };
    save(&mut store, b"owner", &value);
    let loaded: Reminder = load(&store, b"owner").unwrap();
    assert_eq!(loaded, value);
}

#[test]
fn empty_payloads_round_trip() {
    let mut store = KvStore::new();
    let state = State { max_size: 1, reminder_count: 0, prng_seed: Vec::new() };
    save(&mut store, b"s", &state);
    assert_eq!(load::<State>(&store, b"s").unwrap(), state);
    let reminder = Reminder { content: Vec::new(), timestamp: 0 };
    save(&mut store, b"r", &reminder);
    assert_eq!(load::<Reminder>(&store, b"r").unwrap(), reminder);
}

#[test]
fn never_written_key_is_absent_not_error() {
    let store = KvStore::new();
    let maybe: Option<Reminder> = may_load(&store, b"nothing-here").unwrap();
    assert_eq!(maybe, None);
    assert_eq!(load::<Reminder>(&store, b"nothing-here").unwrap_err(), Error::NotFound);
}

#[test]
fn malformed_bytes_are_a_decode_error() {
    let mut store = KvStore::new();
    store.set(b"bad", vec![1, 2, 3]);
    assert_eq!(load::<State>(&store, b"bad").unwrap_err(), Error::Decode);
    assert_eq!(may_load::<State>(&store, b"bad").unwrap_err(), Error::Decode);
    // an inconsistent length marker is also malformed
    let mut encoded = State { max_size: 2, reminder_count: 3, prng_seed: vec![9, 9] }.encode();
    encoded.push(0);
    store.set(b"bad2", encoded);
    assert_eq!(load::<State>(&store, b"bad2").unwrap_err(), Error::Decode);
}

#[test]
fn save_overwrites_completely() {
    let mut store = KvStore::new();
    save(&mut store, b"k", &Reminder { content: b"old".to_vec(), timestamp: 1 });
    save(&mut store, b"k", &Reminder { content: b"new".to_vec(), timestamp: 2 });
    let loaded: Reminder = load(&store, b"k").unwrap();
    assert_eq!(loaded, Reminder { content: b"new".to_vec(), timestamp: 2 });
}

#[test]
fn kv_store_get_set() {
    let mut store = KvStore::new();
    assert!(store.get(b"a").is_none());
    store.set(b"a", vec![1]);
    store.set(b"b", vec![2]);
    store.set(b"a", vec![3]);
    assert_eq!(store.get(b"a"), Some(&vec![3]));
    assert_eq!(store.get(b"b"), Some(&vec![2]));
    assert!(store.get(b"c").is_none());
}

#[test]
fn bytes_eq_compares_contents() {
    assert!(bytes_eq(b"", b""));
    assert!(bytes_eq(b"abc", b"abc"));
    assert!(!bytes_eq(b"abc", b"abd"));
    assert!(!bytes_eq(b"abc", b"ab"));
}

#[test]
fn namespace_key_layout_is_length_prefixed() {
    // two-byte big-endian length of the domain, domain, discriminator
    assert_eq!(namespace_key(b"ab", b"c"), vec![0, 2, b'a', b'b', b'c']);
    assert_eq!(namespace_key(b"", b"xy"), vec![0, 0, b'x', b'y']);
    assert_eq!(config_key(), b"config".to_vec());
}

#[test]
fn namespace_keys_do_not_collide() {
    // the length marker keeps (domain, discriminator) pairs apart even
    // when their concatenations agree
    let k1 = namespace_key(b"ab", b"c");
    let k2 = namespace_key(b"a", b"bc");
    assert_ne!(k1, k2);
    assert_ne!(namespace_key(b"viewingkey", b"alice"), namespace_key(b"viewingkey", b"alicf"));
    // none of them can shadow the bare configuration key
    assert_ne!(namespace_key(b"viewingkey", b"config"), config_key());
}
