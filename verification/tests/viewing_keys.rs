use reminder_vault::auth::{authenticated_queries, find_authorized};
use reminder_vault::contract::{init, try_generate_viewing_key, try_record};
use reminder_vault::error::Error;
use reminder_vault::msg::{CallEnv, HandleAnswer, InitMsg, QueryAnswer, QueryMsg};
use reminder_vault::state::{read_viewing_key, write_viewing_key};
use reminder_vault::store::KvStore;
use reminder_vault::viewing_key::{ct_slice_compare, ViewingKey, VIEWING_KEY_SIZE};

fn env_for(sender: &[u8], time: u64) -> CallEnv {
    CallEnv { block_height: 12, block_time: time, sender: sender.to_vec() }
}

fn init_store() -> KvStore {
    let mut store = KvStore::new();
    init(&mut store, InitMsg { max_size: 100, prng_seed: vec![5, 6, 7, 8] }).unwrap();
    store
}

fn generate(store: &mut KvStore, sender: &[u8], time: u64, entropy: &str) -> ViewingKey {
    match try_generate_viewing_key(store, &env_for(sender, time), entropy.to_string()).unwrap() {
        HandleAnswer::GenerateViewingKey { key } => key,
        _ => panic!("wrong variant"),
    }
}

fn auth_read(store: &KvStore, address: &[u8], token: &str) -> Result<QueryAnswer, Error> {
    authenticated_queries(
        store,
        &QueryMsg::Read { address: address.to_vec(), key: token.to_string() },
    )
}

#[test]
fn token_has_transportable_form() {
    let mut store = init_store();
    let key = generate(&mut store, b"alice-address-000000", 3, "entropy");
    // fixed prefix, then base64 of a 32-byte digest: 8 + 44 characters
    assert!(key.0.starts_with("api_key_"));
    assert_eq!(key.0.len(), 52);
}

#[test]
fn stored_form_is_a_hash_not_the_token() {
    let mut store = init_store();
    let key = generate(&mut store, b"alice-address-000000", 3, "entropy");
    let stored = read_viewing_key(&store, b"alice-address-000000").expect("reference stored");
    assert_eq!(stored.len(), VIEWING_KEY_SIZE);
    assert_ne!(stored.as_slice(), key.0.as_bytes());
    assert_eq!(stored, key.to_hashed());
}

#[test]
fn to_hashed_is_fixed_length() {
    // whatever the token length, the stored form is a 32-byte digest
    let short = ViewingKey("x".to_string());
    assert_eq!(short.to_hashed().len(), VIEWING_KEY_SIZE);
    let long = ViewingKey("y".repeat(100));
    assert_eq!(long.to_hashed().len(), VIEWING_KEY_SIZE);
}

#[test]
fn check_viewing_key_accepts_only_matching_hash() {
    let key = ViewingKey("api_key_sample-token".to_string());
    let hashed = key.to_hashed();
    assert!(key.check_viewing_key(&hashed));
    let other = ViewingKey("api_key_other-tokenn".to_string());
    assert!(!other.check_viewing_key(&hashed));
    // a reference of the wrong length never matches
    assert!(!key.check_viewing_key(&hashed[..16]));
}

#[test]
fn ct_slice_compare_decides_equality() {
    assert!(ct_slice_compare(&[], &[]));
    assert!(ct_slice_compare(&[1, 2, 3], &[1, 2, 3]));
    assert!(!ct_slice_compare(&[1, 2, 3], &[1, 2, 4]));
    assert!(!ct_slice_compare(&[0, 2, 3], &[1, 2, 3]));
}

#[test]
fn correct_token_authenticates_and_reads() {
    let mut store = init_store();
    let env = env_for(b"alice-address-000000", 9);
    try_record(&mut store, &env, "the secret note".to_string()).unwrap();
    let key = generate(&mut store, b"alice-address-000000", 10, "entropy");
    match auth_read(&store, b"alice-address-000000", &key.0).unwrap() {
        QueryAnswer::Read { status, reminder, timestamp } => {
            assert_eq!(status, "Reminder found.");
            assert_eq!(reminder.as_deref(), Some("the secret note"));
            assert_eq!(timestamp, Some(9));
        },
        _ => panic!("wrong variant"),
    }
}

#[test]
fn wrong_token_fails_uniformly() {
    let mut store = init_store();
    generate(&mut store, b"alice-address-000000", 10, "entropy");
    // wrong token for an identity that has a key
    let with_key = auth_read(&store, b"alice-address-000000", "api_key_wrong-token-wrong-token-wrong-token-");
    // any token for an identity that never generated one
    let without_key = auth_read(&store, b"bob-address-11111111", "api_key_wrong-token-wrong-token-wrong-token-");
    assert_eq!(with_key.unwrap_err(), Error::Unauthorized);
    assert_eq!(without_key.unwrap_err(), Error::Unauthorized);
}

#[test]
fn second_key_invalidates_first() {
    let mut store = init_store();
    let first = generate(&mut store, b"alice-address-000000", 10, "one");
    let second = generate(&mut store, b"alice-address-000000", 11, "two");
    assert_ne!(first.0, second.0);
    assert_eq!(auth_read(&store, b"alice-address-000000", &first.0).unwrap_err(), Error::Unauthorized);
    assert!(auth_read(&store, b"alice-address-000000", &second.0).is_ok());
}

#[test]
fn scan_visits_every_candidate_once() {
    let mut store = init_store();
    let key = generate(&mut store, b"bob-address-11111111", 10, "entropy");
    let candidates: Vec<Vec<u8>> = vec![
        b"alice-address-000000".to_vec(),
        b"bob-address-11111111".to_vec(),
        b"carol-address-222222".to_vec(),
    ];
    // match in the middle: the scan still visits all three
    let (found, checks) = find_authorized(&store, &candidates, &key);
    assert_eq!(found, Some(1));
    assert_eq!(checks, 3);
    // no match anywhere: same number of comparisons
    let stranger = ViewingKey("api_key_nothing-here".to_string());
    let (found, checks) = find_authorized(&store, &candidates, &stranger);
    assert_eq!(found, None);
    assert_eq!(checks, 3);
    // empty candidate list: no comparisons, no match
    let (found, checks) = find_authorized(&store, &Vec::new(), &key);
    assert_eq!(found, None);
    assert_eq!(checks, 0);
}

#[test]
fn write_viewing_key_overwrites() {
    let mut store = KvStore::new();
    let first = ViewingKey("api_key_first".to_string());
    let second = ViewingKey("api_key_second".to_string());
    write_viewing_key(&mut store, b"owner", &first);
    write_viewing_key(&mut store, b"owner", &second);
    let stored = read_viewing_key(&store, b"owner").unwrap();
    assert_eq!(stored, second.to_hashed());
    assert_ne!(stored, first.to_hashed());
    assert_eq!(read_viewing_key(&store, b"other"), None);
}
