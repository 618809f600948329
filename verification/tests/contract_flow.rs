use reminder_vault::contract::{
    handle, init, query, query_read, query_stats, try_generate_viewing_key, try_read, try_record,
    valid_max_size,
};
use reminder_vault::error::Error;
use reminder_vault::msg::{CallEnv, HandleAnswer, HandleMsg, InitMsg, QueryAnswer, QueryMsg};
use reminder_vault::store::KvStore;

fn env_for(sender: &[u8], time: u64) -> CallEnv {
    CallEnv { block_height: 7, block_time: time, sender: sender.to_vec() }
}

fn init_store(max_size: i32) -> KvStore {
    let mut store = KvStore::new();
    let r = init(&mut store, InitMsg { max_size, prng_seed: vec![1, 2, 3, 4] });
    assert!(r.is_ok());
    store
}

fn record(store: &mut KvStore, sender: &[u8], time: u64, content: &str) -> String {
    let r = try_record(store, &env_for(sender, time), content.to_string());
    match r.expect("record should answer") {
        HandleAnswer::Record { status } => status,
        _ => panic!("record answered with the wrong variant"),
    }
}

fn read(store: &KvStore, sender: &[u8]) -> (String, Option<String>, Option<u64>) {
    let r = try_read(store, &env_for(sender, 0));
    match r.expect("read should answer") {
        HandleAnswer::Read { status, reminder, timestamp } => (status, reminder, timestamp),
        _ => panic!("read answered with the wrong variant"),
    }
}

fn stats(store: &KvStore) -> u64 {
    match query_stats(store).expect("stats should answer") {
        QueryAnswer::Stats { reminder_count } => reminder_count,
        _ => panic!("stats answered with the wrong variant"),
    }
}

#[test]
fn valid_max_size_bounds() {
    assert_eq!(valid_max_size(1), Some(1));
    assert_eq!(valid_max_size(65535), Some(65535));
    assert_eq!(valid_max_size(100), Some(100));
    assert_eq!(valid_max_size(0), None);
    assert_eq!(valid_max_size(-5), None);
    assert_eq!(valid_max_size(65536), None);
    assert_eq!(valid_max_size(i32::MAX), None);
}

#[test]
fn init_accepts_whole_range() {
    for max_size in [1, 2, 1000, 65534, 65535] {
        let mut store = KvStore::new();
        let r = init(&mut store, InitMsg { max_size, prng_seed: vec![9] });
        assert!(r.is_ok());
        assert_eq!(stats(&store), 0);
    }
}

#[test]
fn init_rejects_out_of_range_and_creates_nothing() {
    for max_size in [0, -1, i32::MIN, 65536, i32::MAX] {
        let mut store = KvStore::new();
        let r = init(&mut store, InitMsg { max_size, prng_seed: vec![9] });
        assert_eq!(r, Err(Error::Validation));
        // no configuration was created
        assert_eq!(query_stats(&store).unwrap_err(), Error::NotFound);
    }
}

#[test]
fn record_then_read_returns_content_and_timestamp() {
    let mut store = init_store(100);
    let status = record(&mut store, b"alice-address-000000", 42, "water the plants");
    assert_eq!(status, "Reminder recorded!");
    let (status, reminder, timestamp) = read(&store, b"alice-address-000000");
    assert_eq!(status, "Reminder found.");
    assert_eq!(reminder.as_deref(), Some("water the plants"));
    assert_eq!(timestamp, Some(42));
}

#[test]
fn read_without_record_is_not_found() {
    let store = init_store(100);
    let (status, reminder, timestamp) = read(&store, b"alice-address-000000");
    assert_eq!(status, "Reminder not found.");
    assert_eq!(reminder, None);
    assert_eq!(timestamp, None);
}

#[test]
fn record_replaces_prior_record() {
    let mut store = init_store(100);
    record(&mut store, b"alice-address-000000", 1, "first");
    record(&mut store, b"alice-address-000000", 2, "second");
    let (status, reminder, timestamp) = read(&store, b"alice-address-000000");
    assert_eq!(status, "Reminder found.");
    assert_eq!(reminder.as_deref(), Some("second"));
    assert_eq!(timestamp, Some(2));
    assert_eq!(stats(&store), 2);
}

#[test]
fn too_long_record_changes_nothing() {
    let mut store = init_store(5);
    let status = record(&mut store, b"alice-address-000000", 1, "short");
    assert_eq!(status, "Reminder recorded!");
    assert_eq!(stats(&store), 1);
    let status = record(&mut store, b"alice-address-000000", 2, "much too long");
    assert_eq!(status, "Message is too long. Reminder not recorded.");
    // the prior record is untouched and the counter did not move
    let (status, reminder, timestamp) = read(&store, b"alice-address-000000");
    assert_eq!(status, "Reminder found.");
    assert_eq!(reminder.as_deref(), Some("short"));
    assert_eq!(timestamp, Some(1));
    assert_eq!(stats(&store), 1);
}

#[test]
fn multibyte_content_round_trips() {
    let mut store = init_store(100);
    let status = record(&mut store, b"alice-address-000000", 4, "café ☕ reminder");
    assert_eq!(status, "Reminder recorded!");
    let (status, reminder, timestamp) = read(&store, b"alice-address-000000");
    assert_eq!(status, "Reminder found.");
    assert_eq!(reminder.as_deref(), Some("café ☕ reminder"));
    assert_eq!(timestamp, Some(4));
}

#[test]
fn limit_counts_bytes_not_characters() {
    let mut store = init_store(5);
    // five characters but six UTF-8 bytes
    let status = record(&mut store, b"alice-address-000000", 1, "héllo");
    assert_eq!(status, "Message is too long. Reminder not recorded.");
}

#[test]
fn stats_without_init_is_not_found_error() {
    let store = KvStore::new();
    assert_eq!(query_stats(&store).unwrap_err(), Error::NotFound);
}

#[test]
fn boundary_length_is_accepted() {
    let mut store = init_store(5);
    let status = record(&mut store, b"alice-address-000000", 1, "12345");
    assert_eq!(status, "Reminder recorded!");
    let status = record(&mut store, b"alice-address-000000", 2, "123456");
    assert_eq!(status, "Message is too long. Reminder not recorded.");
}

#[test]
fn stats_counts_every_successful_record() {
    let mut store = init_store(32);
    let identities: [&[u8]; 3] = [b"alice-address-000000", b"bob-address-11111111", b"carol-address-222222"];
    let mut expected = 0u64;
    for round in 0..4u64 {
        for id in identities {
            record(&mut store, id, round, "note");
            expected += 1;
            assert_eq!(stats(&store), expected);
        }
    }
    // a failed write is not counted
    record(&mut store, identities[0], 9, &"x".repeat(33));
    assert_eq!(stats(&store), expected);
}

#[test]
fn record_without_init_is_not_found_error() {
    let mut store = KvStore::new();
    let r = try_record(&mut store, &env_for(b"alice-address-000000", 1), "hi".to_string());
    assert_eq!(r.unwrap_err(), Error::NotFound);
}

#[test]
fn generate_without_init_is_not_found_error() {
    let mut store = KvStore::new();
    let r = try_generate_viewing_key(&mut store, &env_for(b"a", 1), "entropy".to_string());
    assert_eq!(r.unwrap_err(), Error::NotFound);
}

#[test]
fn handle_dispatches_all_commands() {
    let mut store = init_store(100);
    let env = env_for(b"alice-address-000000", 5);
    match handle(&mut store, &env, HandleMsg::Record { reminder: "hello".to_string() }) {
        Ok(HandleAnswer::Record { status }) => assert_eq!(status, "Reminder recorded!"),
        other => panic!("unexpected answer: {:?}", other.is_ok()),
    }
    match handle(&mut store, &env, HandleMsg::Read {}) {
        Ok(HandleAnswer::Read { status, reminder, timestamp }) => {
            assert_eq!(status, "Reminder found.");
            assert_eq!(reminder.as_deref(), Some("hello"));
            assert_eq!(timestamp, Some(5));
        },
        other => panic!("unexpected answer: {:?}", other.is_ok()),
    }
    match handle(&mut store, &env, HandleMsg::GenerateViewingKey { entropy: "e".to_string() }) {
        Ok(HandleAnswer::GenerateViewingKey { key }) => {
            assert!(key.0.starts_with("api_key_"));
        },
        other => panic!("unexpected answer: {:?}", other.is_ok()),
    }
}

#[test]
fn query_dispatches_stats_and_read() {
    let mut store = init_store(100);
    record(&mut store, b"alice-address-000000", 3, "note");
    match query(&store, &QueryMsg::Stats {}) {
        Ok(QueryAnswer::Stats { reminder_count }) => assert_eq!(reminder_count, 1),
        other => panic!("unexpected answer: {:?}", other.is_ok()),
    }
    let key = match try_generate_viewing_key(
        &mut store,
        &env_for(b"alice-address-000000", 4),
        "entropy".to_string(),
    )
    .unwrap()
    {
        HandleAnswer::GenerateViewingKey { key } => key,
        _ => panic!("wrong variant"),
    };
    match query(
        &store,
        &QueryMsg::Read { address: b"alice-address-000000".to_vec(), key: key.0.clone() },
    ) {
        Ok(QueryAnswer::Read { status, reminder, timestamp }) => {
            assert_eq!(status, "Reminder found.");
            assert_eq!(reminder.as_deref(), Some("note"));
            assert_eq!(timestamp, Some(3));
        },
        other => panic!("unexpected answer: {:?}", other.is_ok()),
    }
}

#[test]
fn query_read_on_unknown_address_is_not_found_answer() {
    let store = init_store(100);
    match query_read(&store, b"nobody-address-00000") {
        Ok(QueryAnswer::Read { status, reminder, timestamp }) => {
            assert_eq!(status, "Reminder not found.");
            assert_eq!(reminder, None);
            assert_eq!(timestamp, None);
        },
        other => panic!("unexpected answer: {:?}", other.is_ok()),
    }
}
