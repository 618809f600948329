use crate::auth::{authenticated_queries, spec_authenticated_read};
use crate::crypto::{base64_encode, base64_of, bytes_to_string, sha256_of, sha_256};
use crate::error::Error;
use crate::msg::{
    CallEnv, CallEnvV, HandleAnswer, HandleAnswerV, HandleMsg, HandleMsgV, InitMsg, InitMsgV,
    QueryAnswer, QueryAnswerV, QueryMsg, QueryMsgV,
};
use crate::state::{
    config_key, load, may_load, save, spec_config_key, spec_load, spec_may_load, spec_vk_key,
    write_viewing_key, Entity, Reminder, ReminderV, State, StateV,
};
use crate::store::KvStore;
use crate::viewing_key::{key_hash, spec_token, ViewingKey};
use vstd::prelude::*;
use vstd::slice::slice_to_vec;
use vstd::utf8::{decode_utf8, encode_utf8, valid_utf8};

verus! {

/// The decoded configuration of the contract, as a typed load at the
/// configuration key.
pub open spec fn spec_config(m: Map<Seq<u8>, Seq<u8>>) -> Result<StateV, Error> {
    spec_load::<State>(m, spec_config_key())
}

/// The contract-wide secret seed: host randomness passed through base64
/// and hashed, fixed for the life of the contract.
pub open spec fn spec_seed_of(prng_seed: Seq<u8>) -> Seq<u8> {
    sha256_of(encode_utf8(base64_of(prng_seed)))
}

/// Checks that a proposed maximum record size lies in the accepted range
/// `1..=65535`, returning it narrowed to `u16` when it does.
pub fn valid_max_size(val: i32) -> (r: Option<u16>)
    ensures
        1 <= val <= 65535 ==> r == Some(val as u16),
        !(1 <= val <= 65535) ==> r is None,
{
    if val < 1 || val > 65535 {
        None
    } else {
        Some(val as u16)
    }
}

/// The backend contents after initialization: unchanged on a rejected
/// `max_size`, otherwise a fresh configuration with a zero counter.
pub open spec fn spec_init_store(m: Map<Seq<u8>, Seq<u8>>, msg: InitMsgV) -> Map<
    Seq<u8>,
    Seq<u8>,
> {
    if 1 <= msg.max_size <= 65535 {
        m.insert(
            spec_config_key(),
            State::spec_enc(
                StateV {
                    max_size: msg.max_size as u16,
                    reminder_count: 0,
                    prng_seed: spec_seed_of(msg.prng_seed),
                },
            ),
        )
    } else {
        m
    }
}

/// The outcome of initialization: success exactly on an in-range
/// `max_size`.
pub open spec fn spec_init_result(msg: InitMsgV) -> Result<(), Error> {
    if 1 <= msg.max_size <= 65535 {
        Ok(())
    } else {
        Err(Error::Validation)
    }
}

/// Validates `max_size`, derives the contract-wide seed and creates the
/// configuration. On a rejected `max_size` nothing is written.
pub fn init(store: &mut KvStore, msg: InitMsg) -> (r: Result<(), Error>)
    ensures
        final(store)@ == spec_init_store(old(store)@, msg@),
        r == spec_init_result(msg@),
        1 <= msg.max_size <= 65535 ==> spec_config(final(store)@) == Ok::<StateV, Error>(
            StateV {
                max_size: msg.max_size as u16,
                reminder_count: 0,
                prng_seed: spec_seed_of(msg.prng_seed@),
            },
        ),
{
    let max_size = match valid_max_size(msg.max_size) {
        Some(v) => v,
        None => {
            return Err(Error::Validation);
        },
    };
    let encoded = base64_encode(msg.prng_seed.as_slice());
    let seed = sha_256(encoded.as_str().as_bytes());
    let config = State { max_size, reminder_count: 0, prng_seed: seed };
    let key = config_key();
    save(store, key.as_slice(), &config);
    proof {
        State::lemma_enc_dec(config@);
    }
    Ok(())
}

/// Whether a record call can count one more successful write without the
/// counter overflowing; holds of every state the contract itself creates
/// short of `u64::MAX` successful writes.
pub open spec fn records_admissible(m: Map<Seq<u8>, Seq<u8>>) -> bool {
    spec_config(m) matches Ok(c) ==> c.reminder_count < u64::MAX
}

/// Whether a record call writes: the configuration is readable and the
/// content fits its limit.
pub open spec fn record_succeeds(m: Map<Seq<u8>, Seq<u8>>, reminder: Seq<char>) -> bool {
    spec_config(m) matches Ok(cfg) && encode_utf8(reminder).len() <= cfg.max_size
}

/// The backend contents after a record call: on success the sender's
/// reminder is replaced and the counter incremented; otherwise nothing
/// changes.
pub open spec fn spec_record_store(
    m: Map<Seq<u8>, Seq<u8>>,
    env: CallEnvV,
    reminder: Seq<char>,
) -> Map<Seq<u8>, Seq<u8>> {
    match spec_config(m) {
        Ok(cfg) => if encode_utf8(reminder).len() > cfg.max_size {
            m
        } else {
            m.insert(
                env.sender,
                Reminder::spec_enc(
                    ReminderV { content: encode_utf8(reminder), timestamp: env.block_time },
                ),
            ).insert(
                spec_config_key(),
                State::spec_enc(
                    StateV {
                        max_size: cfg.max_size,
                        reminder_count: (cfg.reminder_count + 1) as u64,
                        prng_seed: cfg.prng_seed,
                    },
                ),
            )
        },
        Err(_) => m,
    }
}

/// The answer of a record call: a missing or corrupt configuration is the
/// only error; over-long content is a successful "too long" answer.
pub open spec fn spec_record_result(
    m: Map<Seq<u8>, Seq<u8>>,
    env: CallEnvV,
    reminder: Seq<char>,
) -> Result<HandleAnswerV, Error> {
    match spec_config(m) {
        Ok(cfg) => if encode_utf8(reminder).len() > cfg.max_size {
            Ok(HandleAnswerV::Record { status: too_long_status() })
        } else {
            Ok(HandleAnswerV::Record { status: recorded_status() })
        },
        Err(e) => Err(e),
    }
}

pub open spec fn recorded_status() -> Seq<char> {
    "Reminder recorded!"@
}

pub open spec fn too_long_status() -> Seq<char> {
    "Message is too long. Reminder not recorded."@
}

pub open spec fn found_status() -> Seq<char> {
    "Reminder found."@
}

pub open spec fn not_found_status() -> Seq<char> {
    "Reminder not found."@
}

/// Saves the sender's reminder under its identity bytes and counts the
/// successful write; over-long content changes nothing.
pub fn try_record(store: &mut KvStore, env: &CallEnv, reminder: String) -> (r: Result<
    HandleAnswer,
    Error,
>)
    requires
        records_admissible(old(store)@),
    ensures
        final(store)@ == spec_record_store(old(store)@, env@, reminder@),
        r matches Ok(a) ==> Ok::<HandleAnswerV, Error>(a@) == spec_record_result(
            old(store)@,
            env@,
            reminder@,
        ),
        r matches Err(e) ==> Err::<HandleAnswerV, Error>(e) == spec_record_result(
            old(store)@,
            env@,
            reminder@,
        ),
        record_succeeds(old(store)@, reminder@) ==> (spec_config(final(store)@) matches Ok(c)
            && c.reminder_count == spec_config(old(store)@)->Ok_0.reminder_count + 1
            && c.max_size == spec_config(old(store)@)->Ok_0.max_size
            && c.prng_seed == spec_config(old(store)@)->Ok_0.prng_seed),
{
    let ckey = config_key();
    let mut config: State = match load::<State>(store, ckey.as_slice()) {
        Ok(c) => c,
        Err(e) => {
            return Err(e);
        },
    };
    let content = reminder.as_str().as_bytes();
    let status: String;
    if content.len() > config.max_size as usize {
        status = "Message is too long. Reminder not recorded.".to_owned();
    } else {
        let stored = Reminder { content: slice_to_vec(content), timestamp: env.block_time };
        save(store, env.sender.as_slice(), &stored);
        config.reminder_count = config.reminder_count + 1;
        save(store, ckey.as_slice(), &config);
        proof {
            State::lemma_enc_dec(config@);
        }
        status = "Reminder recorded!".to_owned();
    }
    Ok(HandleAnswer::Record { status })
}

/// The pieces of a read answer: a status, and the reminder text and
/// timestamp when a record exists. Content that does not decode as UTF-8
/// yields no text, as with the original write path it cannot arise.
pub open spec fn spec_read_parts(m: Map<Seq<u8>, Seq<u8>>, owner: Seq<u8>) -> Result<
    (Seq<char>, Option<Seq<char>>, Option<u64>),
    Error,
> {
    match spec_may_load::<Reminder>(m, owner) {
        Ok(Some(rem)) => Ok(
            (
                found_status(),
                if valid_utf8(rem.content) {
                    Some(decode_utf8(rem.content))
                } else {
                    None
                },
                Some(rem.timestamp),
            ),
        ),
        Ok(None) => Ok((not_found_status(), None, None)),
        Err(e) => Err(e),
    }
}

/// Returns the sender's current reminder; a missing record is a
/// successful "not found" answer.
pub fn try_read(store: &KvStore, env: &CallEnv) -> (r: Result<HandleAnswer, Error>)
    ensures
        r matches Ok(a) ==> spec_read_parts(store@, env.sender@) matches Ok(p) && a@
            == (HandleAnswerV::Read { status: p.0, reminder: p.1, timestamp: p.2 }),
        r matches Err(e) ==> spec_read_parts(store@, env.sender@) == Err::<
            (Seq<char>, Option<Seq<char>>, Option<u64>),
            Error,
        >(e),
{
    let result: Option<Reminder> = match may_load::<Reminder>(store, env.sender.as_slice()) {
        Ok(o) => o,
        Err(e) => {
            return Err(e);
        },
    };
    match result {
        Some(stored) => {
            let timestamp = stored.timestamp;
            let reminder = bytes_to_string(stored.content);
            Ok(
                HandleAnswer::Read {
                    status: "Reminder found.".to_owned(),
                    reminder,
                    timestamp: Some(timestamp),
                },
            )
        },
        None => Ok(
            HandleAnswer::Read {
                status: "Reminder not found.".to_owned(),
                reminder: None,
                timestamp: None,
            },
        ),
    }
}

/// The backend contents after a key generation: the sender's key
/// reference is replaced by the hash of the fresh token.
pub open spec fn spec_generate_store(
    m: Map<Seq<u8>, Seq<u8>>,
    env: CallEnvV,
    entropy: Seq<char>,
) -> Map<Seq<u8>, Seq<u8>> {
    match spec_config(m) {
        Ok(cfg) => m.insert(
            spec_vk_key(env.sender),
            key_hash(
                spec_token(
                    cfg.prng_seed,
                    env.block_height,
                    env.block_time,
                    env.sender,
                    encode_utf8(entropy),
                ),
            ),
        ),
        Err(_) => m,
    }
}

/// The answer of a key generation: the fresh token itself.
pub open spec fn spec_generate_result(
    m: Map<Seq<u8>, Seq<u8>>,
    env: CallEnvV,
    entropy: Seq<char>,
) -> Result<HandleAnswerV, Error> {
    match spec_config(m) {
        Ok(cfg) => Ok(
            HandleAnswerV::GenerateViewingKey {
                key: spec_token(
                    cfg.prng_seed,
                    env.block_height,
                    env.block_time,
                    env.sender,
                    encode_utf8(entropy),
                ),
            },
        ),
        Err(e) => Err(e),
    }
}

/// Derives a fresh viewing key for the sender, stores its one-way hash —
/// unconditionally overwriting any earlier one — and hands the token back.
pub fn try_generate_viewing_key(store: &mut KvStore, env: &CallEnv, entropy: String) -> (r: Result<
    HandleAnswer,
    Error,
>)
    ensures
        final(store)@ == spec_generate_store(old(store)@, env@, entropy@),
        r matches Ok(a) ==> Ok::<HandleAnswerV, Error>(a@) == spec_generate_result(
            old(store)@,
            env@,
            entropy@,
        ),
        r matches Err(e) ==> Err::<HandleAnswerV, Error>(e) == spec_generate_result(
            old(store)@,
            env@,
            entropy@,
        ),
{
    let ckey = config_key();
    let config: State = match load::<State>(store, ckey.as_slice()) {
        Ok(c) => c,
        Err(e) => {
            return Err(e);
        },
    };
    let key = ViewingKey::new(
        config.prng_seed.as_slice(),
        env.block_height,
        env.block_time,
        env.sender.as_slice(),
        entropy.as_str().as_bytes(),
    );
    write_viewing_key(store, env.sender.as_slice(), &key);
    Ok(HandleAnswer::GenerateViewingKey { key })
}

/// The backend contents after any state-changing command.
pub open spec fn spec_handle_store(
    m: Map<Seq<u8>, Seq<u8>>,
    env: CallEnvV,
    msg: HandleMsgV,
) -> Map<Seq<u8>, Seq<u8>> {
    match msg {
        HandleMsgV::Record { reminder } => spec_record_store(m, env, reminder),
        HandleMsgV::Read {} => m,
        HandleMsgV::GenerateViewingKey { entropy } => spec_generate_store(m, env, entropy),
    }
}

/// The answer of any state-changing command.
pub open spec fn spec_handle_result(
    m: Map<Seq<u8>, Seq<u8>>,
    env: CallEnvV,
    msg: HandleMsgV,
) -> Result<HandleAnswerV, Error> {
    match msg {
        HandleMsgV::Record { reminder } => spec_record_result(m, env, reminder),
        HandleMsgV::Read {} => match spec_read_parts(m, env.sender) {
            Ok(p) => Ok(HandleAnswerV::Read { status: p.0, reminder: p.1, timestamp: p.2 }),
            Err(e) => Err(e),
        },
        HandleMsgV::GenerateViewingKey { entropy } => spec_generate_result(m, env, entropy),
    }
}

/// What a command needs of the incoming state (the record counter must
/// have room to count one more write).
pub open spec fn handle_admissible(m: Map<Seq<u8>, Seq<u8>>, msg: HandleMsgV) -> bool {
    msg is Record ==> records_admissible(m)
}

/// Dispatches a state-changing command.
pub fn handle(store: &mut KvStore, env: &CallEnv, msg: HandleMsg) -> (r: Result<
    HandleAnswer,
    Error,
>)
    requires
        handle_admissible(old(store)@, msg@),
    ensures
        final(store)@ == spec_handle_store(old(store)@, env@, msg@),
        r matches Ok(a) ==> Ok::<HandleAnswerV, Error>(a@) == spec_handle_result(
            old(store)@,
            env@,
            msg@,
        ),
        r matches Err(e) ==> Err::<HandleAnswerV, Error>(e) == spec_handle_result(
            old(store)@,
            env@,
            msg@,
        ),
{
    match msg {
        HandleMsg::Record { reminder } => try_record(store, env, reminder),
        HandleMsg::Read {} => try_read(store, env),
        HandleMsg::GenerateViewingKey { entropy } => try_generate_viewing_key(store, env, entropy),
    }
}

/// The statistics answer: the stored count of successful writes.
pub open spec fn spec_stats(m: Map<Seq<u8>, Seq<u8>>) -> Result<QueryAnswerV, Error> {
    match spec_config(m) {
        Ok(c) => Ok(QueryAnswerV::Stats { reminder_count: c.reminder_count }),
        Err(e) => Err(e),
    }
}

/// Reports how many record writes have succeeded since initialization.
pub fn query_stats(store: &KvStore) -> (r: Result<QueryAnswer, Error>)
    ensures
        r matches Ok(a) ==> Ok::<QueryAnswerV, Error>(a@) == spec_stats(store@),
        r matches Err(e) ==> Err::<QueryAnswerV, Error>(e) == spec_stats(store@),
{
    let ckey = config_key();
    let config: State = match load::<State>(store, ckey.as_slice()) {
        Ok(c) => c,
        Err(e) => {
            return Err(e);
        },
    };
    Ok(QueryAnswer::Stats { reminder_count: config.reminder_count })
}

/// The answer of a read on behalf of an authenticated owner.
pub open spec fn spec_query_read(m: Map<Seq<u8>, Seq<u8>>, owner: Seq<u8>) -> Result<
    QueryAnswerV,
    Error,
> {
    match spec_read_parts(m, owner) {
        Ok(p) => Ok(QueryAnswerV::Read { status: p.0, reminder: p.1, timestamp: p.2 }),
        Err(e) => Err(e),
    }
}

/// Reads `address`'s reminder for the authenticated read path.
pub fn query_read(store: &KvStore, address: &[u8]) -> (r: Result<QueryAnswer, Error>)
    ensures
        r matches Ok(a) ==> Ok::<QueryAnswerV, Error>(a@) == spec_query_read(store@, address@),
        r matches Err(e) ==> Err::<QueryAnswerV, Error>(e) == spec_query_read(store@, address@),
{
    let result: Option<Reminder> = match may_load::<Reminder>(store, address) {
        Ok(o) => o,
        Err(e) => {
            return Err(e);
        },
    };
    match result {
        Some(stored) => {
            let timestamp = stored.timestamp;
            let reminder = bytes_to_string(stored.content);
            Ok(
                QueryAnswer::Read {
                    status: "Reminder found.".to_owned(),
                    reminder,
                    timestamp: Some(timestamp),
                },
            )
        },
        None => Ok(
            QueryAnswer::Read {
                status: "Reminder not found.".to_owned(),
                reminder: None,
                timestamp: None,
            },
        ),
    }
}

/// The answer of any query.
pub open spec fn spec_query(m: Map<Seq<u8>, Seq<u8>>, msg: QueryMsgV) -> Result<
    QueryAnswerV,
    Error,
> {
    match msg {
        QueryMsgV::Stats {} => spec_stats(m),
        QueryMsgV::Read { address, key } => spec_authenticated_read(m, seq![address], key),
    }
}

/// Dispatches a query: statistics are public, everything else goes
/// through the authenticated path.
pub fn query(store: &KvStore, msg: &QueryMsg) -> (r: Result<QueryAnswer, Error>)
    ensures
        r matches Ok(a) ==> Ok::<QueryAnswerV, Error>(a@) == spec_query(store@, msg@),
        r matches Err(e) ==> Err::<QueryAnswerV, Error>(e) == spec_query(store@, msg@),
{
    match msg {
        QueryMsg::Stats {} => query_stats(store),
        _ => authenticated_queries(store, msg),
    }
}

} // verus!
