use crate::auth::{
    authorizes, lemma_first_authorized_none, lemma_first_authorized_some, spec_authenticated_read,
};
use crate::contract::{
    found_status, record_succeeds, records_admissible, spec_config, spec_generate_store,
    spec_init_store, spec_query_read, spec_read_parts, spec_record_result, spec_record_store,
    spec_stats, too_long_status,
};
use crate::error::Error;
use crate::msg::{CallEnvV, HandleAnswerV, InitMsgV, QueryAnswerV};
use crate::state::{
    spec_config_key, spec_load, spec_may_load, spec_vk_key, Entity, Reminder, ReminderV, State,
    StateV,
};
use crate::viewing_key::{key_hash, spec_token};
use vstd::prelude::*;
use vstd::utf8::{encode_utf8, encode_utf8_decode_utf8, encode_utf8_valid_utf8};

verus! {

/// Saving a value then loading at the same key yields the saved value,
/// whatever else the backend holds; the absent-returning lookup agrees.
pub proof fn lemma_save_then_load<T: Entity>(m: Map<Seq<u8>, Seq<u8>>, key: Seq<u8>, v: T::V)
    requires
        T::wf(v),
    ensures
        spec_load::<T>(m.insert(key, T::spec_enc(v)), key) == Ok::<T::V, Error>(v),
        spec_may_load::<T>(m.insert(key, T::spec_enc(v)), key) == Ok::<Option<T::V>, Error>(
            Some(v),
        ),
{
    T::lemma_enc_dec(v);
}

/// A key never written reads back as an explicit absent value, never as
/// an error.
pub proof fn lemma_never_written_reads_absent<T: Entity>(m: Map<Seq<u8>, Seq<u8>>, key: Seq<u8>)
    requires
        !m.contains_key(key),
    ensures
        spec_may_load::<T>(m, key) == Ok::<Option<T::V>, Error>(None),
{
}

/// Recording content that fits, then reading by the same identity,
/// returns the "found" status, the original content and the write-time
/// timestamp. (An identity equal to the configuration key itself is the
/// one discriminator the flat backend cannot serve and is excluded.)
pub proof fn lemma_record_then_read(m: Map<Seq<u8>, Seq<u8>>, env: CallEnvV, reminder: Seq<char>)
    requires
        record_succeeds(m, reminder),
        env.sender != spec_config_key(),
    ensures
        spec_read_parts(spec_record_store(m, env, reminder), env.sender) == Ok::<
            (Seq<char>, Option<Seq<char>>, Option<u64>),
            Error,
        >((found_status(), Some(reminder), Some(env.block_time))),
{
    broadcast use encode_utf8_valid_utf8, encode_utf8_decode_utf8;

    let rv = ReminderV { content: encode_utf8(reminder), timestamp: env.block_time };
    Reminder::lemma_enc_dec(rv);
    let m2 = spec_record_store(m, env, reminder);
    assert(m2.contains_key(env.sender) && m2[env.sender] == Reminder::spec_enc(rv));
}

/// Content longer than the configured limit changes nothing: every prior
/// record stays, the counter stays, and the answer is the "too long"
/// status.
pub proof fn lemma_too_long_changes_nothing(
    m: Map<Seq<u8>, Seq<u8>>,
    env: CallEnvV,
    reminder: Seq<char>,
)
    requires
        spec_config(m) is Ok,
        encode_utf8(reminder).len() > spec_config(m)->Ok_0.max_size,
    ensures
        spec_record_store(m, env, reminder) == m,
        spec_record_result(m, env, reminder) == Ok::<HandleAnswerV, Error>(
            HandleAnswerV::Record { status: too_long_status() },
        ),
        spec_stats(spec_record_store(m, env, reminder)) == spec_stats(m),
{
}

/// One record call: the caller's identity and block data, and the content.
pub ghost struct RecordCall {
    pub env: CallEnvV,
    pub reminder: Seq<char>,
}

/// The backend contents after a sequence of record calls.
pub open spec fn apply_records(m: Map<Seq<u8>, Seq<u8>>, calls: Seq<RecordCall>) -> Map<
    Seq<u8>,
    Seq<u8>,
>
    decreases calls.len(),
{
    if calls.len() == 0 {
        m
    } else {
        spec_record_store(
            apply_records(m, calls.drop_last()),
            calls.last().env,
            calls.last().reminder,
        )
    }
}

/// How many of the calls succeed, each judged against the state its call
/// actually sees.
pub open spec fn count_successes(m: Map<Seq<u8>, Seq<u8>>, calls: Seq<RecordCall>) -> nat
    decreases calls.len(),
{
    if calls.len() == 0 {
        0
    } else {
        count_successes(m, calls.drop_last()) + (if record_succeeds(
            apply_records(m, calls.drop_last()),
            calls.last().reminder,
        ) {
            1nat
        } else {
            0nat
        })
    }
}

/// No sequence of calls succeeds more often than it is long.
pub proof fn lemma_count_successes_bounded(m: Map<Seq<u8>, Seq<u8>>, calls: Seq<RecordCall>)
    ensures
        count_successes(m, calls) <= calls.len(),
    decreases calls.len(),
{
    if calls.len() > 0 {
        lemma_count_successes_bounded(m, calls.drop_last());
    }
}

/// A byte string that decodes as a configuration always has a seed that
/// fits the encoding's length marker.
proof fn lemma_decoded_state_wf(b: Seq<u8>)
    ensures
        State::spec_dec(b) matches Some(v) ==> State::wf(v),
{
}

/// After exactly N successful record calls since a readable
/// configuration — any mix of identities, including repeats — the
/// statistics report the initial counter plus N, and the limit and seed
/// are untouched.
pub proof fn lemma_stats_counts_successes(m: Map<Seq<u8>, Seq<u8>>, calls: Seq<RecordCall>)
    requires
        spec_config(m) is Ok,
        spec_config(m)->Ok_0.reminder_count + calls.len() <= u64::MAX,
        forall|k: int| 0 <= k < calls.len() ==> #[trigger] calls[k].env.sender
            != spec_config_key(),
    ensures
        spec_config(apply_records(m, calls)) is Ok,
        spec_config(apply_records(m, calls))->Ok_0.reminder_count == spec_config(
            m,
        )->Ok_0.reminder_count + count_successes(m, calls),
        spec_config(apply_records(m, calls))->Ok_0.max_size == spec_config(m)->Ok_0.max_size,
        spec_config(apply_records(m, calls))->Ok_0.prng_seed == spec_config(m)->Ok_0.prng_seed,
        spec_stats(apply_records(m, calls)) == Ok::<QueryAnswerV, Error>(
            QueryAnswerV::Stats {
                reminder_count: spec_config(apply_records(m, calls))->Ok_0.reminder_count,
            },
        ),
    decreases calls.len(),
{
    lemma_decoded_state_wf(m[spec_config_key()]);
    if calls.len() > 0 {
        let prefix = calls.drop_last();
        assert forall|k: int| 0 <= k < prefix.len() implies #[trigger] prefix[k].env.sender
            != spec_config_key() by {
            assert(prefix[k] == calls[k]);
        }
        lemma_stats_counts_successes(m, prefix);
        lemma_count_successes_bounded(m, prefix);
        let m1 = apply_records(m, prefix);
        let call = calls.last();
        if record_succeeds(m1, call.reminder) {
            let cfg1 = spec_config(m1)->Ok_0;
            let newv = StateV {
                max_size: cfg1.max_size,
                reminder_count: (cfg1.reminder_count + 1) as u64,
                prng_seed: cfg1.prng_seed,
            };
            State::lemma_enc_dec(newv);
            let m2 = apply_records(m, calls);
            assert(m2.contains_key(spec_config_key()) && m2[spec_config_key()]
                == State::spec_enc(newv));
        }
    }
}

/// A freshly initialized configuration carries a zero counter whenever it
/// decodes at all, so a record call is always admissible right after a
/// successful initialization.
pub proof fn lemma_init_admissible(m: Map<Seq<u8>, Seq<u8>>, msg: InitMsgV)
    requires
        1 <= msg.max_size <= 65535,
    ensures
        records_admissible(spec_init_store(m, msg)),
        spec_config(spec_init_store(m, msg)) matches Ok(c) ==> c.reminder_count == 0,
{
    vstd::bytes::lemma_auto_spec_u16_to_from_le_bytes();
    vstd::bytes::lemma_auto_spec_u64_to_from_le_bytes();
    let m2 = spec_init_store(m, msg);
    let b = m2[spec_config_key()];
    if State::spec_dec(b) is Some {
        assert(b.subrange(2, 10) =~= vstd::bytes::spec_u64_to_le_bytes(0u64));
    }
}

/// The viewing-key reference lives in its own namespace: it can never
/// collide with the configuration entry.
pub proof fn lemma_vk_key_not_config(owner: Seq<u8>)
    ensures
        spec_vk_key(owner) != spec_config_key(),
{
    assert(spec_vk_key(owner).len() == 12 + owner.len());
    assert(spec_config_key().len() == 6);
}

/// Generating a key twice for the same identity leaves only the second
/// token's hash stored: a presented token then authenticates exactly
/// when its hash equals the second token's hash, so the first token no
/// longer authenticates unless its hash collides with the second's.
pub proof fn lemma_second_key_wins(
    m: Map<Seq<u8>, Seq<u8>>,
    env1: CallEnvV,
    env2: CallEnvV,
    e1: Seq<char>,
    e2: Seq<char>,
    t: Seq<char>,
)
    requires
        env1.sender == env2.sender,
        spec_config(m) is Ok,
    ensures
        ({
            let cfg = spec_config(m)->Ok_0;
            let m2 = spec_generate_store(spec_generate_store(m, env1, e1), env2, e2);
            let token2 = spec_token(
                cfg.prng_seed,
                env2.block_height,
                env2.block_time,
                env2.sender,
                encode_utf8(e2),
            );
            authorizes(m2, env1.sender, t) <==> key_hash(t) == key_hash(token2)
        }),
{
    lemma_vk_key_not_config(env1.sender);
}

/// A key reference can never shadow its own owner's record: the
/// namespaced key is strictly longer than the bare identity.
pub proof fn lemma_vk_key_not_owner(owner: Seq<u8>)
    ensures
        spec_vk_key(owner) != owner,
{
    assert(spec_vk_key(owner).len() == 12 + owner.len());
}

/// End to end: record content that fits, then generate a viewing key for
/// the same identity, and the authenticated read presenting that token
/// returns exactly the recorded content and its write-time timestamp.
pub proof fn lemma_record_generate_then_authenticated_read(
    m: Map<Seq<u8>, Seq<u8>>,
    env_r: CallEnvV,
    reminder: Seq<char>,
    env_g: CallEnvV,
    entropy: Seq<char>,
)
    requires
        record_succeeds(m, reminder),
        env_r.sender != spec_config_key(),
        env_g.sender == env_r.sender,
    ensures
        ({
            let m1 = spec_record_store(m, env_r, reminder);
            let m2 = spec_generate_store(m1, env_g, entropy);
            let cfg1 = spec_config(m1)->Ok_0;
            let token = spec_token(
                cfg1.prng_seed,
                env_g.block_height,
                env_g.block_time,
                env_g.sender,
                encode_utf8(entropy),
            );
            spec_authenticated_read(m2, seq![env_r.sender], token) == Ok::<QueryAnswerV, Error>(
                QueryAnswerV::Read {
                    status: found_status(),
                    reminder: Some(reminder),
                    timestamp: Some(env_r.block_time),
                },
            )
        }),
{
    broadcast use encode_utf8_valid_utf8, encode_utf8_decode_utf8;

    let sender = env_r.sender;
    let m1 = spec_record_store(m, env_r, reminder);
    lemma_record_then_read(m, env_r, reminder);
    // the record leaves a readable configuration behind, so the
    // generation derives a token and stores its hash
    let cfg = spec_config(m)->Ok_0;
    lemma_decoded_state_wf(m[spec_config_key()]);
    let newv = StateV {
        max_size: cfg.max_size,
        reminder_count: (cfg.reminder_count + 1) as u64,
        prng_seed: cfg.prng_seed,
    };
    State::lemma_enc_dec(newv);
    assert(spec_config(m1) == Ok::<StateV, Error>(newv));
    let m2 = spec_generate_store(m1, env_g, entropy);
    let token = spec_token(
        newv.prng_seed,
        env_g.block_height,
        env_g.block_time,
        env_g.sender,
        encode_utf8(entropy),
    );
    // the stored reference is the fresh token's hash, so it authorizes
    lemma_vk_key_not_config(sender);
    lemma_vk_key_not_owner(sender);
    assert(authorizes(m2, sender, token));
    lemma_correct_token_reads(m2, sender, token);
    // the reference write touched neither the record nor anything the
    // read looks at
    let rv = ReminderV { content: encode_utf8(reminder), timestamp: env_r.block_time };
    Reminder::lemma_enc_dec(rv);
    assert(m2.contains_key(sender) && m2[sender] == Reminder::spec_enc(rv));
}

/// A correct current token authenticates, and the answer is exactly the
/// owner's stored record.
pub proof fn lemma_correct_token_reads(m: Map<Seq<u8>, Seq<u8>>, owner: Seq<u8>, t: Seq<char>)
    requires
        authorizes(m, owner, t),
    ensures
        spec_authenticated_read(m, seq![owner], t) == spec_query_read(m, owner),
{
    lemma_first_authorized_some(m, seq![owner], t, 0);
}

/// A token that does not match rejects with one uniform error, whether
/// or not the owner ever generated a key and whatever is stored.
pub proof fn lemma_wrong_token_rejects_uniformly(
    m: Map<Seq<u8>, Seq<u8>>,
    owner: Seq<u8>,
    t: Seq<char>,
)
    requires
        !authorizes(m, owner, t),
    ensures
        spec_authenticated_read(m, seq![owner], t) == Err::<QueryAnswerV, Error>(
            Error::Unauthorized,
        ),
{
    assert forall|j: int| 0 <= j < seq![owner].len() implies !authorizes(
        m,
        seq![owner][j],
        t,
    ) by {
        assert(seq![owner][j] == owner);
    }
    lemma_first_authorized_none(m, seq![owner], t);
}

} // verus!
