use crate::error::Error;
use crate::namespace::{namespace_key, ns_key};
use crate::store::KvStore;
use crate::viewing_key::{key_hash, ViewingKey};
use vstd::bytes::{
    lemma_auto_spec_u16_to_from_le_bytes, lemma_auto_spec_u64_to_from_le_bytes,
    spec_u16_from_le_bytes, spec_u16_to_le_bytes, spec_u64_from_le_bytes, spec_u64_to_le_bytes,
    u16_from_le_bytes, u16_to_le_bytes, u64_from_le_bytes, u64_to_le_bytes,
};
use vstd::prelude::*;
use vstd::slice::{slice_subrange, slice_to_vec};

verus! {

/// The backend key under which the configuration lives ("config" in ASCII).
pub open spec fn spec_config_key() -> Seq<u8> {
    seq![99u8, 111u8, 110u8, 102u8, 105u8, 103u8]
}

/// Builds the configuration key.
pub fn config_key() -> (r: Vec<u8>)
    ensures
        r@ == spec_config_key(),
{
    let mut v: Vec<u8> = Vec::new();
    v.push(99);
    v.push(111);
    v.push(110);
    v.push(102);
    v.push(105);
    v.push(103);
    proof {
        assert(v@ =~= spec_config_key());
    }
    v
}

/// The domain tag isolating key references from other record kinds
/// ("viewingkey" in ASCII).
pub open spec fn spec_vk_prefix() -> Seq<u8> {
    seq![118u8, 105u8, 101u8, 119u8, 105u8, 110u8, 103u8, 107u8, 101u8, 121u8]
}

fn vk_prefix() -> (r: Vec<u8>)
    ensures
        r@ == spec_vk_prefix(),
{
    let mut v: Vec<u8> = Vec::new();
    v.push(118);
    v.push(105);
    v.push(101);
    v.push(119);
    v.push(105);
    v.push(110);
    v.push(103);
    v.push(107);
    v.push(101);
    v.push(121);
    proof {
        assert(v@ =~= spec_vk_prefix());
    }
    v
}

/// The backend key holding `owner`'s key-reference hash.
pub open spec fn spec_vk_key(owner: Seq<u8>) -> Seq<u8> {
    ns_key(spec_vk_prefix(), owner)
}

/// A value the typed layer can persist: it has a canonical binary encoding
/// that is stable and reproducible across save and load.
pub trait Entity: Sized + View {
    /// Sizes fit the encoding's length markers. Every value built in
    /// executable code satisfies this.
    spec fn wf(v: Self::V) -> bool;

    /// The canonical encoding of an abstract value.
    spec fn spec_enc(v: Self::V) -> Seq<u8>;

    /// The decoding of a byte string, `None` when malformed.
    spec fn spec_dec(b: Seq<u8>) -> Option<Self::V>;

    /// Decoding what was encoded yields the value that was encoded.
    proof fn lemma_enc_dec(v: Self::V)
        requires
            Self::wf(v),
        ensures
            Self::spec_dec(Self::spec_enc(v)) == Some(v),
    ;

    fn encode(&self) -> (r: Vec<u8>)
        ensures
            r@ == Self::spec_enc(self@),
            Self::wf(self@),
    ;

    fn decode(bytes: &[u8]) -> (r: Option<Self>)
        ensures
            r matches Some(v) ==> Self::spec_dec(bytes@) == Some(v@),
            r is None ==> Self::spec_dec(bytes@) is None,
    ;
}

/// The single contract-wide configuration record.
#[derive(Clone, Debug, PartialEq)]
pub struct State {
    pub max_size: u16,
    pub reminder_count: u64,
    pub prng_seed: Vec<u8>,
}

/// Abstract value of a [`State`].
#[verifier::ext_equal]
pub ghost struct StateV {
    pub max_size: u16,
    pub reminder_count: u64,
    pub prng_seed: Seq<u8>,
}

impl View for State {
    type V = StateV;

    open spec fn view(&self) -> StateV {
        StateV {
            max_size: self.max_size,
            reminder_count: self.reminder_count,
            prng_seed: self.prng_seed@,
        }
    }
}

impl Entity for State {
    open spec fn wf(v: StateV) -> bool {
        v.prng_seed.len() <= u64::MAX
    }

    open spec fn spec_enc(v: StateV) -> Seq<u8> {
        spec_u16_to_le_bytes(v.max_size) + spec_u64_to_le_bytes(v.reminder_count)
            + spec_u64_to_le_bytes(v.prng_seed.len() as u64) + v.prng_seed
    }

    open spec fn spec_dec(b: Seq<u8>) -> Option<StateV> {
        if b.len() < 18 {
            None
        } else {
            let ms = spec_u16_from_le_bytes(b.subrange(0, 2));
            let rc = spec_u64_from_le_bytes(b.subrange(2, 10));
            let sl = spec_u64_from_le_bytes(b.subrange(10, 18));
            if sl == b.len() - 18 {
                Some(
                    StateV {
                        max_size: ms,
                        reminder_count: rc,
                        prng_seed: b.subrange(18, b.len() as int),
                    },
                )
            } else {
                None
            }
        }
    }

    proof fn lemma_enc_dec(v: StateV) {
        lemma_auto_spec_u16_to_from_le_bytes();
        lemma_auto_spec_u64_to_from_le_bytes();
        let b = Self::spec_enc(v);
        assert(b.subrange(0, 2) =~= spec_u16_to_le_bytes(v.max_size));
        assert(b.subrange(2, 10) =~= spec_u64_to_le_bytes(v.reminder_count));
        assert(b.subrange(10, 18) =~= spec_u64_to_le_bytes(v.prng_seed.len() as u64));
        assert(b.subrange(18, b.len() as int) =~= v.prng_seed);
        assert(Self::spec_dec(b) is Some);
        assert(Self::spec_dec(b).unwrap() =~= v);
    }

    fn encode(&self) -> (r: Vec<u8>) {
        let mut out = u16_to_le_bytes(self.max_size);
        let mut part = u64_to_le_bytes(self.reminder_count);
        out.append(&mut part);
        let mut len_part = u64_to_le_bytes(self.prng_seed.len() as u64);
        out.append(&mut len_part);
        let mut seed = slice_to_vec(self.prng_seed.as_slice());
        out.append(&mut seed);
        proof {
            assert(out@ =~= Self::spec_enc(self@));
        }
        out
    }

    fn decode(bytes: &[u8]) -> (r: Option<State>) {
        if bytes.len() < 18 {
            return None;
        }
        let ms = u16_from_le_bytes(slice_subrange(bytes, 0, 2));
        let rc = u64_from_le_bytes(slice_subrange(bytes, 2, 10));
        let sl = u64_from_le_bytes(slice_subrange(bytes, 10, 18));
        if sl != (bytes.len() - 18) as u64 {
            return None;
        }
        let seed = slice_to_vec(slice_subrange(bytes, 18, bytes.len()));
        Some(State { max_size: ms, reminder_count: rc, prng_seed: seed })
    }
}

/// One owner's stored reminder.
#[derive(Clone, Debug, PartialEq)]
pub struct Reminder {
    pub content: Vec<u8>,
    pub timestamp: u64,
}

/// Abstract value of a [`Reminder`].
#[verifier::ext_equal]
pub ghost struct ReminderV {
    pub content: Seq<u8>,
    pub timestamp: u64,
}

impl View for Reminder {
    type V = ReminderV;

    open spec fn view(&self) -> ReminderV {
        ReminderV { content: self.content@, timestamp: self.timestamp }
    }
}

impl Entity for Reminder {
    open spec fn wf(v: ReminderV) -> bool {
        v.content.len() <= u64::MAX
    }

    open spec fn spec_enc(v: ReminderV) -> Seq<u8> {
        spec_u64_to_le_bytes(v.timestamp) + spec_u64_to_le_bytes(v.content.len() as u64)
            + v.content
    }

    open spec fn spec_dec(b: Seq<u8>) -> Option<ReminderV> {
        if b.len() < 16 {
            None
        } else {
            let ts = spec_u64_from_le_bytes(b.subrange(0, 8));
            let cl = spec_u64_from_le_bytes(b.subrange(8, 16));
            if cl == b.len() - 16 {
                Some(ReminderV { content: b.subrange(16, b.len() as int), timestamp: ts })
            } else {
                None
            }
        }
    }

    proof fn lemma_enc_dec(v: ReminderV) {
        lemma_auto_spec_u64_to_from_le_bytes();
        let b = Self::spec_enc(v);
        assert(b.subrange(0, 8) =~= spec_u64_to_le_bytes(v.timestamp));
        assert(b.subrange(8, 16) =~= spec_u64_to_le_bytes(v.content.len() as u64));
        assert(b.subrange(16, b.len() as int) =~= v.content);
        assert(Self::spec_dec(b) is Some);
        assert(Self::spec_dec(b).unwrap() =~= v);
    }

    fn encode(&self) -> (r: Vec<u8>) {
        let mut out = u64_to_le_bytes(self.timestamp);
        let mut len_part = u64_to_le_bytes(self.content.len() as u64);
        out.append(&mut len_part);
        let mut content = slice_to_vec(self.content.as_slice());
        out.append(&mut content);
        proof {
            assert(out@ =~= Self::spec_enc(self@));
        }
        out
    }

    fn decode(bytes: &[u8]) -> (r: Option<Reminder>) {
        if bytes.len() < 16 {
            return None;
        }
        let ts = u64_from_le_bytes(slice_subrange(bytes, 0, 8));
        let cl = u64_from_le_bytes(slice_subrange(bytes, 8, 16));
        if cl != (bytes.len() - 16) as u64 {
            return None;
        }
        let content = slice_to_vec(slice_subrange(bytes, 16, bytes.len()));
        Some(Reminder { content, timestamp: ts })
    }
}

/// The outcome of a typed load from abstract contents `m`: absent is
/// `NotFound`, malformed bytes are `Decode`.
pub open spec fn spec_load<T: Entity>(m: Map<Seq<u8>, Seq<u8>>, key: Seq<u8>) -> Result<
    T::V,
    Error,
> {
    if !m.contains_key(key) {
        Err(Error::NotFound)
    } else {
        match T::spec_dec(m[key]) {
            Some(v) => Ok(v),
            None => Err(Error::Decode),
        }
    }
}

/// The outcome of a typed lookup that treats absence as an explicit
/// `None` value rather than an error.
pub open spec fn spec_may_load<T: Entity>(m: Map<Seq<u8>, Seq<u8>>, key: Seq<u8>) -> Result<
    Option<T::V>,
    Error,
> {
    if !m.contains_key(key) {
        Ok(None)
    } else {
        match T::spec_dec(m[key]) {
            Some(v) => Ok(Some(v)),
            None => Err(Error::Decode),
        }
    }
}

/// Encodes `value` and writes it at `key`, unconditionally overwriting any
/// prior contents.
pub fn save<T: Entity>(storage: &mut KvStore, key: &[u8], value: &T)
    ensures
        final(storage)@ == old(storage)@.insert(key@, T::spec_enc(value@)),
        T::wf(value@),
{
    let bytes = value.encode();
    storage.set(key, bytes);
}

/// Decodes the value at `key`; an absent entry is a `NotFound` error.
pub fn load<T: Entity>(storage: &KvStore, key: &[u8]) -> (r: Result<T, Error>)
    ensures
        r matches Ok(v) ==> spec_load::<T>(storage@, key@) == Ok::<T::V, Error>(v@),
        r matches Err(e) ==> spec_load::<T>(storage@, key@) == Err::<T::V, Error>(e),
{
    match storage.get(key) {
        None => Err(Error::NotFound),
        Some(bytes) => match T::decode(bytes.as_slice()) {
            Some(v) => Ok(v),
            None => Err(Error::Decode),
        },
    }
}

/// Decodes the value at `key`, returning an explicit absent result
/// instead of an error when nothing was ever written there.
pub fn may_load<T: Entity>(storage: &KvStore, key: &[u8]) -> (r: Result<Option<T>, Error>)
    ensures
        r matches Ok(Some(v)) ==> spec_may_load::<T>(storage@, key@) == Ok::<
            Option<T::V>,
            Error,
        >(Some(v@)),
        r matches Ok(None::<T>) ==> spec_may_load::<T>(storage@, key@) == Ok::<
            Option<T::V>,
            Error,
        >(None),
        r matches Err(e) ==> spec_may_load::<T>(storage@, key@) == Err::<Option<T::V>, Error>(e),
{
    match storage.get(key) {
        None => Ok(None),
        Some(bytes) => match T::decode(bytes.as_slice()) {
            Some(v) => Ok(Some(v)),
            None => Err(Error::Decode),
        },
    }
}

/// Stores the one-way hash of `key` as `owner`'s current key reference,
/// unconditionally replacing the previous one.
pub fn write_viewing_key(store: &mut KvStore, owner: &[u8], key: &ViewingKey)
    ensures
        final(store)@ == old(store)@.insert(spec_vk_key(owner@), key_hash(key@)),
{
    let prefix = vk_prefix();
    let backend_key = namespace_key(prefix.as_slice(), owner);
    let hashed = key.to_hashed();
    store.set(backend_key.as_slice(), hashed);
}

/// Reads `owner`'s stored key-reference hash, if any.
pub fn read_viewing_key(store: &KvStore, owner: &[u8]) -> (r: Option<Vec<u8>>)
    ensures
        match r {
            Some(v) => store@.contains_key(spec_vk_key(owner@)) && v@ == store@[spec_vk_key(
                owner@,
            )],
            None => !store@.contains_key(spec_vk_key(owner@)),
        },
{
    let prefix = vk_prefix();
    let backend_key = namespace_key(prefix.as_slice(), owner);
    match store.get(backend_key.as_slice()) {
        Some(v) => Some(slice_to_vec(v.as_slice())),
        None => None,
    }
}

} // verus!
