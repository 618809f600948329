use vstd::prelude::*;
use vstd::slice::slice_to_vec;

verus! {

/// Compares two byte strings for equality.
///
/// This is the ordinary, early-exiting comparison used for backend keys;
/// secret material is compared by `viewing_key::ct_slice_compare` instead.
pub fn bytes_eq(a: &[u8], b: &[u8]) -> (r: bool)
    ensures
        r == (a@ == b@),
{
    if a.len() != b.len() {
        return false;
    }
    let mut i: usize = 0;
    while i < a.len()
        invariant
            i <= a@.len(),
            a@.len() == b@.len(),
            forall|j: int| 0 <= j < i ==> a@[j] == b@[j],
        decreases a@.len() - i,
    {
        if a[i] != b[i] {
            return false;
        }
        i += 1;
    }
    proof {
        assert(a@ =~= b@);
    }
    true
}

/// The flat byte-oriented key-value backend the contract persists into.
///
/// A write never removes an entry; a later write for the same key shadows
/// the earlier one, so the abstract contents are a map from keys to the
/// most recently written value.
pub struct KvStore {
    entries: Vec<(Vec<u8>, Vec<u8>)>,
}

/// The map described by an entry list, later entries shadowing earlier ones.
spec fn kv_map(s: Seq<(Vec<u8>, Vec<u8>)>) -> Map<Seq<u8>, Seq<u8>>
    decreases s.len(),
{
    if s.len() == 0 {
        Map::empty()
    } else {
        kv_map(s.drop_last()).insert(s.last().0@, s.last().1@)
    }
}

impl View for KvStore {
    type V = Map<Seq<u8>, Seq<u8>>;

    closed spec fn view(&self) -> Map<Seq<u8>, Seq<u8>> {
        kv_map(self.entries@)
    }
}

proof fn lemma_kv_absent(s: Seq<(Vec<u8>, Vec<u8>)>, k: Seq<u8>)
    requires
        forall|j: int| 0 <= j < s.len() ==> s[j].0@ != k,
    ensures
        !kv_map(s).contains_key(k),
    decreases s.len(),
{
    if s.len() > 0 {
        assert forall|j: int| 0 <= j < s.drop_last().len() implies s.drop_last()[j].0@ != k by {
            assert(s.drop_last()[j] == s[j]);
        }
        lemma_kv_absent(s.drop_last(), k);
        assert(s.last() == s[s.len() - 1]);
    }
}

proof fn lemma_kv_present(s: Seq<(Vec<u8>, Vec<u8>)>, k: Seq<u8>, m: int)
    requires
        0 <= m < s.len(),
        s[m].0@ == k,
        forall|j: int| m < j < s.len() ==> s[j].0@ != k,
    ensures
        kv_map(s).contains_key(k),
        kv_map(s)[k] == s[m].1@,
    decreases s.len(),
{
    assert(s.last() == s[s.len() - 1]);
    if m < s.len() - 1 {
        assert forall|j: int| m < j < s.drop_last().len() implies s.drop_last()[j].0@ != k by {
            assert(s.drop_last()[j] == s[j]);
        }
        assert(s.drop_last()[m] == s[m]);
        lemma_kv_present(s.drop_last(), k, m);
    }
}

impl KvStore {
    /// Creates an empty backend.
    pub fn new() -> (s: Self)
        ensures
            s@ == Map::<Seq<u8>, Seq<u8>>::empty(),
    {
        KvStore { entries: Vec::new() }
    }

    /// Writes `value` at `key`, unconditionally overwriting prior contents.
    pub fn set(&mut self, key: &[u8], value: Vec<u8>)
        ensures
            final(self)@ == old(self)@.insert(key@, value@),
    {
        let owned_key = slice_to_vec(key);
        self.entries.push((owned_key, value));
        proof {
            assert(self.entries@.drop_last() =~= old(self).entries@);
            assert(self.entries@.last().0@ == key@);
        }
    }

    /// Reads the value at `key`, if one was ever written.
    pub fn get(&self, key: &[u8]) -> (r: Option<&Vec<u8>>)
        ensures
            match r {
                Some(v) => self@.contains_key(key@) && v@ == self@[key@],
                None => !self@.contains_key(key@),
            },
    {
        let mut i: usize = self.entries.len();
        while i > 0
            invariant
                i <= self.entries@.len(),
                forall|j: int| i <= j < self.entries@.len() ==> self.entries@[j].0@ != key@,
            decreases i,
    {
            i = i - 1;
            if bytes_eq(self.entries[i].0.as_slice(), key) {
                proof {
                    lemma_kv_present(self.entries@, key@, i as int);
                }
                return Some(&self.entries[i].1);
            }
        }
        proof {
            lemma_kv_absent(self.entries@, key@);
        }
        None
    }
}

} // verus!
