use crate::crypto::{base64_encode, base64_of, sha256_of, sha_256};
use vstd::bytes::{spec_u64_to_le_bytes, u64_to_le_bytes};
use vstd::prelude::*;
use vstd::slice::slice_to_vec;
use vstd::string::StringExecFns;
use vstd::utf8::encode_utf8;

verus! {

/// Number of bytes in a stored key-reference hash (a SHA-256 digest).
pub const VIEWING_KEY_SIZE: usize = 32;

/// The one-way stored form of a token: the digest of its UTF-8 bytes.
/// A storage read alone can never reconstruct the token from it.
pub open spec fn key_hash(token: Seq<char>) -> Seq<u8> {
    sha256_of(encode_utf8(token))
}

/// The domain-separation tag mixed into every derivation
/// ("viewing_key" in ASCII).
pub open spec fn spec_domain_tag() -> Seq<u8> {
    seq![118u8, 105u8, 101u8, 119u8, 105u8, 110u8, 103u8, 95u8, 107u8, 101u8, 121u8]
}

fn domain_tag() -> (r: Vec<u8>)
    ensures
        r@ == spec_domain_tag(),
{
    let mut v: Vec<u8> = Vec::new();
    v.push(118);
    v.push(105);
    v.push(101);
    v.push(119);
    v.push(105);
    v.push(110);
    v.push(103);
    v.push(95);
    v.push(107);
    v.push(101);
    v.push(121);
    proof {
        assert(v@ =~= spec_domain_tag());
    }
    v
}

/// The bytes hashed to derive a token: the domain-separation tag, the
/// contract-wide secret seed, the per-call block height and time, the
/// caller identity, and the caller-supplied entropy.
pub open spec fn derivation_material(
    seed: Seq<u8>,
    height: u64,
    time: u64,
    sender: Seq<u8>,
    entropy: Seq<u8>,
) -> Seq<u8> {
    spec_domain_tag() + seed + spec_u64_to_le_bytes(height) + spec_u64_to_le_bytes(time) + sender
        + entropy
}

/// The transportable text of a token: a fixed prefix, then the base64 text
/// of the derived 32-byte secret.
pub open spec fn spec_token(
    seed: Seq<u8>,
    height: u64,
    time: u64,
    sender: Seq<u8>,
    entropy: Seq<u8>,
) -> Seq<char> {
    "api_key_"@ + base64_of(sha256_of(derivation_material(seed, height, time, sender, entropy)))
}

/// A secret bearer token that authenticates read queries for one identity.
#[derive(Debug)]
pub struct ViewingKey(pub String);

impl View for ViewingKey {
    type V = Seq<char>;

    open spec fn view(&self) -> Seq<char> {
        self.0@
    }
}

/// Fixed-time equality of two byte strings of the same length: every byte
/// is visited, differences are only accumulated, and no branch or exit
/// depends on the contents.
pub fn ct_slice_compare(a: &[u8], b: &[u8]) -> (r: bool)
    requires
        a@.len() == b@.len(),
    ensures
        r == (a@ == b@),
{
    let mut diff: u8 = 0;
    let mut i: usize = 0;
    while i < a.len()
        invariant
            i <= a@.len(),
            a@.len() == b@.len(),
            (diff == 0) <==> (forall|j: int| 0 <= j < i ==> a@[j] == b@[j]),
        decreases a@.len() - i,
    {
        let x = a[i] ^ b[i];
        proof {
            assert(forall|p: u8, q: u8| ((p ^ q) == 0) == (p == q)) by (bit_vector);
            assert(forall|p: u8, q: u8| ((p | q) == 0) == (p == 0 && q == 0)) by (bit_vector);
        }
        diff = diff | x;
        i += 1;
    }
    if diff == 0 {
        proof {
            assert(a@ =~= b@);
        }
        true
    } else {
        false
    }
}

/// A placeholder of the same length as a real stored hash, compared
/// against when no key reference exists so the cost is identical.
pub fn dummy_hash() -> (r: Vec<u8>)
    ensures
        r@.len() == VIEWING_KEY_SIZE,
{
    let mut v: Vec<u8> = Vec::new();
    let mut i: usize = 0;
    while i < VIEWING_KEY_SIZE
        invariant
            v@.len() == i,
            i <= VIEWING_KEY_SIZE,
        decreases VIEWING_KEY_SIZE - i,
    {
        v.push(0);
        i += 1;
    }
    v
}

impl ViewingKey {
    /// Derives the token for one call: the derivation material is hashed
    /// and the digest presented as prefixed base64 text.
    pub fn new(seed: &[u8], height: u64, time: u64, sender: &[u8], entropy: &[u8]) -> (k:
        ViewingKey)
        ensures
            k@ == spec_token(seed@, height, time, sender@, entropy@),
    {
        let mut material = domain_tag();
        let mut part = slice_to_vec(seed);
        material.append(&mut part);
        let mut hb = u64_to_le_bytes(height);
        material.append(&mut hb);
        let mut tb = u64_to_le_bytes(time);
        material.append(&mut tb);
        let mut sb = slice_to_vec(sender);
        material.append(&mut sb);
        let mut eb = slice_to_vec(entropy);
        material.append(&mut eb);
        proof {
            assert(material@ =~= derivation_material(seed@, height, time, sender@, entropy@));
        }
        let digest = sha_256(material.as_slice());
        let text = base64_encode(digest.as_slice());
        let token = "api_key_".to_owned().concat(text.as_str());
        ViewingKey(token)
    }

    /// The one-way hash under which the token is persisted; the token
    /// itself is never stored.
    pub fn to_hashed(&self) -> (r: Vec<u8>)
        ensures
            r@ == key_hash(self@),
            r@.len() == VIEWING_KEY_SIZE,
    {
        sha_256(self.0.as_str().as_bytes())
    }

    /// Recomputes this token's hash and compares it with `hashed` in fixed
    /// time: the cost depends only on the declared hash length, never on
    /// the contents or on how many leading bytes match.
    pub fn check_viewing_key(&self, hashed: &[u8]) -> (r: bool)
        ensures
            r == (hashed@ == key_hash(self@)),
    {
        let mine = sha_256(self.0.as_str().as_bytes());
        if hashed.len() == VIEWING_KEY_SIZE {
            ct_slice_compare(mine.as_slice(), hashed)
        } else {
            let dummy = dummy_hash();
            let _ = ct_slice_compare(mine.as_slice(), dummy.as_slice());
            false
        }
    }
}

} // verus!
