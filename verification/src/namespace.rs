use vstd::arithmetic::div_mod::lemma_fundamental_div_mod;
use vstd::prelude::*;
use vstd::slice::slice_to_vec;

verus! {

/// The backend key for a (domain, discriminator) pair: a two-byte
/// big-endian length marker for the domain tag, then the tag, then the
/// discriminator. Among domains of at most 65535 bytes, distinct pairs
/// always give distinct keys (`lemma_ns_key_injective`).
pub open spec fn ns_key(domain: Seq<u8>, disc: Seq<u8>) -> Seq<u8> {
    seq![(domain.len() / 256) as u8, (domain.len() % 256) as u8] + domain + disc
}

/// Builds the backend key isolating `disc` inside `domain`.
pub fn namespace_key(domain: &[u8], disc: &[u8]) -> (r: Vec<u8>)
    requires
        domain@.len() <= 0xffff,
    ensures
        r@ == ns_key(domain@, disc@),
{
    let n = domain.len();
    let mut out: Vec<u8> = Vec::new();
    out.push((n / 256) as u8);
    out.push((n % 256) as u8);
    let mut d = slice_to_vec(domain);
    out.append(&mut d);
    let mut s = slice_to_vec(disc);
    out.append(&mut s);
    proof {
        assert(out@ =~= ns_key(domain@, disc@));
    }
    out
}

/// No two distinct (domain, discriminator) pairs produce the same backend
/// key, as long as domain tags fit the two-byte length marker.
pub proof fn lemma_ns_key_injective(d1: Seq<u8>, s1: Seq<u8>, d2: Seq<u8>, s2: Seq<u8>)
    requires
        d1.len() <= 0xffff,
        d2.len() <= 0xffff,
        ns_key(d1, s1) == ns_key(d2, s2),
    ensures
        d1 == d2,
        s1 == s2,
{
    let k = ns_key(d1, s1);
    assert(k[0] == (d1.len() / 256) as u8 && k[1] == (d1.len() % 256) as u8);
    assert(k[0] == (d2.len() / 256) as u8 && k[1] == (d2.len() % 256) as u8);
    assert(d1.len() / 256 <= 255 && d2.len() / 256 <= 255);
    assert(d1.len() % 256 < 256 && d2.len() % 256 < 256);
    assert(d1.len() / 256 == d2.len() / 256);
    assert(d1.len() % 256 == d2.len() % 256);
    lemma_fundamental_div_mod(d1.len() as int, 256);
    lemma_fundamental_div_mod(d2.len() as int, 256);
    assert(d1.len() == d2.len());
    assert(d1 =~= ns_key(d1, s1).subrange(2, 2 + d1.len() as int));
    assert(d2 =~= ns_key(d2, s2).subrange(2, 2 + d2.len() as int));
    assert(s1 =~= ns_key(d1, s1).subrange(2 + d1.len() as int, ns_key(d1, s1).len() as int));
    assert(s2 =~= ns_key(d2, s2).subrange(2 + d2.len() as int, ns_key(d2, s2).len() as int));
}

} // verus!
