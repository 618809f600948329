use crate::contract::{spec_query_read, query_read};
use crate::error::Error;
use crate::msg::{QueryAnswer, QueryAnswerV, QueryMsg};
use crate::state::{read_viewing_key, spec_vk_key};
use crate::store::KvStore;
use crate::viewing_key::{dummy_hash, key_hash, ViewingKey};
use vstd::prelude::*;
use vstd::slice::slice_to_vec;

verus! {

/// Whether `token` authorizes access to `owner`'s records in backend
/// contents `m`: a key reference is stored for `owner` and it equals the
/// token's one-way hash.
pub open spec fn authorizes(m: Map<Seq<u8>, Seq<u8>>, owner: Seq<u8>, token: Seq<char>) -> bool {
    m.contains_key(spec_vk_key(owner)) && m[spec_vk_key(owner)] == key_hash(token)
}

/// The position of the first candidate `token` authorizes, if any.
pub open spec fn first_authorized(
    m: Map<Seq<u8>, Seq<u8>>,
    addresses: Seq<Seq<u8>>,
    token: Seq<char>,
) -> Option<int>
    decreases addresses.len(),
{
    if addresses.len() == 0 {
        None
    } else if authorizes(m, addresses[0], token) {
        Some(0)
    } else {
        match first_authorized(m, addresses.drop_first(), token) {
            Some(i) => Some(i + 1),
            None => None,
        }
    }
}

/// `first_authorized` finds exactly the earliest authorized candidate.
pub proof fn lemma_first_authorized_some(
    m: Map<Seq<u8>, Seq<u8>>,
    addresses: Seq<Seq<u8>>,
    token: Seq<char>,
    i: int,
)
    requires
        0 <= i < addresses.len(),
        authorizes(m, addresses[i], token),
        forall|j: int| 0 <= j < i ==> !authorizes(m, addresses[j], token),
    ensures
        first_authorized(m, addresses, token) == Some(i),
    decreases addresses.len(),
{
    if i > 0 {
        lemma_first_authorized_some(m, addresses.drop_first(), token, i - 1);
    }
}

/// When no candidate is authorized, `first_authorized` finds none.
pub proof fn lemma_first_authorized_none(
    m: Map<Seq<u8>, Seq<u8>>,
    addresses: Seq<Seq<u8>>,
    token: Seq<char>,
)
    requires
        forall|j: int| 0 <= j < addresses.len() ==> !authorizes(m, addresses[j], token),
    ensures
        first_authorized(m, addresses, token) is None,
    decreases addresses.len(),
{
    if addresses.len() > 0 {
        lemma_first_authorized_none(m, addresses.drop_first(), token);
    }
}

/// The outcome of an authenticated read over a candidate list: the read
/// scoped to the first authorized candidate, or one uniform rejection
/// that carries no information about which candidate failed or why.
pub open spec fn spec_authenticated_read(
    m: Map<Seq<u8>, Seq<u8>>,
    addresses: Seq<Seq<u8>>,
    token: Seq<char>,
) -> Result<QueryAnswerV, Error> {
    match first_authorized(m, addresses, token) {
        Some(i) => spec_query_read(m, addresses[i]),
        None => Err(Error::Unauthorized),
    }
}

/// Scans every candidate identity to completion, performing exactly one
/// fixed-time comparison per candidate — against the stored reference
/// hash when one exists, against a same-length placeholder when none does
/// — and reports the first match without stopping the loop early. The
/// second result is the number of comparisons performed: always the
/// candidate-list length, wherever or whether a match occurs.
pub fn find_authorized(store: &KvStore, addresses: &Vec<Vec<u8>>, key: &ViewingKey) -> (r: (
    Option<usize>,
    usize,
))
    ensures
        r.1 == addresses@.len(),
        r.0 matches Some(i) ==> i < addresses@.len() && authorizes(
            store@,
            addresses@[i as int]@,
            key@,
        ) && (forall|j: int| 0 <= j < i ==> !authorizes(store@, addresses@[j]@, key@)),
        r.0 is None ==> forall|j: int|
            0 <= j < addresses@.len() ==> !authorizes(store@, addresses@[j]@, key@),
{
    let mut found: Option<usize> = None;
    let mut checks: usize = 0;
    let mut i: usize = 0;
    while i < addresses.len()
        invariant
            checks == i,
            i <= addresses@.len(),
            found matches Some(f) ==> f < i && authorizes(store@, addresses@[f as int]@, key@) && (
            forall|j: int| 0 <= j < f ==> !authorizes(store@, addresses@[j]@, key@)),
            found is None ==> forall|j: int|
                0 <= j < i ==> !authorizes(store@, addresses@[j]@, key@),
        decreases addresses@.len() - i,
    {
        let address = &addresses[i];
        match read_viewing_key(store, address.as_slice()) {
            None => {
                // A comparison of identical cost also happens when no
                // reference exists, so absence cannot be timed.
                let dummy = dummy_hash();
                let _ = key.check_viewing_key(dummy.as_slice());
            },
            Some(expected) => {
                let matched = key.check_viewing_key(expected.as_slice());
                if matched && found.is_none() {
                    found = Some(i);
                }
            },
        }
        checks = checks + 1;
        i = i + 1;
    }
    (found, checks)
}

/// Decides whether the presented key authorizes one of the candidate
/// identities and, if so, answers the read scoped to the matched one;
/// otherwise a single uniform rejection.
pub fn authenticated_queries(store: &KvStore, msg: &QueryMsg) -> (r: Result<QueryAnswer, Error>)
    requires
        !(msg@ is Stats),
    ensures
        msg matches QueryMsg::Read { address, key } ==> {
            &&& r matches Ok(a) ==> Ok::<QueryAnswerV, Error>(a@) == spec_authenticated_read(
                store@,
                seq![address@],
                key@,
            )
            &&& r matches Err(e) ==> Err::<QueryAnswerV, Error>(e) == spec_authenticated_read(
                store@,
                seq![address@],
                key@,
            )
        },
{
    match msg {
        QueryMsg::Read { address, key } => {
            let presented = ViewingKey(key.clone());
            let mut addresses: Vec<Vec<u8>> = Vec::new();
            addresses.push(slice_to_vec(address.as_slice()));
            let (found, _checks) = find_authorized(store, &addresses, &presented);
            proof {
                assert(addresses@.len() == 1);
                assert(addresses@[0]@ == address@);
            }
            match found {
                Some(idx) => {
                    proof {
                        lemma_first_authorized_some(store@, seq![address@], key@, idx as int);
                    }
                    query_read(store, addresses[idx].as_slice())
                },
                None => {
                    proof {
                        lemma_first_authorized_none(store@, seq![address@], key@);
                    }
                    Err(Error::Unauthorized)
                },
            }
        },
        QueryMsg::Stats {} => Err(Error::Unauthorized),
    }
}

} // verus!
