use vstd::prelude::*;
use vstd::utf8::{decode_utf8, valid_utf8};

verus! {

/// The SHA-256 digest of a byte string: a fixed function of its input,
/// named here and otherwise left uninterpreted.
pub uninterp spec fn sha256_of(data: Seq<u8>) -> Seq<u8>;

/// The standard padded base64 encoding of a byte string: a fixed function
/// of its input, named here and otherwise left uninterpreted.
pub uninterp spec fn base64_of(data: Seq<u8>) -> Seq<char>;

/// Relies on secret_toolkit::crypto::sha_256: the SHA-256 digest of the
/// input, 32 bytes long and a function of the input alone.
#[verifier::external_body]
pub(crate) fn sha_256(data: &[u8]) -> (r: Vec<u8>)
    ensures
        r@ == sha256_of(data@),
        r@.len() == 32,
{
    secret_toolkit::crypto::sha_256(data).to_vec()
}

/// Relies on base64::Engine::encode with the STANDARD engine: the padded
/// base64 text of the input, four characters for every three bytes begun,
/// a function of the input alone.
#[verifier::external_body]
pub(crate) fn base64_encode(data: &[u8]) -> (r: String)
    ensures
        r@ == base64_of(data@),
        r@.len() == 4 * ((data@.len() + 2) / 3),
{
    base64::Engine::encode(&base64::engine::general_purpose::STANDARD, data)
}

/// Relies on String::from_utf8: succeeds exactly on valid UTF-8 input and
/// returns the string those bytes encode.
#[verifier::external_body]
pub(crate) fn bytes_to_string(bytes: Vec<u8>) -> (r: Option<String>)
    ensures
        r is Some <==> valid_utf8(bytes@),
        r matches Some(s) ==> s@ == decode_utf8(bytes@),
{
    String::from_utf8(bytes).ok()
}

} // verus!
