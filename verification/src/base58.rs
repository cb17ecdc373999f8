//! Trusted boundary to the base58 codec. The encoded and decoded forms are
//! functions of the input alone, so each is given a name that the rest of
//! the library's contracts speak of; nothing else is assumed of them.

use vstd::prelude::*;
use vstd::utf8::encode_utf8;

verus! {

/// The byte value, if any, that a base58 text decodes to.
pub uninterp spec fn base58_decode_of(text: Seq<char>) -> Option<Seq<u8>>;

/// The base58 text encoding of a byte value, as UTF-8 (all-ASCII) bytes.
pub uninterp spec fn base58_text_of(bytes: Seq<u8>) -> Seq<u8>;

/// Relies on `bs58::decode(..).into_vec()` with the default Bitcoin
/// alphabet: the result is a function of the input characters alone; a
/// malformed input yields an error, mapped here to `None`.
#[verifier::external_body]
pub fn bs58_decode(text: &str) -> (r: Option<Vec<u8>>)
    ensures
        match r {
            Some(v) => base58_decode_of(text@) == Some(v@),
            None => base58_decode_of(text@) is None,
        },
{
    match bs58::decode(text).into_vec() {
        Ok(v) => Some(v),
        Err(_) => None,
    }
}

/// Relies on `bs58::encode(..).into_string()` with the default Bitcoin
/// alphabet: the result is a function of the input bytes alone, and writing
/// into a freshly allocated string cannot fail.
#[verifier::external_body]
pub fn bs58_encode(bytes: &[u8]) -> (r: String)
    ensures
        encode_utf8(r@) == base58_text_of(bytes@),
{
    bs58::encode(bytes).into_string()
}

} // verus!
