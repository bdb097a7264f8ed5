//! The cryptographic and encoding primitives that signing is built from.
//! Each one is a call into an outside crate; the functions here only make
//! that call and convert its arguments and result.

use hmac::{Hmac, Mac, NewMac};
use sha2::{Digest, Sha256, Sha512};
use vstd::prelude::*;

verus! {

/// What the standard base64 alphabet (with padding) decodes the text to, or
/// `None` where the text is not valid base64.
pub uninterp spec fn base64_decoded(s: Seq<char>) -> Option<Seq<u8>>;

/// The standard base64 text (with padding) of a byte string.
pub uninterp spec fn base64_encoded(b: Seq<u8>) -> Seq<char>;

/// The SHA-256 digest of a byte string.
pub uninterp spec fn sha256_of(b: Seq<u8>) -> Seq<u8>;

/// The HMAC-SHA-512 tag of a message under a key.
pub uninterp spec fn hmac_sha512_of(key: Seq<u8>, msg: Seq<u8>) -> Seq<u8>;

/// A character that may occur in standard base64 text: a letter, a digit,
/// `+`, `/`, or the padding `=`.
pub open spec fn is_base64_symbol(c: char) -> bool {
    ('A' <= c && c <= 'Z') || ('a' <= c && c <= 'z') || ('0' <= c && c <= '9') || c == '+'
        || c == '/' || c == '='
}

/// Relies on `base64::decode` (standard alphabet): it returns the decoded
/// bytes, or an error for text that is not base64; any byte outside the
/// alphabet and the padding is reported as `InvalidByte`.
#[verifier::external_body]
pub(crate) fn decode_base64(s: &str) -> (r: Option<Vec<u8>>)
    ensures
        match r {
            Some(v) => base64_decoded(s@) == Some(v@),
            None => base64_decoded(s@) is None,
        },
        (exists|i: int| 0 <= i < s@.len() && !is_base64_symbol(#[trigger] s@[i])) ==> r is None,
{
    base64::decode(s).ok()
}

/// Relies on `base64::encode` (standard alphabet, padded).
#[verifier::external_body]
pub(crate) fn encode_base64(b: &[u8]) -> (r: String)
    ensures
        r@ == base64_encoded(b@),
{
    base64::encode(b)
}

/// Relies on `sha2::Sha256`: one update with the whole input, then
/// `finalize`, which yields the 32-byte digest.
#[verifier::external_body]
pub(crate) fn sha256(b: &[u8]) -> (r: Vec<u8>)
    ensures
        r@ == sha256_of(b@),
        r@.len() == 32,
{
    let mut hasher = Sha256::new();
    hasher.update(b);
    hasher.finalize().to_vec()
}

/// Relies on `hmac::Hmac<Sha512>`: `new_from_slice` accepts a key of any
/// length, two updates feed `first` then `second` as one message, and
/// `finalize` yields the 64-byte tag.
#[verifier::external_body]
pub(crate) fn hmac_sha512(key: &[u8], first: &[u8], second: &[u8]) -> (r: Vec<u8>)
    ensures
        r@ == hmac_sha512_of(key@, first@ + second@),
        r@.len() == 64,
{
    let mut mac = Hmac::<Sha512>::new_from_slice(key).expect("HMAC takes a key of any length");
    mac.update(first);
    mac.update(second);
    mac.finalize().into_bytes().to_vec()
}

/// Relies on `chrono::Utc::now().timestamp_millis()`: the current time in
/// milliseconds since the Unix epoch. Nothing is promised of its value.
#[verifier::external_body]
pub(crate) fn now_millis() -> (r: i64) {
    chrono::Utc::now().timestamp_millis()
}

} // verus!
