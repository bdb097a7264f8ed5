//! The request signature: an HMAC-SHA-512 over the endpoint path and the
//! SHA-256 digest of nonce and body, keyed by the base64-decoded secret.

use crate::primitives::{
    base64_decoded, base64_encoded, decode_base64, encode_base64, hmac_sha512, hmac_sha512_of,
    is_base64_symbol, sha256, sha256_of,
};
use vstd::prelude::*;
use vstd::string::StringExecFns;
use vstd::utf8::encode_utf8;

verus! {

/// Why a request could not be signed.
#[derive(Debug, Clone, Copy, PartialEq, Eq, Structural)]
pub enum SignError {
    /// The API secret is not valid base64.
    InvalidSecret,
}

/// The bytes that the SHA-256 step hashes: the nonce's text followed by the
/// body's text, with no separator.
pub open spec fn digest_input(nonce: Seq<char>, body: Seq<char>) -> Seq<u8> {
    encode_utf8(nonce + body)
}

/// The signature of a request under a base64 secret, or `None` where the
/// secret is not base64.
pub open spec fn signature_of(
    secret: Seq<char>,
    nonce: Seq<char>,
    endpoint: Seq<char>,
    body: Seq<char>,
) -> Option<Seq<char>> {
    match base64_decoded(secret) {
        Some(key) => Some(
            base64_encoded(
                hmac_sha512_of(key, encode_utf8(endpoint) + sha256_of(digest_input(nonce, body))),
            ),
        ),
        None => None,
    }
}

/// A secret holding a character that base64 text never holds.
pub open spec fn has_foreign_symbol(secret: Seq<char>) -> bool {
    exists|i: int| 0 <= i < secret.len() && !is_base64_symbol(#[trigger] secret[i])
}

/// Signs a request: the base64 of HMAC-SHA-512, keyed by the decoded secret,
/// over the endpoint path followed by SHA-256(nonce ++ body).
pub fn generate_signature(api_secret: &str, nonce: &str, endpoint: &str, post_data: &str) -> (r:
    Result<String, SignError>)
    ensures
        match r {
            Ok(sig) => signature_of(api_secret@, nonce@, endpoint@, post_data@) == Some(sig@),
            Err(e) => e == SignError::InvalidSecret && signature_of(
                api_secret@,
                nonce@,
                endpoint@,
                post_data@,
            ) is None,
        },
        has_foreign_symbol(api_secret@) ==> r is Err,
{
    let key = match decode_base64(api_secret) {
        Some(k) => k,
        None => {
            return Err(SignError::InvalidSecret);
        },
    };
    let mut joined = String::from_str(nonce);
    joined.append(post_data);
    let digest = sha256(joined.as_str().as_bytes());
    let mac = hmac_sha512(key.as_slice(), endpoint.as_bytes(), digest.as_slice());
    Ok(encode_base64(mac.as_slice()))
}

/// Signing is a function of its four inputs: equal inputs give equal
/// signatures, and equal outcomes (both fail, or both succeed).
pub proof fn signature_is_deterministic(
    secret1: Seq<char>,
    nonce1: Seq<char>,
    endpoint1: Seq<char>,
    body1: Seq<char>,
    secret2: Seq<char>,
    nonce2: Seq<char>,
    endpoint2: Seq<char>,
    body2: Seq<char>,
)
    requires
        secret1 == secret2,
        nonce1 == nonce2,
        endpoint1 == endpoint2,
        body1 == body2,
    ensures
        signature_of(secret1, nonce1, endpoint1, body1) == signature_of(
            secret2,
            nonce2,
            endpoint2,
            body2,
        ),
{
}

} // verus!
