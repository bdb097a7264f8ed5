//! Signed requests for the two private endpoints: the balance query and the
//! market sell order. The body that is signed is the body that is sent.

use crate::primitives::{base64_decoded, now_millis};
use crate::sign::{generate_signature, has_foreign_symbol, signature_of, SignError};
use crate::text::{int_text, int_to_text};
use vstd::prelude::*;
use vstd::string::StringExecFns;

verus! {

/// The path of the balance endpoint.
pub open spec fn balance_path() -> Seq<char> {
    "/0/private/Balance"@
}

/// The path of the order endpoint.
pub open spec fn order_path() -> Seq<char> {
    "/0/private/AddOrder"@
}

/// The form body of a balance query.
pub open spec fn balance_body(nonce: Seq<char>) -> Seq<char> {
    "nonce="@ + nonce
}

/// The form body of a market sell order of `volume` on the traded pair, its
/// fields in this order.
pub open spec fn order_body(nonce: Seq<char>, volume: Seq<char>) -> Seq<char> {
    "nonce="@ + nonce + "&ordertype=market&type=sell&volume="@ + volume + "&pair=USDCUSD"@
}

/// A request ready to be sent: the endpoint path, the form body, and the
/// signature that goes in the `API-Sign` header.
#[derive(Debug, PartialEq, Eq)]
pub struct SignedRequest {
    pub nonce: i64,
    pub endpoint: String,
    pub body: String,
    pub signature: String,
}

impl SignedRequest {
    /// The request is for `endpoint` with `body`, and its signature is the one
    /// of that endpoint and body under `secret` and the request's nonce.
    pub open spec fn signs(self, secret: Seq<char>, endpoint: Seq<char>, body: Seq<char>) -> bool {
        &&& self.endpoint@ == endpoint
        &&& self.body@ == body
        &&& signature_of(secret, int_text(self.nonce as int), endpoint, body) == Some(
            self.signature@,
        )
    }
}

/// What a request builder promises: a request signed as `signs` says, or
/// `InvalidSecret` exactly when the secret is not base64.
pub open spec fn built(
    r: Result<SignedRequest, SignError>,
    secret: Seq<char>,
    endpoint: Seq<char>,
    body: Seq<char>,
) -> bool {
    &&& r is Err <==> base64_decoded(secret) is None
    &&& r matches Err(e) ==> e == SignError::InvalidSecret
    &&& r matches Ok(req) ==> req.signs(secret, endpoint, body)
    &&& has_foreign_symbol(secret) ==> r is Err
}

fn sign_request(api_secret: &str, nonce: i64, endpoint: String, body: String) -> (r: Result<
    SignedRequest,
    SignError,
>)
    ensures
        r is Err <==> base64_decoded(api_secret@) is None,
        r matches Err(e) ==> e == SignError::InvalidSecret,
        r matches Ok(req) ==> req.nonce == nonce && req.signs(api_secret@, endpoint@, body@),
        has_foreign_symbol(api_secret@) ==> r is Err,
{
    let nonce_text = int_to_text(nonce);
    match generate_signature(api_secret, nonce_text.as_str(), endpoint.as_str(), body.as_str()) {
        Ok(signature) => Ok(SignedRequest { nonce, endpoint, body, signature }),
        Err(e) => Err(e),
    }
}

/// The signed balance query for a given nonce: body `nonce=<nonce>`.
pub fn balance_request(api_secret: &str, nonce: i64) -> (r: Result<SignedRequest, SignError>)
    ensures
        built(r, api_secret@, balance_path(), balance_body(int_text(nonce as int))),
        r matches Ok(req) ==> req.nonce == nonce,
{
    let nonce_text = int_to_text(nonce);
    let mut body = String::from_str("nonce=");
    body.append(nonce_text.as_str());
    let endpoint = String::from_str("/0/private/Balance");
    sign_request(api_secret, nonce, endpoint, body)
}

/// The signed market sell order of `volume` for a given nonce: body
/// `nonce=<nonce>&ordertype=market&type=sell&volume=<volume>&pair=USDCUSD`.
pub fn order_request(api_secret: &str, nonce: i64, volume: &str) -> (r: Result<
    SignedRequest,
    SignError,
>)
    ensures
        built(r, api_secret@, order_path(), order_body(int_text(nonce as int), volume@)),
        r matches Ok(req) ==> req.nonce == nonce,
{
    let nonce_text = int_to_text(nonce);
    let mut body = String::from_str("nonce=");
    body.append(nonce_text.as_str());
    body.append("&ordertype=market&type=sell&volume=");
    body.append(volume);
    body.append("&pair=USDCUSD");
    let endpoint = String::from_str("/0/private/AddOrder");
    sign_request(api_secret, nonce, endpoint, body)
}

/// The signed balance query, with the current time in milliseconds as its
/// nonce.
pub fn fresh_balance_request(api_secret: &str) -> (r: Result<SignedRequest, SignError>)
    ensures
        r is Err <==> base64_decoded(api_secret@) is None,
        r matches Err(e) ==> e == SignError::InvalidSecret,
        r matches Ok(req) ==> req.signs(
            api_secret@,
            balance_path(),
            balance_body(int_text(req.nonce as int)),
        ),
        has_foreign_symbol(api_secret@) ==> r is Err,
{
    balance_request(api_secret, now_millis())
}

/// The signed market sell order of `volume`, with the current time in
/// milliseconds as its nonce.
pub fn fresh_order_request(api_secret: &str, volume: &str) -> (r: Result<SignedRequest, SignError>)
    ensures
        r is Err <==> base64_decoded(api_secret@) is None,
        r matches Err(e) ==> e == SignError::InvalidSecret,
        r matches Ok(req) ==> req.signs(
            api_secret@,
            order_path(),
            order_body(int_text(req.nonce as int), volume@),
        ),
        has_foreign_symbol(api_secret@) ==> r is Err,
{
    order_request(api_secret, now_millis(), volume)
}

} // verus!
