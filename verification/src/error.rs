//! The ways a call through the cache can fail.

use vstd::prelude::*;

verus! {

/// The error type of the `reqwest` HTTP client.
#[verifier::external_type_specification]
#[verifier::external_body]
pub struct ExReqwestError(reqwest::Error);

/// The error type of `serde_json`.
#[verifier::external_type_specification]
#[verifier::external_body]
pub struct ExJsonError(serde_json::Error);

/// All the ways a call can fail, each with what describes it.
#[derive(Debug)]
pub enum CheapApiError {
    /// Reading or writing the cache store failed.
    Store(String),
    /// The request to the upstream API failed.
    Http(reqwest::Error),
    /// A JSON value could not be parsed or built.
    Json(serde_json::Error),
    /// A header name or value held bytes that cannot be sent.
    Encoding(String),
    /// The caller passed a bad setting or request (such as an invalid method).
    Config(String),
}

} // verus!
