//! Declarations of the outside types that the library carries through.

use vstd::prelude::*;
use reqwest::Error as ReqwestFailure;
use serde_json::Error as JsonFailure;

verus! {

#[verifier::external_type_specification]
#[verifier::external_body]
pub struct ExReqwestError(ReqwestFailure);

#[verifier::external_type_specification]
#[verifier::external_body]
pub struct ExJsonError(JsonFailure);

#[verifier::external_type_specification]
#[verifier::external_body]
pub struct ExJsonValue(serde_json::Value);

/// `serde_json::Value`'s `Clone`, a deep copy; nothing is stated of it.
pub assume_specification[ <serde_json::Value as core::clone::Clone>::clone ](v: &serde_json::Value) -> (res: serde_json::Value);

#[verifier::external_type_specification]
#[verifier::external_body]
pub struct ExHttpClient(reqwest::Client);

#[verifier::external_type_specification]
#[verifier::external_body]
pub struct ExHttpClientBuilder(reqwest::ClientBuilder);

/// `reqwest::Client`'s `Clone`, which shares the connection pool; nothing
/// is stated of it.
pub assume_specification[ <reqwest::Client as core::clone::Clone>::clone ](c: &reqwest::Client) -> (res: reqwest::Client);

} // verus!
