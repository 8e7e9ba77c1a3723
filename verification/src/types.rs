//! Request metadata and response types of the Integritas v2 API.
//!
//! Responses carry a `status` string plus provider-specific JSON payloads,
//! which are kept opaque.

use vstd::prelude::*;
use crate::text::str_eq;

verus! {

/// Optional metadata Integritas accepts when stamping or verifying a hash.
///
/// Filename and filesize do not affect the cryptographic commitment (the
/// hash is the commitment); the report uses them for human context.
#[derive(Debug, Clone)]
pub struct StampMetadata {
    /// Filename to record in the stamp report. Optional.
    pub filename: Option<String>,
    /// Filesize in bytes to record in the stamp report. Optional.
    pub filesize: Option<u64>,
}

impl Default for StampMetadata {
    fn default() -> (res: Self)
        ensures
            res.filename is None,
            res.filesize is None,
    {
        StampMetadata { filename: None, filesize: None }
    }
}

/// The status string that Integritas reports for a completed request.
pub open spec fn success_status() -> Seq<char> {
    seq!['s', 'u', 'c', 'c', 'e', 's', 's']
}

/// Whether a provider status string reports success.
pub fn is_success_status(status: &str) -> (res: bool)
    ensures
        res == (status@ == success_status()),
{
    let expected = "success";
    proof {
        reveal_strlit("success");
        assert(expected@ =~= success_status());
    }
    str_eq(status, expected)
}

/// Response to `POST /v2/timestamp/post`.
#[derive(Debug, Clone)]
pub struct StampResponse {
    /// Provider-reported status string (e.g. `"success"`, `"pending"`).
    pub status: String,
    /// Provider-specific payload, kept opaque.
    pub data: serde_json::Value,
    /// Error string when `status != "success"`.
    pub error: Option<String>,
}

/// Response to `POST /v2/verify/file`.
#[derive(Debug, Clone)]
pub struct VerifyResponse {
    /// Status string from the provider.
    pub status: String,
    /// Optional verification report links (e.g. PDF URL).
    pub links: serde_json::Value,
    /// Provider-specific data.
    pub data: serde_json::Value,
    /// Error string when `status != "success"`.
    pub error: Option<String>,
}

/// Response to `POST /v2/file/check`: whether a hash has already been
/// stamped, without triggering a new stamp.
#[derive(Debug, Clone)]
pub struct CheckResponse {
    /// Status string from the provider.
    pub status: String,
    /// Provider-specific payload describing the stamp state.
    pub data: serde_json::Value,
    /// Error string when `status != "success"`.
    pub error: Option<String>,
}

impl StampResponse {
    /// Whether the provider reported success.
    pub fn succeeded(&self) -> (res: bool)
        ensures
            res == (self.status@ == success_status()),
    {
        is_success_status(self.status.as_str())
    }
}

} // verus!
