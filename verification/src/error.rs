//! The errors that talking to the Integritas API can end in.

use vstd::prelude::*;

verus! {

/// Errors that can occur talking to the Integritas API.
#[derive(Debug)]
pub enum Error {
    /// HTTP transport / TLS failure.
    Transport(reqwest::Error),
    /// JSON serialisation or deserialisation failed.
    Json(serde_json::Error),
    /// Configuration was invalid (e.g. missing API key).
    Config(String),
    /// Caller passed a hash that wasn't 32 bytes.
    InvalidHashLength(usize),
    /// Integritas returned a non-success HTTP status.
    HttpStatus {
        /// HTTP status code returned by the Integritas API.
        status: u16,
        /// Response body verbatim, useful for debugging API errors.
        body: String,
    },
    /// The response body could not be parsed into the expected shape.
    Malformed {
        /// Short description of what was wrong.
        hint: &'static str,
        /// The response body for debugging, cut to a bounded length.
        body: String,
    },
}

/// Result alias.
pub type Result<T> = core::result::Result<T, Error>;

} // verus!
