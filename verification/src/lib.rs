//! Verified client core for the Integritas timestamping API.

#![allow(unused_imports)]

pub mod client;
pub mod digest;
pub mod encoding;
pub mod error;
pub mod hash_input;
mod outside;
pub mod sink;
pub mod text;
pub mod types;

pub use digest::sha3_256;
pub use error::{Error, Result};
pub use types::{CheckResponse, StampMetadata, StampResponse, VerifyResponse};
pub use client::{IntegritasClient, IntegritasConfig};
