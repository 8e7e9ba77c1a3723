//! The decisions of a receipt sink that stamps each agent receipt: how a
//! receipt becomes a stamp request, and how each way of failing is
//! reported (retry later, or give up on the receipt).

use vstd::prelude::*;

use crate::client::opt_string_view;
use crate::digest::{blake3_digest, receipt_digest};
use crate::error::Error;
use crate::text::{decimal, decimal_string};
use crate::types::{success_status, StampMetadata, StampResponse};

verus! {

/// How a sink reports a receipt it could not stamp.
#[derive(Debug)]
pub enum SinkFailure {
    /// Worth retrying: the receipt stays queued for replay.
    Transient(String),
    /// Not worth retrying: the receipt is refused.
    Rejected(String),
}

impl SinkFailure {
    /// The message carried.
    pub open spec fn message(self) -> Seq<char> {
        match self {
            SinkFailure::Transient(m) => m@,
            SinkFailure::Rejected(m) => m@,
        }
    }
}

/// Calls `Display::fmt` of `reqwest::Error` through `format!`; the text is
/// the crate's and nothing is stated of it.
#[verifier::external_body]
fn transport_error_text(e: &reqwest::Error) -> String {
    format!("{e}")
}

/// Calls `Display::fmt` of `serde_json::Error` through `format!`; the text
/// is the crate's and nothing is stated of it.
#[verifier::external_body]
fn json_error_text(e: &serde_json::Error) -> String {
    format!("{e}")
}

/// The `Debug` rendering of an optional string (`None`, or `Some("...")`
/// with the string quoted and escaped).
pub uninterp spec fn debug_optional_text(o: Option<Seq<char>>) -> Seq<char>;

/// Calls `Debug::fmt` of `Option<String>` through `format!`, whose text
/// depends on the value alone.
#[verifier::external_body]
fn optional_text_debug(o: &Option<String>) -> (res: String)
    ensures
        res@ == debug_optional_text(opt_string_view(*o)),
{
    format!("{o:?}")
}

fn concat2(a: &str, b: &str) -> (res: String)
    ensures
        res@ == a@ + b@,
{
    let mut s = String::from_str(a);
    s.append(b);
    s
}

/// How a client error is reported by the sink: transport and HTTP failures
/// are transient, so the receipt is replayed later; every other failure
/// rejects it. Each message names its cause.
pub fn sink_failure(e: Error) -> (res: SinkFailure)
    ensures
        res is Transient <==> (e is Transport || e is HttpStatus),
        match e {
            Error::Transport(_) => res.message().take(22) == "integritas transport: "@,
            Error::Json(_) => res.message().take(17) == "integritas json: "@,
            Error::Config(msg) => res.message() == "integritas config: "@ + msg@,
            Error::InvalidHashLength(n) => res.message() == "integritas invalid hash length: "@
                + decimal(n as nat),
            Error::HttpStatus { status, body } => res.message() == "integritas http "@ + decimal(
                status as nat,
            ) + ": "@ + body@,
            Error::Malformed { hint, body } => res.message() == "integritas malformed ("@ + hint@
                + "): "@ + body@,
        },
{
    match e {
        Error::Transport(err) => {
            let prefix = "integritas transport: ";
            proof {
                reveal_strlit("integritas transport: ");
            }
            let m = concat2(prefix, transport_error_text(&err).as_str());
            assert(m@.take(22) =~= prefix@);
            SinkFailure::Transient(m)
        },
        Error::HttpStatus { status, body } => {
            let mut m = concat2("integritas http ", decimal_string(status as u64).as_str());
            m.append(": ");
            m.append(body.as_str());
            SinkFailure::Transient(m)
        },
        Error::Json(err) => {
            let prefix = "integritas json: ";
            proof {
                reveal_strlit("integritas json: ");
            }
            let m = concat2(prefix, json_error_text(&err).as_str());
            assert(m@.take(17) =~= prefix@);
            SinkFailure::Rejected(m)
        },
        Error::Malformed { hint, body } => {
            let mut m = concat2("integritas malformed (", hint);
            m.append("): ");
            m.append(body.as_str());
            SinkFailure::Rejected(m)
        },
        Error::Config(msg) => SinkFailure::Rejected(concat2("integritas config: ", msg.as_str())),
        Error::InvalidHashLength(len) => SinkFailure::Rejected(
            concat2("integritas invalid hash length: ", decimal_string(len as u64).as_str()),
        ),
    }
}

/// How a sink reports a receipt it could not serialise: rejected, since
/// the same receipt will never serialise; the message names the cause.
pub fn canonicalisation_failure(e: serde_json::Error) -> (res: SinkFailure)
    ensures
        res is Rejected,
        res.message().take(22) == "canonicalise receipt: "@,
{
    let prefix = "canonicalise receipt: ";
    proof {
        reveal_strlit("canonicalise receipt: ");
    }
    let m = concat2(prefix, json_error_text(&e).as_str());
    assert(m@.take(22) =~= prefix@);
    SinkFailure::Rejected(m)
}

/// What a sink does with a stamp response: success completes the receipt;
/// any other status (Integritas answers pending or queued at times) is
/// transient, so the receipt is retried.
pub fn stamp_outcome(resp: &StampResponse) -> (res: Result<(), SinkFailure>)
    ensures
        resp.status@ == success_status() <==> res is Ok,
        res matches Err(f) ==> f is Transient && f.message() == "integritas non-success: status="@
            + resp.status@ + " error="@ + debug_optional_text(opt_string_view(resp.error)),
{
    if resp.succeeded() {
        Ok(())
    } else {
        let mut m = concat2("integritas non-success: status=", resp.status.as_str());
        m.append(" error=");
        m.append(optional_text_debug(&resp.error).as_str());
        Err(SinkFailure::Transient(m))
    }
}

/// The stamp for a receipt: the BLAKE3 digest of its canonical encoding as
/// the commitment, the step id as the report's filename and the encoding's
/// length as its size.
pub fn receipt_stamp(canonical: &[u8], step_id: &str) -> (res: ([u8; 32], StampMetadata))
    ensures
        res.0@ == blake3_digest(canonical@),
        res.1.filename matches Some(f) && f@ == "furcate-receipt-"@ + step_id@,
        res.1.filesize == Some(canonical@.len() as u64),
{
    let digest = receipt_digest(canonical);
    let filename = concat2("furcate-receipt-", step_id);
    (digest, StampMetadata { filename: Some(filename), filesize: Some(canonical.len() as u64) })
}

} // verus!
