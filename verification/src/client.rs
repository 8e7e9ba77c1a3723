//! The Integritas v2 client: configuration, request assembly and the
//! decisions taken on each HTTP response.
//!
//! All three endpoints share one request shape (an `api_key`, a SHA3-256
//! `file_hash` and optional filename/filesize metadata), assembled in one
//! place. Sending a request and reading its reply is I/O and is left to the
//! caller, which hands the status and body back to [`check_response`].

use core::time::Duration;
use vstd::prelude::*;

use crate::encoding::{encode_hex, hex_decode, hex_encode};
use crate::error::Error;
use crate::text::{
    is_blank, str_is_blank, trim_end_slashes, trim_trailing_slashes, truncatable, truncate,
    truncated,
};
use crate::types::StampMetadata;

verus! {

/// Default Integritas API base URL.
pub const DEFAULT_BASE_URL: &'static str = "https://api.integritas.technology";

/// Default per-request timeout, in seconds.
pub const DEFAULT_TIMEOUT_SECS: u64 = 30;

/// The `User-Agent` header the client sends.
pub const USER_AGENT: &'static str = "integritas-edge/0.1.0";

/// How many bytes of a response body an error keeps.
pub const MAX_ERROR_BODY: usize = 1024;

/// Configuration for [`IntegritasClient`].
#[derive(Debug, Clone)]
pub struct IntegritasConfig {
    /// Integritas-issued API key. Required.
    pub api_key: String,
    /// Override the API base URL. Defaults to [`DEFAULT_BASE_URL`].
    pub base_url: Option<String>,
    /// Per-request timeout. Defaults to 30s.
    pub timeout: Option<Duration>,
}

impl Default for IntegritasConfig {
    fn default() -> (res: Self)
        ensures
            res.api_key@.len() == 0,
            res.base_url is None,
            res.timeout is None,
    {
        IntegritasConfig { api_key: String::new(), base_url: None, timeout: None }
    }
}

/// The base URL a configuration asks for: the given one or the default,
/// without trailing slashes.
pub open spec fn configured_base_url(base_url: Option<String>) -> Seq<char> {
    match base_url {
        Some(u) => trim_trailing_slashes(u@),
        None => trim_trailing_slashes(DEFAULT_BASE_URL@),
    }
}

/// Calls `reqwest::Client::builder`.
#[verifier::external_body]
fn http_client_builder() -> reqwest::ClientBuilder {
    reqwest::Client::builder()
}

/// Calls `reqwest::ClientBuilder::timeout`, which records a total request
/// timeout in the builder.
#[verifier::external_body]
fn builder_timeout(builder: reqwest::ClientBuilder, timeout: Duration) -> reqwest::ClientBuilder {
    builder.timeout(timeout)
}

/// Whether `http` accepts `s` as a header value: every byte is a tab or at
/// least 32 and not 127 (`HeaderValue::from_str`); over characters, every
/// character outside ASCII is accepted.
pub open spec fn is_header_value(s: Seq<char>) -> bool {
    forall|i: int|
        0 <= i < s.len() ==> (#[trigger] s[i] == '\t' || (s[i] as u32 >= 32 && s[i] as u32 != 127))
}

/// The client's `User-Agent` is a header value `http` accepts.
pub proof fn lemma_user_agent_is_header_value()
    ensures
        is_header_value(USER_AGENT@),
{
    reveal_strlit("integritas-edge/0.1.0");
}

/// Calls `reqwest::ClientBuilder::user_agent`. It is handed only values
/// that `http` accepts as a header value, which the builder records as the
/// `User-Agent` header; a refused value would be recorded as an error that
/// `build` reports.
#[verifier::external_body]
fn builder_user_agent(builder: reqwest::ClientBuilder, agent: &str) -> reqwest::ClientBuilder
    requires
        is_header_value(agent@),
{
    builder.user_agent(agent)
}

/// Calls `reqwest::ClientBuilder::build`; whether it succeeds depends on
/// the TLS backend of the machine, so nothing is stated of the result.
#[verifier::external_body]
fn builder_build(builder: reqwest::ClientBuilder) -> core::result::Result<reqwest::Client, reqwest::Error> {
    builder.build()
}

/// A duration of `secs` whole seconds.
pub uninterp spec fn seconds_duration(secs: u64) -> Duration;

/// Calls `Duration::from_secs`, whose result is `secs` whole seconds and
/// depends on `secs` alone.
#[verifier::external_body]
fn duration_from_secs(secs: u64) -> (res: Duration)
    ensures
        res == seconds_duration(secs),
{
    Duration::from_secs(secs)
}

/// The per-request timeout a configuration asks for: the given one, else
/// [`DEFAULT_TIMEOUT_SECS`] seconds.
pub open spec fn configured_timeout(timeout: Option<Duration>) -> Duration {
    match timeout {
        Some(t) => t,
        None => seconds_duration(DEFAULT_TIMEOUT_SECS),
    }
}

/// The per-request timeout for a configured timeout: the given one, else
/// [`DEFAULT_TIMEOUT_SECS`] seconds.
pub fn requested_timeout(timeout: Option<Duration>) -> (res: Duration)
    ensures
        res == configured_timeout(timeout),
{
    match timeout {
        Some(t) => t,
        None => duration_from_secs(DEFAULT_TIMEOUT_SECS),
    }
}

/// Whether `s` parses as an absolute URL (the WHATWG URL standard that the
/// `url` crate implements).
pub uninterp spec fn is_valid_url(s: Seq<char>) -> bool;

/// Calls `reqwest::Url::parse` (the `url` crate) and reports whether it
/// succeeded; the outcome depends on the text alone.
#[verifier::external_body]
fn url_parses(s: &str) -> (res: bool)
    ensures
        res == is_valid_url(s@),
{
    reqwest::Url::parse(s).is_ok()
}

/// Client for the Integritas v2 API.
#[derive(Debug)]
pub struct IntegritasClient {
    http: reqwest::Client,
    base_url: String,
    api_key: String,
}

impl IntegritasClient {
    /// A client always holds a usable key and a base URL that does not end
    /// in `/`.
    #[verifier::type_invariant]
    spec fn well_formed(self) -> bool {
        &&& !is_blank(self.api_key@)
        &&& trim_trailing_slashes(self.base_url@) == self.base_url@
        &&& is_valid_url(self.base_url@)
    }

    /// The base URL requests go to.
    pub closed spec fn spec_base_url(&self) -> Seq<char> {
        self.base_url@
    }

    /// The HTTP client this client holds.
    pub closed spec fn spec_http(&self) -> reqwest::Client {
        self.http
    }

    /// The API key sent with every request.
    pub closed spec fn spec_api_key(&self) -> Seq<char> {
        self.api_key@
    }

    /// Build a new client. A blank API key, or a base URL that does not
    /// parse as a URL once its trailing slashes are gone, is refused with
    /// [`Error::Config`]; a failure to build the HTTP client is reported as
    /// [`Error::Transport`]. The HTTP client is built with the configured
    /// timeout (30 s by default, see [`requested_timeout`]) and
    /// [`USER_AGENT`].
    pub fn new(config: IntegritasConfig) -> (res: Result<IntegritasClient, Error>)
        ensures
            is_blank(config.api_key@) ==> (res matches Err(Error::Config(msg))
                && msg@ == "api_key must not be empty"@),
            !is_blank(config.api_key@) && !is_valid_url(configured_base_url(config.base_url)) ==> (
            res matches Err(Error::Config(msg)) && msg@ == "base_url is not a valid URL"@),
            !is_blank(config.api_key@) && is_valid_url(configured_base_url(config.base_url))
                ==> match res {
                Ok(client) => {
                    &&& client.spec_api_key() == config.api_key@
                    &&& client.spec_base_url() == configured_base_url(config.base_url)
                },
                Err(e) => e is Transport,
            },
    {
        if str_is_blank(config.api_key.as_str()) {
            return Err(Error::Config(String::from_str("api_key must not be empty")));
        }
        let base_url = match &config.base_url {
            Some(u) => trim_end_slashes(u.as_str()),
            None => trim_end_slashes(DEFAULT_BASE_URL),
        };
        proof {
            let requested = match config.base_url {
                Some(u) => u@,
                None => DEFAULT_BASE_URL@,
            };
            lemma_trim_trailing_slashes_idempotent(requested);
        }
        if !url_parses(base_url.as_str()) {
            return Err(Error::Config(String::from_str("base_url is not a valid URL")));
        }
        let timeout = requested_timeout(config.timeout);
        proof {
            lemma_user_agent_is_header_value();
        }
        let builder = builder_user_agent(builder_timeout(http_client_builder(), timeout), USER_AGENT);
        match builder_build(builder) {
            Ok(http) => Ok(IntegritasClient { http, base_url, api_key: config.api_key }),
            Err(e) => Err(Error::Transport(e)),
        }
    }

    /// The HTTP client requests are sent with.
    pub fn http(&self) -> (res: &reqwest::Client)
        ensures
            *res == self.spec_http(),
    {
        &self.http
    }

    /// The base URL requests go to.
    pub fn base_url(&self) -> (res: &str)
        ensures
            res@ == self.spec_base_url(),
            res@.len() > 0 ==> res@.last() != '/',
    {
        proof {
            use_type_invariant(self);
            lemma_trim_trailing_slashes_idempotent(self.base_url@);
        }
        self.base_url.as_str()
    }

    /// The API key sent with every request.
    pub fn api_key(&self) -> (res: &str)
        ensures
            res@ == self.spec_api_key(),
            !is_blank(res@),
    {
        proof {
            use_type_invariant(self);
        }
        self.api_key.as_str()
    }

    /// The URL of an endpoint: the base URL followed by the endpoint's path.
    pub fn endpoint_url(&self, endpoint: Endpoint) -> (res: String)
        ensures
            res@ == self.spec_base_url() + endpoint_path(endpoint),
    {
        let mut url = self.base_url.clone();
        url.append(endpoint.path());
        url
    }

    /// The request body for a hash, with this client's API key.
    pub fn request_for<'a>(&'a self, file_hash: &[u8; 32], metadata: Option<&'a StampMetadata>) -> (res: StampRequest<'a>)
        ensures
            res.fields() == request_fields(self.spec_api_key(), file_hash@, metadata),
    {
        build_request(self.api_key.as_str(), file_hash, metadata)
    }
}

impl Clone for IntegritasClient {
    /// Cheap: the HTTP client shares its connection pool.
    fn clone(&self) -> (res: Self)
        ensures
            res.spec_base_url() == self.spec_base_url(),
            res.spec_api_key() == self.spec_api_key(),
    {
        proof {
            use_type_invariant(self);
        }
        IntegritasClient {
            http: self.http.clone(),
            base_url: self.base_url.clone(),
            api_key: self.api_key.clone(),
        }
    }
}

/// A base URL without trailing slashes stays as it is: normalising twice
/// is normalising once, and the result never ends in `/`.
pub proof fn lemma_trim_trailing_slashes_idempotent(s: Seq<char>)
    ensures
        trim_trailing_slashes(trim_trailing_slashes(s)) == trim_trailing_slashes(s),
        trim_trailing_slashes(s).len() > 0 ==> trim_trailing_slashes(s).last() != '/',
    decreases s.len(),
{
    if s.len() > 0 && s.last() == '/' {
        lemma_trim_trailing_slashes_idempotent(s.drop_last());
    }
}

/// The three v2 endpoints.
#[derive(Debug, Clone, Copy, PartialEq, Eq)]
pub enum Endpoint {
    /// `POST /v2/timestamp/post`: stamp a hash.
    Stamp,
    /// `POST /v2/verify/file`: verify a stamped hash.
    Verify,
    /// `POST /v2/file/check`: ask whether a hash is already stamped.
    Check,
}

/// The path of an endpoint.
pub open spec fn endpoint_path(e: Endpoint) -> Seq<char> {
    match e {
        Endpoint::Stamp => "/v2/timestamp/post"@,
        Endpoint::Verify => "/v2/verify/file"@,
        Endpoint::Check => "/v2/file/check"@,
    }
}

impl Endpoint {
    /// The path of this endpoint.
    pub fn path(self) -> (res: &'static str)
        ensures
            res@ == endpoint_path(self),
    {
        match self {
            Endpoint::Stamp => "/v2/timestamp/post",
            Endpoint::Verify => "/v2/verify/file",
            Endpoint::Check => "/v2/file/check",
        }
    }
}

/// The request shape shared by all three endpoints.
#[derive(Debug)]
pub struct StampRequest<'a> {
    /// The API key.
    pub api_key: &'a str,
    /// The hash, as lower-case hexadecimal.
    pub file_hash: String,
    /// Filename for the report, when one was given.
    pub filename: Option<&'a str>,
    /// File size for the report, when one was given.
    pub filesize: Option<u64>,
}

/// The fields of a request, as values.
pub struct RequestFields {
    /// The API key.
    pub api_key: Seq<char>,
    /// The hash, as hexadecimal digits.
    pub file_hash: Seq<char>,
    /// The filename, when one is sent.
    pub filename: Option<Seq<char>>,
    /// The file size, when one is sent.
    pub filesize: Option<u64>,
}

/// The characters of an optional string slice.
pub open spec fn opt_str_view(o: Option<&str>) -> Option<Seq<char>> {
    match o {
        Some(s) => Some(s@),
        None => None,
    }
}

/// The characters of an optional string.
pub open spec fn opt_string_view(o: Option<String>) -> Option<Seq<char>> {
    match o {
        Some(s) => Some(s@),
        None => None,
    }
}

impl<'a> StampRequest<'a> {
    /// The fields of this request, as values.
    pub open spec fn fields(&self) -> RequestFields {
        RequestFields {
            api_key: self.api_key@,
            file_hash: self.file_hash@,
            filename: opt_str_view(self.filename),
            filesize: self.filesize,
        }
    }
}

/// The request for a hash: the key, the hash in lower-case hexadecimal, and
/// the metadata's filename and filesize where it has them.
pub open spec fn request_fields(api_key: Seq<char>, file_hash: Seq<u8>, metadata: Option<&StampMetadata>) -> RequestFields {
    RequestFields {
        api_key: api_key,
        file_hash: hex_encode(file_hash),
        filename: match metadata {
            Some(m) => opt_string_view(m.filename),
            None => None,
        },
        filesize: match metadata {
            Some(m) => m.filesize,
            None => None,
        },
    }
}

/// Assemble the request body shared by the three endpoints.
pub fn build_request<'a>(api_key: &'a str, file_hash: &[u8; 32], metadata: Option<&'a StampMetadata>) -> (res: StampRequest<'a>)
    ensures
        res.fields() == request_fields(api_key@, file_hash@, metadata),
        res.api_key@ == api_key@,
        res.file_hash@.len() == 64,
        forall|i: int| 0 <= i < 32 ==> #[trigger] digit_pair_value(res.file_hash@, i) == file_hash@[i],
        forall|i: int| 0 <= i < 64 ==> #[trigger] is_lower_hex_char(res.file_hash@[i]),
{
    proof {
        lemma_request_hash_is_hash(api_key@, file_hash@, metadata);
    }
    let filename = match metadata {
        Some(m) => match &m.filename {
            Some(f) => Some(f.as_str()),
            None => None,
        },
        None => None,
    };
    let filesize = match metadata {
        Some(m) => m.filesize,
        None => None,
    };
    StampRequest { api_key, file_hash: encode_hex(file_hash), filename, filesize }
}

/// Whether `c` is one of the digits `0-9a-f`.
pub open spec fn is_lower_hex_char(c: char) -> bool {
    ('0' <= c && c <= '9') || ('a' <= c && c <= 'f')
}

/// The byte that the `i`-th pair of lower-case digits of `s` writes, high
/// nibble first.
pub open spec fn digit_pair_value(s: Seq<char>, i: int) -> int {
    let hi = s[2 * i];
    let lo = s[2 * i + 1];
    let h = if hi <= '9' { hi as int - '0' as int } else { hi as int - 'a' as int + 10 };
    let l = if lo <= '9' { lo as int - '0' as int } else { lo as int - 'a' as int + 10 };
    h * 16 + l
}

/// The hash sent is the hash given, byte for byte and in order: the
/// request's `file_hash` is 64 lower-case digits whose `i`-th pair writes
/// the hash's `i`-th byte, whatever the key and metadata.
pub proof fn lemma_request_hash_is_hash(api_key: Seq<char>, file_hash: Seq<u8>, metadata: Option<&StampMetadata>)
    requires
        file_hash.len() == 32,
    ensures
        request_fields(api_key, file_hash, metadata).file_hash.len() == 64,
        forall|i: int| 0 <= i < 32 ==> #[trigger] digit_pair_value(
            request_fields(api_key, file_hash, metadata).file_hash,
            i,
        ) == file_hash[i],
        forall|i: int| 0 <= i < 64 ==> #[trigger] is_lower_hex_char(
            request_fields(api_key, file_hash, metadata).file_hash[i],
        ),
        hex_decode(request_fields(api_key, file_hash, metadata).file_hash) == file_hash,
{
    let e = request_fields(api_key, file_hash, metadata).file_hash;
    crate::encoding::lemma_hex_decode_encode(file_hash);
    assert forall|i: int| 0 <= i < 64 implies #[trigger] is_lower_hex_char(e[i]) by {
        let v = file_hash[i / 2] as int;
        assert(0 <= v / 16 < 16 && 0 <= v % 16 < 16);
    }
    assert forall|i: int| 0 <= i < 32 implies #[trigger] digit_pair_value(e, i) == file_hash[i] by {
        assert((2 * i) / 2 == i && (2 * i) % 2 == 0);
        assert((2 * i + 1) / 2 == i && (2 * i + 1) % 2 == 1);
        let v = file_hash[i] as int;
        assert(0 <= v / 16 < 16 && 0 <= v % 16 < 16);
        assert(v == (v / 16) * 16 + v % 16);
    }
}

/// Filename and filesize shape the report but not the commitment: the key
/// and the hash sent do not depend on the metadata.
pub proof fn lemma_metadata_does_not_change_commitment(
    api_key: Seq<char>,
    file_hash: Seq<u8>,
    m1: Option<&StampMetadata>,
    m2: Option<&StampMetadata>,
)
    ensures
        request_fields(api_key, file_hash, m1).file_hash == request_fields(api_key, file_hash, m2).file_hash,
        request_fields(api_key, file_hash, m1).api_key == request_fields(api_key, file_hash, m2).api_key,
        request_fields(api_key, file_hash, m1).file_hash.len() == 2 * file_hash.len(),
{
}

/// An HTTP status in the success class, 200 to 299.
pub open spec fn is_success_code(status: u16) -> bool {
    200 <= status < 300
}

/// Whether an HTTP status is in the success class.
pub fn status_is_success(status: u16) -> (res: bool)
    ensures
        res == is_success_code(status),
        res <==> (200 <= status && status <= 299),
{
    200 <= status && status < 300
}

/// The success class is exactly the 2xx range: every status from 200
/// through 299, and no other.
pub proof fn lemma_success_class_is_2xx(status: u16)
    ensures
        is_success_code(status) <==> (200 <= status && status <= 299),
{
}

/// The decision on a response before its body is parsed: a status outside
/// the success class is an [`Error::HttpStatus`] carrying the body
/// verbatim; an empty body on success is [`Error::Malformed`]; anything
/// else goes on to be parsed.
pub fn check_response(status: u16, body: &str) -> (res: Result<(), Error>)
    ensures
        !is_success_code(status) ==> (res matches Err(Error::HttpStatus { status: s, body: b })
            && s == status && b@ == body@),
        is_success_code(status) && body@.len() == 0 ==> (res matches Err(
            Error::Malformed { hint, body: b },
        ) && hint@ == "empty response body"@ && b@.len() == 0),
        is_success_code(status) && body@.len() > 0 ==> res is Ok,
        200 <= status && status <= 299 && body@.len() > 0 ==> res is Ok,
        (status < 200 || status > 299) ==> (res matches Err(Error::HttpStatus { status: s, .. })
            && s == status),
{
    if !status_is_success(status) {
        return Err(Error::HttpStatus { status, body: String::from_str(body) });
    }
    if body.unicode_len() == 0 {
        return Err(Error::Malformed { hint: "empty response body", body: String::new() });
    }
    Ok(())
}

/// The error for a successful response whose body is not the expected
/// JSON: [`Error::Malformed`], carrying the body cut to
/// [`MAX_ERROR_BODY`] bytes.
pub fn malformed_response(body: &str) -> (res: Error)
    requires
        truncatable(body@, MAX_ERROR_BODY as int),
    ensures
        res matches Error::Malformed { hint, body: b } && hint@
            == "response was not the expected JSON shape"@ && b@ == truncated(body@, MAX_ERROR_BODY as int),
{
    Error::Malformed { hint: "response was not the expected JSON shape", body: truncate(body, MAX_ERROR_BODY) }
}

} // verus!
