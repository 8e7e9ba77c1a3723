use integritas_edge::client::{
    build_request, check_response, malformed_response, requested_timeout, Endpoint,
    DEFAULT_BASE_URL,
};
use integritas_edge::text::truncate;
use integritas_edge::{Error, IntegritasClient, IntegritasConfig, StampMetadata};

#[test]
fn build_request_hex_encodes_hash() {
    let hash = [0xab; 32];
    let req = build_request("k", &hash, None);
    assert_eq!(req.file_hash, "ab".repeat(32));
    assert_eq!(req.api_key, "k");
    assert!(req.filename.is_none());
    assert!(req.filesize.is_none());
}

#[test]
fn build_request_passes_metadata() {
    let hash = [0u8; 32];
    let meta = StampMetadata {
        filename: Some("evidence.bin".into()),
        filesize: Some(123),
    };
    let req = build_request("k", &hash, Some(&meta));
    assert_eq!(req.filename, Some("evidence.bin"));
    assert_eq!(req.filesize, Some(123));
}

#[test]
fn client_rejects_empty_api_key() {
    let err = IntegritasClient::new(IntegritasConfig::default()).unwrap_err();
    assert!(matches!(err, Error::Config(_)));
}

#[test]
fn truncate_respects_max() {
    assert_eq!(truncate("hi", 10), "hi");
    let big = "a".repeat(100);
    let t = truncate(&big, 10);
    assert!(t.starts_with(&"a".repeat(10)));
    assert!(t.ends_with('…'));
}

#[test]
fn build_request_encodes_each_nibble_in_order() {
    let mut hash = [0u8; 32];
    hash[0] = 0x01;
    hash[1] = 0xf0;
    hash[31] = 0x9c;
    let req = build_request("key", &hash, None);
    assert_eq!(req.file_hash.len(), 64);
    assert!(req.file_hash.starts_with("01f000"));
    assert!(req.file_hash.ends_with("009c"));
}

#[test]
fn build_request_keeps_filesize_without_filename() {
    let meta = StampMetadata {
        filename: None,
        filesize: Some(7),
    };
    let req = build_request("k", &[1u8; 32], Some(&meta));
    assert_eq!(req.filename, None);
    assert_eq!(req.filesize, Some(7));
    assert_eq!(req.file_hash, "01".repeat(32));
}

#[test]
fn client_rejects_whitespace_only_api_key() {
    let err = IntegritasClient::new(IntegritasConfig {
        api_key: " \t\n\u{3000}".into(),
        base_url: None,
        timeout: None,
    })
    .unwrap_err();
    match err {
        Error::Config(msg) => assert_eq!(msg, "api_key must not be empty"),
        other => panic!("expected Config, got {other:?}"),
    }
}

#[test]
fn client_uses_default_base_url() {
    let client = IntegritasClient::new(IntegritasConfig {
        api_key: "ik_test".into(),
        ..Default::default()
    })
    .expect("client builds");
    assert_eq!(client.base_url(), DEFAULT_BASE_URL);
    assert_eq!(client.api_key(), "ik_test");
    assert_eq!(
        client.endpoint_url(Endpoint::Stamp),
        "https://api.integritas.technology/v2/timestamp/post"
    );
}

#[test]
fn client_strips_trailing_slashes_from_base_url() {
    let client = IntegritasClient::new(IntegritasConfig {
        api_key: "ik".into(),
        base_url: Some("http://localhost:8080///".into()),
        timeout: Some(std::time::Duration::from_secs(5)),
    })
    .expect("client builds");
    assert_eq!(client.base_url(), "http://localhost:8080");
    assert_eq!(
        client.endpoint_url(Endpoint::Verify),
        "http://localhost:8080/v2/verify/file"
    );
    assert_eq!(
        client.endpoint_url(Endpoint::Check),
        "http://localhost:8080/v2/file/check"
    );
    let copy = client.clone();
    assert_eq!(copy.base_url(), "http://localhost:8080");
}

#[test]
fn request_for_uses_client_key() {
    let client = IntegritasClient::new(IntegritasConfig {
        api_key: "ik_test_abc".into(),
        ..Default::default()
    })
    .expect("client builds");
    let req = client.request_for(&[0x11; 32], None);
    assert_eq!(req.api_key, "ik_test_abc");
    assert_eq!(req.file_hash, "11".repeat(32));
}

#[test]
fn non_success_status_is_http_status_error() {
    match check_response(401, "unauthorized") {
        Err(Error::HttpStatus { status, body }) => {
            assert_eq!(status, 401);
            assert_eq!(body, "unauthorized");
        }
        other => panic!("expected HttpStatus, got {other:?}"),
    }
    assert!(matches!(
        check_response(199, "x"),
        Err(Error::HttpStatus { status: 199, .. })
    ));
    assert!(matches!(
        check_response(300, "x"),
        Err(Error::HttpStatus { status: 300, .. })
    ));
}

#[test]
fn http_status_error_keeps_body_verbatim() {
    let body = "e".repeat(2000);
    match check_response(500, &body) {
        Err(Error::HttpStatus { status, body: kept }) => {
            assert_eq!(status, 500);
            assert_eq!(kept, body);
        }
        other => panic!("expected HttpStatus, got {other:?}"),
    }
    // A body whose byte 1024 falls inside a character is kept whole too.
    let body = format!("{}é", "a".repeat(1023));
    match check_response(400, &body) {
        Err(Error::HttpStatus { status: 400, body: kept }) => assert_eq!(kept, body),
        other => panic!("expected HttpStatus, got {other:?}"),
    }
}

#[test]
fn malformed_response_cuts_long_body() {
    let body = "m".repeat(1500);
    match malformed_response(&body) {
        Error::Malformed { body, .. } => {
            assert_eq!(body.len(), 1024 + '…'.len_utf8());
            assert!(body.ends_with('…'));
        }
        other => panic!("expected Malformed, got {other:?}"),
    }
}

#[test]
fn client_rejects_malformed_base_url() {
    let err = IntegritasClient::new(IntegritasConfig {
        api_key: "k".into(),
        base_url: Some("not a url".into()),
        timeout: None,
    })
    .unwrap_err();
    match err {
        Error::Config(msg) => assert_eq!(msg, "base_url is not a valid URL"),
        other => panic!("expected Config, got {other:?}"),
    }
    assert!(matches!(
        IntegritasClient::new(IntegritasConfig {
            api_key: "k".into(),
            base_url: Some("///".into()),
            timeout: None,
        }),
        Err(Error::Config(_))
    ));
}

#[test]
fn requested_timeout_defaults_to_thirty_seconds() {
    assert_eq!(requested_timeout(None), std::time::Duration::from_secs(30));
    assert_eq!(
        requested_timeout(Some(std::time::Duration::from_millis(1500))),
        std::time::Duration::from_millis(1500)
    );
}

#[test]
fn empty_body_on_success_is_malformed() {
    match check_response(200, "") {
        Err(Error::Malformed { hint, body }) => {
            assert_eq!(hint, "empty response body");
            assert!(body.is_empty());
        }
        other => panic!("expected Malformed, got {other:?}"),
    }
}

#[test]
fn nonempty_body_on_success_goes_on() {
    assert!(check_response(200, "{}").is_ok());
    assert!(check_response(299, "not json at all").is_ok());
}

#[test]
fn malformed_response_keeps_body() {
    match malformed_response("not json at all") {
        Error::Malformed { hint, body } => {
            assert_eq!(hint, "response was not the expected JSON shape");
            assert_eq!(body, "not json at all");
        }
        other => panic!("expected Malformed, got {other:?}"),
    }
}

#[test]
fn endpoint_paths() {
    assert_eq!(Endpoint::Stamp.path(), "/v2/timestamp/post");
    assert_eq!(Endpoint::Verify.path(), "/v2/verify/file");
    assert_eq!(Endpoint::Check.path(), "/v2/file/check");
}

#[test]
fn config_default_is_empty() {
    let c = IntegritasConfig::default();
    assert!(c.api_key.is_empty());
    assert!(c.base_url.is_none());
    assert!(c.timeout.is_none());
    let m = StampMetadata::default();
    assert!(m.filename.is_none() && m.filesize.is_none());
}
