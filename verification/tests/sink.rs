use integritas_edge::client::check_response;
use integritas_edge::encoding::encode_hex;
use integritas_edge::text::decimal_string;
use integritas_edge::sink::{canonicalisation_failure, receipt_stamp, sink_failure, stamp_outcome, SinkFailure};
use integritas_edge::{Error, StampResponse};

fn message(f: &SinkFailure) -> &str {
    match f {
        SinkFailure::Transient(m) | SinkFailure::Rejected(m) => m,
    }
}

#[test]
fn decimal_rendering() {
    assert_eq!(decimal_string(0), "0");
    assert_eq!(decimal_string(7), "7");
    assert_eq!(decimal_string(401), "401");
    assert_eq!(decimal_string(u64::MAX), u64::MAX.to_string());
}

#[test]
fn http_failures_are_transient() {
    let err = check_response(503, "busy").unwrap_err();
    let f = sink_failure(err);
    assert!(matches!(f, SinkFailure::Transient(_)));
    assert_eq!(message(&f), "integritas http 503: busy");
}

#[test]
fn other_failures_are_rejected() {
    let f = sink_failure(Error::Config("bad".into()));
    assert!(matches!(f, SinkFailure::Rejected(_)));
    assert_eq!(message(&f), "integritas config: bad");

    let f = sink_failure(Error::InvalidHashLength(31));
    assert!(matches!(f, SinkFailure::Rejected(_)));
    assert_eq!(message(&f), "integritas invalid hash length: 31");

    let f = sink_failure(Error::Malformed {
        hint: "empty response body",
        body: String::new(),
    });
    assert!(matches!(f, SinkFailure::Rejected(_)));
    assert_eq!(message(&f), "integritas malformed (empty response body): ");

    let json_err = serde_json::from_str::<serde_json::Value>("{").unwrap_err();
    let f = sink_failure(Error::Json(json_err));
    assert!(matches!(f, SinkFailure::Rejected(_)));
    assert!(message(&f).starts_with("integritas json: "));
}

#[test]
fn stamp_outcome_depends_on_status() {
    let ok = StampResponse {
        status: "success".into(),
        data: serde_json::Value::Null,
        error: None,
    };
    assert!(ok.succeeded());
    assert!(stamp_outcome(&ok).is_ok());

    let pending = StampResponse {
        status: "pending".into(),
        data: serde_json::Value::Null,
        error: Some("queued".into()),
    };
    assert!(!pending.succeeded());
    match stamp_outcome(&pending) {
        Err(SinkFailure::Transient(m)) => {
            assert_eq!(m, "integritas non-success: status=pending error=Some(\"queued\")")
        }
        other => panic!("expected Transient, got {other:?}"),
    }
    let none = StampResponse {
        status: "failed".into(),
        data: serde_json::Value::Null,
        error: None,
    };
    match stamp_outcome(&none) {
        Err(SinkFailure::Transient(m)) => {
            assert_eq!(m, "integritas non-success: status=failed error=None")
        }
        other => panic!("expected Transient, got {other:?}"),
    }
}

#[test]
fn receipt_stamp_commits_to_blake3() {
    let (digest, meta) = receipt_stamp(b"", "step-7");
    assert_eq!(
        encode_hex(&digest),
        "af1349b9f5f9a1a6a0404dea36dcc9499bcb25c9adc112b7cc9a93cae41f3262"
    );
    assert_eq!(meta.filename.as_deref(), Some("furcate-receipt-step-7"));
    assert_eq!(meta.filesize, Some(0));
    let (_, meta) = receipt_stamp(b"{\"a\":1}", "9");
    assert_eq!(meta.filesize, Some(7));
}

#[test]
fn canonicalisation_failure_is_rejected() {
    let err = serde_json::from_str::<serde_json::Value>("[").unwrap_err();
    let text = err.to_string();
    let f = canonicalisation_failure(err);
    assert!(matches!(f, SinkFailure::Rejected(_)));
    assert_eq!(message(&f), format!("canonicalise receipt: {text}"));
}
