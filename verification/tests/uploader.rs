use geneva_uploader::error::{
    classify_config_client_error, classify_gig_error, ErrorCause, GenevaConfigClientError,
    GenevaUploaderError, GigErrorKind, HttpErrorReport,
};
use geneva_uploader::reply::{narrow_error_code, parse_gig_error_code};
use geneva_uploader::retry::{
    parse_retry_after, parse_retry_after_at, parse_retry_after_value, timestamp_of_reading,
    wait_asked_for,
};
use geneva_uploader::time::{Duration, Timestamp};
use geneva_uploader::uploader::GIG_MAX_CONTENT_LENGTH;
use reqwest::header;

#[test]
fn classify_400_as_bad_request() {
    assert_eq!(classify_gig_error(400, None), GigErrorKind::BadRequest);
}

#[test]
fn classify_414_as_bad_request() {
    assert_eq!(classify_gig_error(414, None), GigErrorKind::BadRequest);
}

#[test]
fn classify_401_as_auth_failure() {
    assert_eq!(classify_gig_error(401, None), GigErrorKind::AuthFailure);
}

#[test]
fn classify_403_as_auth_failure() {
    assert_eq!(classify_gig_error(403, None), GigErrorKind::AuthFailure);
}

#[test]
fn classify_403_with_40200_as_fallback_directive() {
    assert_eq!(classify_gig_error(403, Some(40200)), GigErrorKind::FallbackDirective);
}

#[test]
fn classify_403_with_other_code_as_auth_failure() {
    assert_eq!(classify_gig_error(403, Some(40300)), GigErrorKind::AuthFailure);
}

#[test]
fn classify_408_as_timeout() {
    assert_eq!(classify_gig_error(408, None), GigErrorKind::Timeout);
}

#[test]
fn classify_429_as_rate_limited() {
    assert_eq!(classify_gig_error(429, None), GigErrorKind::RateLimited);
}

#[test]
fn classify_500_as_server_error() {
    assert_eq!(classify_gig_error(500, None), GigErrorKind::ServerError);
}

#[test]
fn classify_503_as_server_error() {
    assert_eq!(classify_gig_error(503, None), GigErrorKind::ServerError);
}

#[test]
fn classify_599_as_server_error() {
    assert_eq!(classify_gig_error(599, None), GigErrorKind::ServerError);
}

#[test]
fn classify_unknown_status() {
    assert_eq!(classify_gig_error(418, None), GigErrorKind::Unknown);
}

#[test]
fn classify_edges_of_the_server_errors() {
    assert_eq!(classify_gig_error(499, None), GigErrorKind::Unknown);
    assert_eq!(classify_gig_error(600, None), GigErrorKind::Unknown);
    assert_eq!(classify_gig_error(503, Some(40200)), GigErrorKind::ServerError);
    assert_eq!(classify_gig_error(401, Some(40200)), GigErrorKind::AuthFailure);
}

#[test]
fn bad_request_is_not_retryable() {
    assert!(!GigErrorKind::BadRequest.is_retryable());
}

#[test]
fn fallback_directive_is_not_retryable() {
    assert!(!GigErrorKind::FallbackDirective.is_retryable());
}

#[test]
fn payload_too_large_is_not_retryable() {
    assert!(!GigErrorKind::PayloadTooLarge.is_retryable());
}

#[test]
fn auth_failure_is_retryable() {
    assert!(GigErrorKind::AuthFailure.is_retryable());
}

#[test]
fn timeout_is_retryable() {
    assert!(GigErrorKind::Timeout.is_retryable());
}

#[test]
fn rate_limited_is_retryable() {
    assert!(GigErrorKind::RateLimited.is_retryable());
}

#[test]
fn server_error_is_retryable() {
    assert!(GigErrorKind::ServerError.is_retryable());
}

#[test]
fn unknown_is_not_retryable() {
    assert!(!GigErrorKind::Unknown.is_retryable());
}

#[test]
fn network_error_is_retryable() {
    assert!(GigErrorKind::NetworkError.is_retryable());
}

#[test]
fn parse_retry_after_present() {
    let mut headers = header::HeaderMap::new();
    headers.insert(header::RETRY_AFTER, "120".parse().unwrap());
    assert_eq!(parse_retry_after(&headers), Some(Duration::from_secs(120)));
}

#[test]
fn parse_retry_after_with_whitespace() {
    let mut headers = header::HeaderMap::new();
    headers.insert(header::RETRY_AFTER, "  60  ".parse().unwrap());
    assert_eq!(parse_retry_after(&headers), Some(Duration::from_secs(60)));
}

#[test]
fn parse_retry_after_missing() {
    let headers = header::HeaderMap::new();
    assert_eq!(parse_retry_after(&headers), None);
}

#[test]
fn parse_retry_after_non_numeric() {
    let mut headers = header::HeaderMap::new();
    headers.insert(header::RETRY_AFTER, "not-a-number".parse().unwrap());
    assert_eq!(parse_retry_after(&headers), None);
}

#[test]
fn parse_retry_after_zero() {
    let mut headers = header::HeaderMap::new();
    headers.insert(header::RETRY_AFTER, "0".parse().unwrap());
    assert_eq!(parse_retry_after(&headers), Some(Duration::from_secs(0)));
}

#[test]
fn parse_retry_after_takes_the_first_value() {
    let mut headers = header::HeaderMap::new();
    headers.append(header::RETRY_AFTER, "7".parse().unwrap());
    headers.append(header::RETRY_AFTER, "8".parse().unwrap());
    headers.insert(header::ACCEPT, "9".parse().unwrap());
    assert_eq!(parse_retry_after(&headers), Some(Duration::from_secs(7)));
}

#[test]
fn parse_retry_after_opaque_bytes() {
    let mut headers = header::HeaderMap::new();
    let value = header::HeaderValue::from_bytes(b"12\xfa").unwrap();
    headers.insert(header::RETRY_AFTER, value);
    assert_eq!(parse_retry_after(&headers), None);
}

#[test]
fn parse_retry_after_far_date_follows_the_clock() {
    let mut headers = header::HeaderMap::new();
    headers.insert(header::RETRY_AFTER, "Fri, 01 Jan 2100 00:00:00 GMT".parse().unwrap());
    let wait = parse_retry_after(&headers).unwrap();
    assert!(wait.as_secs() < 4_102_444_800);
    let at = Timestamp::after_epoch(4_102_444_799, 250_000_000);
    let wait = parse_retry_after_at(&headers, at).unwrap();
    assert_eq!((wait.as_secs(), wait.subsec_nanos()), (0, 750_000_000));
}

#[test]
fn parse_retry_after_http_date_future() {
    let now = Timestamp::after_epoch(1_000_000, 0);
    let header_value = "Mon, 12 Jan 1970 13:48:40 GMT"; // +120s from `now`
    assert_eq!(parse_retry_after_value(header_value, now), Some(Duration::from_secs(120)));
}

#[test]
fn parse_retry_after_http_date_past() {
    let now = Timestamp::after_epoch(1_000_000, 0);
    let header_value = "Mon, 12 Jan 1970 13:45:40 GMT"; // -60s from `now`
    assert_eq!(parse_retry_after_value(header_value, now), Some(Duration::from_secs(0)));
}

#[test]
fn parse_retry_after_http_date_invalid() {
    let now = Timestamp::after_epoch(0, 0);
    assert_eq!(parse_retry_after_value("not-a-date", now), None);
}

#[test]
fn retry_after_number_edges() {
    let now = Timestamp::after_epoch(0, 0);
    assert_eq!(
        parse_retry_after_value("18446744073709551615", now),
        Some(Duration::from_secs(u64::MAX))
    );
    assert_eq!(parse_retry_after_value("18446744073709551616", now), None);
    assert_eq!(parse_retry_after_value("+5", now), Some(Duration::from_secs(5)));
    assert_eq!(parse_retry_after_value("-5", now), None);
    assert_eq!(parse_retry_after_value("+", now), None);
    assert_eq!(parse_retry_after_value("", now), None);
    assert_eq!(parse_retry_after_value("\u{3000}007\u{a0}", now), Some(Duration::from_secs(7)));
}

#[test]
fn retry_after_dates_before_the_epoch() {
    let now = Timestamp::before_epoch(10, 500_000_000);
    let wait = parse_retry_after_value("Wed, 31 Dec 1969 23:59:55 GMT", now).unwrap();
    assert_eq!((wait.as_secs(), wait.subsec_nanos()), (5, 500_000_000));
}

#[test]
fn clock_readings_on_both_sides_of_the_epoch() {
    assert_eq!(timestamp_of_reading(Ok((7, 3))), Timestamp::after_epoch(7, 3));
    assert_eq!(timestamp_of_reading(Err((7, 3))), Timestamp::before_epoch(7, 3));
    let apart = timestamp_of_reading(Ok((7, 3))).duration_since(&timestamp_of_reading(Err((7, 3))));
    assert_eq!((apart.as_secs(), apart.subsec_nanos()), (14, 6));
}

#[test]
fn retry_after_reads_the_date_only_where_there_is_no_number() {
    let now = Timestamp::after_epoch(100, 0);
    let dated = Some((130, 0));
    assert_eq!(wait_asked_for("x", dated, now), Some(Duration::from_secs(30)));
    assert_eq!(wait_asked_for("4", dated, now), Some(Duration::from_secs(4)));
    assert_eq!(wait_asked_for("x", None, now), None);
}

#[test]
fn parse_gig_error_code_present() {
    let body = r#"{"Error":{"Code":40200,"Message":"Blacklisted"}}"#;
    assert_eq!(parse_gig_error_code(body), Some(40200));
}

#[test]
fn parse_gig_error_code_missing_error_field() {
    let body = r#"{"SomethingElse":"value"}"#;
    assert_eq!(parse_gig_error_code(body), None);
}

#[test]
fn parse_gig_error_code_missing_code_field() {
    let body = r#"{"Error":{"Message":"oops"}}"#;
    assert_eq!(parse_gig_error_code(body), None);
}

#[test]
fn parse_gig_error_code_invalid_json() {
    assert_eq!(parse_gig_error_code("not json"), None);
}

#[test]
fn parse_gig_error_code_empty_body() {
    assert_eq!(parse_gig_error_code(""), None);
}

#[test]
fn error_codes_have_32_bits() {
    assert_eq!(parse_gig_error_code(r#"{"Error":{"Code":4294967295}}"#), Some(u32::MAX));
    assert_eq!(parse_gig_error_code(r#"{"Error":{"Code":4294967296}}"#), None);
    assert_eq!(parse_gig_error_code(r#"{"Error":{"Code":0}}"#), Some(0));
    assert_eq!(parse_gig_error_code(r#"{"Error":{"Code":-1}}"#), None);
    assert_eq!(parse_gig_error_code(r#"{"Error":{"Code":"7"}}"#), None);
    assert_eq!(parse_gig_error_code(r#"{"Error":[7]}"#), None);
    assert_eq!(narrow_error_code(Some(4294967296)), None);
    assert_eq!(narrow_error_code(Some(12)), Some(12));
    assert_eq!(narrow_error_code(None), None);
}

#[test]
fn upload_failed_error_exposes_kind_and_retry_after() {
    let err = GenevaUploaderError::UploadFailed {
        status: 429,
        message: "overloaded".into(),
        kind: GigErrorKind::RateLimited,
        retry_after: Some(Duration::from_secs(60)),
        gig_error_code: None,
    };
    assert_eq!(err.kind(), GigErrorKind::RateLimited);
    assert!(err.is_retryable());
    assert_eq!(err.retry_after(), Some(Duration::from_secs(60)));
}

#[test]
fn payload_too_large_error_is_not_retryable() {
    let err = GenevaUploaderError::PayloadTooLarge {
        size: 10_000_000,
        limit: GIG_MAX_CONTENT_LENGTH,
    };
    assert_eq!(err.kind(), GigErrorKind::PayloadTooLarge);
    assert!(!err.is_retryable());
    assert_eq!(err.retry_after(), None);
}

#[test]
fn http_error_classified_as_network_error() {
    let err = GenevaUploaderError::Http { message: "connection reset".into(), is_timeout: false };
    assert_eq!(err.kind(), GigErrorKind::NetworkError);
    assert!(err.is_retryable());
}

#[test]
fn http_timeout_error_classified_as_timeout() {
    let err = GenevaUploaderError::Http { message: "request timed out".into(), is_timeout: true };
    assert_eq!(err.kind(), GigErrorKind::Timeout);
    assert!(err.is_retryable());
}

#[test]
fn config_client_5xx_error_is_retryable() {
    let err = GenevaUploaderError::ConfigClient(GenevaConfigClientError::RequestFailed {
        status: 503,
        message: "service unavailable".into(),
    });
    assert_eq!(err.kind(), GigErrorKind::ServerError);
    assert!(err.is_retryable());
}

#[test]
fn bad_request_error_is_not_retryable() {
    let err = GenevaUploaderError::UploadFailed {
        status: 400,
        message: "invalid moniker".into(),
        kind: GigErrorKind::BadRequest,
        retry_after: None,
        gig_error_code: None,
    };
    assert!(!err.is_retryable());
    assert_eq!(err.retry_after(), None);
}

#[test]
fn max_content_length_is_8mb() {
    assert_eq!(GIG_MAX_CONTENT_LENGTH, 8 * 1024 * 1024);
}

#[test]
fn error_kind_display() {
    assert_eq!(GigErrorKind::BadRequest.to_string(), "BadRequest");
    assert_eq!(GigErrorKind::RateLimited.to_string(), "RateLimited");
    assert_eq!(GigErrorKind::NetworkError.to_string(), "NetworkError");
    assert_eq!(GigErrorKind::FallbackDirective.to_string(), "FallbackDirective");
}

fn report() -> HttpErrorReport {
    HttpErrorReport {
        text: "error sending request".into(),
        url: None,
        status: None,
        is_timeout: false,
        is_connect: false,
        is_body: false,
        is_decode: false,
        is_request: false,
        causes: Vec::new(),
    }
}

#[test]
fn other_errors_are_unknown() {
    let json = GenevaUploaderError::SerdeJson("EOF".into());
    let internal = GenevaUploaderError::InternalError("x".into());
    assert_eq!(json.kind(), GigErrorKind::Unknown);
    assert_eq!(internal.kind(), GigErrorKind::Unknown);
    let text = String::from("x");
    let others = vec![
        GenevaConfigClientError::MsiAuth(text.clone()),
        GenevaConfigClientError::WorkloadIdentityAuth(text.clone()),
        GenevaConfigClientError::AuthInfoNotFound(text.clone()),
        GenevaConfigClientError::JwtTokenError(text.clone()),
        GenevaConfigClientError::Certificate(text.clone()),
        GenevaConfigClientError::MonikerNotFound(text.clone()),
        GenevaConfigClientError::SerdeJson(text.clone()),
        GenevaConfigClientError::InternalError(text),
    ];
    for err in &others {
        assert_eq!(classify_config_client_error(err), GigErrorKind::Unknown);
    }
    let slow = GenevaConfigClientError::Http(HttpErrorReport { is_timeout: true, ..report() });
    assert_eq!(classify_config_client_error(&slow), GigErrorKind::Timeout);
    let broken = GenevaConfigClientError::Http(report());
    assert_eq!(classify_config_client_error(&broken), GigErrorKind::NetworkError);
}

#[test]
fn error_texts() {
    let http = GenevaUploaderError::Http { message: "m".into(), is_timeout: false };
    assert_eq!(http.to_string("c"), "HTTP error: m");
    assert_eq!(GenevaUploaderError::SerdeJson("m".into()).to_string("c"), "JSON error: m");
    assert_eq!(GenevaUploaderError::InternalError("m".into()).to_string("c"), "Internal error: m");
    let config =
        GenevaUploaderError::ConfigClient(GenevaConfigClientError::MsiAuth("m".into()));
    assert_eq!(config.to_string("c"), "Config service error: c");
    let failed = GenevaUploaderError::UploadFailed {
        status: 429,
        message: "overloaded".into(),
        kind: GigErrorKind::RateLimited,
        retry_after: None,
        gig_error_code: None,
    };
    assert_eq!(failed.to_string("c"), "Upload failed (RateLimited, status 429): overloaded");
    let large = GenevaUploaderError::PayloadTooLarge { size: 10_000_000, limit: 8_388_608 };
    assert_eq!(
        large.to_string("c"),
        "Payload too large (10000000 bytes, limit 8388608 bytes)"
    );
}

#[test]
fn http_report_text() {
    assert_eq!(report().describe(), "error sending request, (no io::Error in source chain)");
    let full = HttpErrorReport {
        url: Some("https://gig/".into()),
        status: Some("502 Bad Gateway".into()),
        is_timeout: true,
        is_connect: true,
        causes: vec![
            ErrorCause { text: "client error".into(), io_kind: None },
            ErrorCause { text: "refused".into(), io_kind: Some("ConnectionRefused".into()) },
        ],
        ..report()
    };
    assert_eq!(
        full.describe(),
        "error sending request, url: https://gig/, status: 502 Bad Gateway, kind: timeout, \
         cause[0]: client error, cause[1]: refused (io::ErrorKind::ConnectionRefused)"
    );
    let classes = vec![
        (HttpErrorReport { is_connect: true, is_body: true, ..report() }, "connect"),
        (HttpErrorReport { is_body: true, is_decode: true, ..report() }, "body"),
        (HttpErrorReport { is_decode: true, is_request: true, ..report() }, "decode"),
        (HttpErrorReport { is_request: true, ..report() }, "request"),
    ];
    for (one, class) in &classes {
        assert_eq!(
            one.describe(),
            format!("error sending request, kind: {class}, (no io::Error in source chain)")
        );
    }
    let err = GenevaUploaderError::from(full);
    assert_eq!(err.kind(), GigErrorKind::Timeout);
    assert!(err.to_string("").starts_with("HTTP error: error sending request, url: "));
}
