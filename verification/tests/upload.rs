use geneva_uploader::error::{
    GenevaConfigClientError, GenevaUploaderError, GigErrorKind, HttpErrorReport,
};
use geneva_uploader::payload::BatchMetadata;
use geneva_uploader::reply::IngestionResponse;
use geneva_uploader::time::Duration;
use geneva_uploader::uploader::{
    refused, GenevaUploader, GenevaUploaderConfig, HttpClientSettings, IngestionInfo, UploadAction,
    UploadEvent, UploadJob, UploadState, GIG_MAX_CONTENT_LENGTH,
};
use geneva_uploader::uri::Address;
use reqwest::header;
use std::collections::HashMap;
use std::sync::Arc;

fn config() -> GenevaUploaderConfig {
    GenevaUploaderConfig {
        namespace: "ns".into(),
        source_identity: "Tenant=t/Role=r/RoleInstance=i 1".into(),
        environment: "env".into(),
        config_version: "Ver2v0".into(),
        request_timeout: None,
    }
}

fn uploader() -> GenevaUploader<(), ()> {
    match GenevaUploader::from_config_client(Arc::new(()), config(), |_: HttpClientSettings| Ok(()))
    {
        Ok(uploader) => uploader,
        Err(_) => panic!("no uploader"),
    }
}

fn metadata() -> BatchMetadata {
    BatchMetadata { start_time: 1, end_time: 2, schema_ids: "abc".into() }
}

fn job(size: usize) -> UploadJob {
    UploadJob {
        data: vec![7; size],
        event_name: "Log".into(),
        metadata: metadata(),
        row_count: 3,
    }
}

fn format_timestamp(nanos: u64) -> String {
    format!("2024-01-01T00:00:0{}Z", nanos)
}

fn info() -> IngestionInfo {
    IngestionInfo {
        endpoint: "https://gig.example///".into(),
        auth_token: "tok".into(),
        moniker: "mon".into(),
        monitoring_endpoint: "https://mon.example/?a=b&c".into(),
    }
}

fn report(is_timeout: bool) -> HttpErrorReport {
    HttpErrorReport {
        text: "broken".into(),
        url: None,
        status: None,
        is_timeout,
        is_connect: false,
        is_body: false,
        is_decode: false,
        is_request: false,
        causes: Vec::new(),
    }
}

fn finish(
    step: (UploadState, UploadAction),
) -> (Result<IngestionResponse, GenevaUploaderError>, bool) {
    match step {
        (UploadState::Finished, UploadAction::Finish { outcome, invalidate_cache }) => {
            (outcome, invalidate_cache)
        }
        _ => panic!("not finished"),
    }
}

#[test]
fn client_settings() {
    let settings = HttpClientSettings::new(None);
    assert_eq!(settings.timeout, Duration::from_secs(30));
    assert_eq!(settings.tcp_keepalive, Duration::from_secs(60));
    assert!(settings.http1_only);
    assert_eq!(settings.default_headers.len(), 1);
    assert_eq!(settings.default_headers.get(header::ACCEPT).unwrap(), "application/json");
    let settings = HttpClientSettings::new(Some(Duration::from_secs(5)));
    assert_eq!(settings.timeout, Duration::from_secs(5));
}

#[test]
fn uploader_gets_its_timeout_and_its_build_error() {
    let with_timeout =
        GenevaUploaderConfig { request_timeout: Some(Duration::from_secs(5)), ..config() };
    let mut seen = None;
    let made: Result<GenevaUploader<u8, u8>, _> =
        GenevaUploader::from_config_client(Arc::new(4), with_timeout, |s: HttpClientSettings| {
            seen = Some(s.timeout);
            Ok(9)
        });
    let made = made.unwrap();
    assert_eq!(seen, Some(Duration::from_secs(5)));
    assert_eq!((*made.config_client, made.http_client), (4, 9));
    assert_eq!(made.config.namespace, "ns");

    let failed: Result<GenevaUploader<u8, u8>, _> =
        GenevaUploader::from_config_client(Arc::new(4), config(), |_: HttpClientSettings| {
            Err(report(true))
        });
    let err = failed.err().unwrap();
    assert_eq!(err.kind(), GigErrorKind::Timeout);
    assert_eq!(err.to_string(""), "HTTP error: broken, kind: timeout, (no io::Error in source chain)");
}

fn is_uuid_v4(id: &str) -> bool {
    let parsed = uuid::Uuid::parse_str(id).unwrap();
    parsed.get_version_num() == 4 && parsed.to_string() == id
}

#[test]
fn upload_uri() {
    let make = || {
        uploader()
            .create_upload_uri(
                "https://mon.example/?a=b&c",
                "mon",
                1234,
                "Log",
                &metadata(),
                3,
                |nanos: u64| format!("t{}", nanos),
            )
            .unwrap()
    };
    let uri = make();
    let head = "api/v1/ingestion/ingest?endpoint=https%3A%2F%2Fmon.example%2F%3Fa%3Db%26c\
                &moniker=mon&namespace=ns&event=Log&version=Ver2v0&sourceUniqueId=";
    let tail = "&sourceIdentity=Tenant%3Dt%2FRole%3Dr%2FRoleInstance%3Di+1&startTime=t1&endTime=t2\
                &format=centralbond/lz4hc&dataSize=1234&minLevel=2&schemaIds=abc&rowCount=3";
    let id = uri.strip_prefix(head).unwrap().strip_suffix(tail).unwrap();
    assert!(is_uuid_v4(id));
    assert_ne!(uri, make());
}

#[test]
fn address_encodes_and_reads_back() {
    let endpoint = "a*-._Z9 \u{e9}~\"%+/";
    let address = Address {
        monitoring_endpoint: endpoint,
        moniker: "m",
        namespace: "n",
        event_name: "e",
        version: "v",
        source_unique_id: "id",
        source_identity: "",
        start_time: "s",
        end_time: "t",
        data_size: 0,
        schema_ids: "",
        row_count: usize::MAX,
    };
    let uri = address.uri();
    assert!(uri.starts_with("api/v1/ingestion/ingest?endpoint=a*-._Z9+%C3%A9%7E%22%25%2B%2F&"));
    assert!(uri.ends_with("&dataSize=0&minLevel=2&schemaIds=&rowCount=18446744073709551615"));
    let query = uri.split_once('?').unwrap().1;
    let first = url::form_urlencoded::parse(query.as_bytes()).next().unwrap();
    assert_eq!((first.0.as_ref(), first.1.as_ref()), ("endpoint", endpoint));
}

#[test]
fn oversized_payload_is_refused_unsent() {
    let step = uploader().upload(UploadState::Ready(job(GIG_MAX_CONTENT_LENGTH + 1)), UploadEvent::Start, format_timestamp);
    let (outcome, invalidate) = finish(step);
    let err = outcome.err().unwrap();
    assert!(matches!(
        err,
        GenevaUploaderError::PayloadTooLarge { size: 8_388_609, limit: 8_388_608 }
    ));
    assert!(!err.is_retryable() && !invalidate);
}

#[test]
fn largest_payload_is_taken() {
    let step = uploader().upload(UploadState::Ready(job(GIG_MAX_CONTENT_LENGTH)), UploadEvent::Start, format_timestamp);
    assert!(matches!(step, (UploadState::AwaitingInfo(_), UploadAction::FetchInfo)));
}

#[test]
fn accepted_upload_step_by_step() {
    let uploader = uploader();
    let (state, action) = uploader.upload(UploadState::Ready(job(5)), UploadEvent::Start, format_timestamp);
    assert!(matches!(action, UploadAction::FetchInfo));
    assert!(state.is_expected(&UploadEvent::Info(Ok(info()))));
    assert!(!state.is_expected(&UploadEvent::Start));
    let (state, action) = uploader.upload(state, UploadEvent::Info(Ok(info())), format_timestamp);
    match action {
        UploadAction::Post { url, authorization, body } => {
            assert!(url.starts_with("https://gig.example/api/v1/ingestion/ingest?endpoint="));
            assert!(url.contains("&dataSize=5&"));
            assert!(url.contains("&startTime=2024-01-01T00:00:01Z&endTime=2024-01-01T00:00:02Z&"));
            assert!(url.ends_with("&schemaIds=abc&rowCount=3"));
            assert_eq!(authorization, "Bearer tok");
            assert_eq!(body, vec![7; 5]);
        }
        _ => panic!("no post"),
    }
    let mut headers = header::HeaderMap::new();
    headers.insert(header::RETRY_AFTER, "3".parse().unwrap());
    let (state, action) = uploader.upload(state, UploadEvent::Reply(Ok((202, headers))), format_timestamp);
    assert!(matches!(action, UploadAction::ReadBody));
    let body = r#"{"ticket":"t-1"}"#;
    let (state, action) = uploader.upload(state, UploadEvent::Body(Ok(body.into())), format_timestamp);
    assert!(matches!(action, UploadAction::ReadTicket { reply } if reply == body));
    let response = IngestionResponse { ticket: "t-1".into(), extra: HashMap::new() };
    let (outcome, invalidate) =
        finish(uploader.upload(state, UploadEvent::Ticket(Ok(response)), format_timestamp));
    assert_eq!(outcome.unwrap().ticket, "t-1");
    assert!(!invalidate);
}

#[test]
fn refused_upload_is_classified() {
    let uploader = uploader();
    let mut headers = header::HeaderMap::new();
    headers.insert(header::RETRY_AFTER, "120".parse().unwrap());
    let (state, _) =
        uploader.upload(UploadState::AwaitingReply, UploadEvent::Reply(Ok((429, headers))), format_timestamp);
    let (outcome, invalidate) = finish(uploader.upload(state, UploadEvent::Body(Ok("slow".into())), format_timestamp));
    let err = outcome.err().unwrap();
    assert_eq!(err.kind(), GigErrorKind::RateLimited);
    assert_eq!(err.retry_after(), Some(Duration::from_secs(120)));
    assert_eq!(err.to_string(""), "Upload failed (RateLimited, status 429): slow");
    assert!(!invalidate);
}

#[test]
fn token_is_dropped_on_auth_failures_alone() {
    let uploader = uploader();
    let fallback = r#"{"Error":{"Code":40200}}"#;
    let cases = vec![
        (401, fallback, GigErrorKind::AuthFailure, true),
        (403, "", GigErrorKind::AuthFailure, true),
        (403, r#"{"Error":{"Code":1}}"#, GigErrorKind::AuthFailure, true),
        (403, fallback, GigErrorKind::FallbackDirective, false),
        (403, r#"{"Error":{"Code":4294967296}}"#, GigErrorKind::AuthFailure, true),
        (500, "", GigErrorKind::ServerError, false),
        (200, "", GigErrorKind::Unknown, false),
    ];
    for (status, body, kind, dropped) in cases {
        let state = UploadState::AwaitingBody { status, retry_after: None };
        let (outcome, invalidate) =
            finish(uploader.upload(state, UploadEvent::Body(Ok(body.into())), format_timestamp));
        assert_eq!(outcome.err().unwrap().kind(), kind);
        assert_eq!(invalidate, dropped);
    }
    let (outcome, invalidate) = finish(refused(403, "b".into(), None, Some(40200)));
    assert!(!invalidate);
    assert!(matches!(
        outcome,
        Err(GenevaUploaderError::UploadFailed {
            status: 403,
            kind: GigErrorKind::FallbackDirective,
            gig_error_code: Some(40200),
            ..
        })
    ));
}

#[test]
fn failures_on_the_way() {
    let uploader = uploader();
    let config_error = GenevaConfigClientError::RequestFailed { status: 401, message: "m".into() };
    let (outcome, invalidate) = finish(
        uploader.upload(UploadState::AwaitingInfo(job(1)), UploadEvent::Info(Err(config_error)), format_timestamp),
    );
    let err = outcome.err().unwrap();
    assert!(matches!(err, GenevaUploaderError::ConfigClient(_)));
    assert_eq!(err.kind(), GigErrorKind::AuthFailure);
    assert!(!invalidate);

    let (outcome, _) = finish(
        uploader.upload(UploadState::AwaitingReply, UploadEvent::Reply(Err(report(false))), format_timestamp),
    );
    assert_eq!(outcome.err().unwrap().kind(), GigErrorKind::NetworkError);

    let state = UploadState::AwaitingBody { status: 202, retry_after: None };
    let (outcome, _) = finish(uploader.upload(state, UploadEvent::Body(Err(report(true))), format_timestamp));
    assert_eq!(outcome.err().unwrap().kind(), GigErrorKind::Timeout);

    let (outcome, _) = finish(
        uploader.upload(UploadState::AwaitingTicket, UploadEvent::Ticket(Err("EOF".into())), format_timestamp),
    );
    assert_eq!(outcome.err().unwrap().to_string(""), "JSON error: EOF");
}

struct Settings(u8);

#[test]
fn clones_share_the_config_client() {
    let uploader = GenevaUploader::from_config_client(
        Arc::new(Settings(9)),
        config(),
        |_: HttpClientSettings| Ok("http"),
    );
    let uploader = match uploader {
        Ok(uploader) => uploader,
        Err(_) => panic!("no uploader"),
    };
    let copy = uploader.clone();
    assert!(Arc::ptr_eq(&copy.config_client, &uploader.config_client));
    assert_eq!((copy.config_client.0, copy.http_client), (9, "http"));
    assert_eq!(copy.config.namespace, "ns");
    assert_eq!(copy.config.source_identity, uploader.config.source_identity);
    assert_eq!(copy.config.environment, "env");
    assert_eq!(copy.config.config_version, "Ver2v0");
    assert!(copy.config.request_timeout.is_none());
}
