use geneva_uploader::client::{
    relabel_error, AuthMethod, GenevaClient, GenevaClientConfig, GenevaConfigClientConfig,
};
use geneva_uploader::error::{
    GenevaConfigClientError, GenevaUploaderError, GigErrorKind, HttpErrorReport,
};
use geneva_uploader::otlp::{
    gather_records, gather_spans, ResourceLogs, ResourceSpans, ScopeLogs, ScopeSpans,
};
use geneva_uploader::payload::{
    BatchMetadata, CentralBlob, EncodedBatch, MetadataFields, RawRow,
};
use geneva_uploader::raw_batch::{raw_outcome, time_range};
use geneva_uploader::reply::IngestionResponse;
use geneva_uploader::text::{lower_hex_string, parse_u64, trim, trim_end_slashes, visible_ascii};
use geneva_uploader::uploader::HttpClientSettings;
use std::collections::HashMap;

fn config(auth_method: AuthMethod, msi_resource: Option<String>) -> GenevaClientConfig {
    GenevaClientConfig {
        endpoint: "https://gcs".into(),
        environment: "env".into(),
        account: "acc".into(),
        namespace: "ns".into(),
        region: "reg".into(),
        config_major_version: 12,
        auth_method,
        tenant: "t".into(),
        role_name: "r".into(),
        role_instance: "i".into(),
        msi_resource,
    }
}

fn client() -> GenevaClient<u8, u8> {
    let made = GenevaClient::new(
        config(AuthMethod::MockAuth, None),
        |_: GenevaConfigClientConfig| Ok(1),
        |_: HttpClientSettings| Ok(2),
    );
    match made {
        Ok(client) => client,
        Err(e) => panic!("{e}"),
    }
}

fn row(timestamp_ns: u64, byte: u8) -> RawRow {
    RawRow { timestamp_ns, row_data: vec![byte] }
}

fn batch(event_name: &str) -> EncodedBatch {
    EncodedBatch {
        event_name: event_name.into(),
        data: vec![1, 2, 3],
        metadata: BatchMetadata { start_time: 4, end_time: 5, schema_ids: "ff".into() },
        row_count: 6,
    }
}

#[test]
fn managed_identity_needs_a_resource() {
    let methods = vec![
        AuthMethod::SystemManagedIdentity,
        AuthMethod::UserManagedIdentity { client_id: "c".into() },
        AuthMethod::UserManagedIdentityByObjectId { object_id: "o".into() },
        AuthMethod::UserManagedIdentityByResourceId { resource_id: "r".into() },
    ];
    for method in methods {
        let refused: Result<GenevaClient<u8, u8>, String> = GenevaClient::new(
            config(method.clone(), None),
            |_: GenevaConfigClientConfig| panic!("connected"),
            |_: HttpClientSettings| panic!("built"),
        );
        assert_eq!(
            refused.err().unwrap(),
            "msi_resource must be provided for managed identity auth"
        );
        let made: Result<GenevaClient<u8, u8>, String> = GenevaClient::new(
            config(method, Some("res".into())),
            |c: GenevaConfigClientConfig| {
                assert_eq!(c.msi_resource, Some("res".into()));
                Ok(1)
            },
            |_: HttpClientSettings| Ok(2),
        );
        assert!(made.is_ok());
    }
    for method in vec![
        AuthMethod::Certificate { path: "p".into(), password: "w".into() },
        AuthMethod::WorkloadIdentity { resource: "r".into() },
    ] {
        let made: Result<GenevaClient<u8, u8>, String> = GenevaClient::new(
            config(method, None),
            |_: GenevaConfigClientConfig| Ok(1),
            |_: HttpClientSettings| Ok(2),
        );
        assert!(made.is_ok());
    }
}

#[test]
fn client_hands_its_configuration_on() {
    let made: Result<GenevaClient<u8, u8>, String> = GenevaClient::new(
        config(AuthMethod::MockAuth, None),
        |c: GenevaConfigClientConfig| {
            assert_eq!(
                (c.endpoint, c.environment, c.account, c.namespace, c.region),
                ("https://gcs".into(), "env".into(), "acc".into(), "ns".into(), "reg".into())
            );
            assert_eq!(c.config_major_version, 12);
            Ok(1)
        },
        |s: HttpClientSettings| {
            assert_eq!(s.timeout.as_secs(), 30);
            Ok(2)
        },
    );
    let client = made.ok().unwrap().clone();
    let uploader = client.uploader();
    assert_eq!((*uploader.config_client, uploader.http_client), (1, 2));
    assert_eq!(uploader.config.namespace, "ns");
    assert_eq!(uploader.config.environment, "env");
    assert_eq!(uploader.config.config_version, "Ver12v0");
    assert_eq!(uploader.config.source_identity, "Tenant=t/Role=r/RoleInstance=i");
    let fields = client.metadata_fields();
    assert_eq!((fields.env_name.as_str(), fields.env_ver.as_str()), ("env", "Ver12v0"));
    assert_eq!((fields.tenant.as_str(), fields.role.as_str()), ("t", "r"));
    assert_eq!((fields.role_instance.as_str(), fields.namespace.as_str()), ("i", "ns"));
    assert_eq!(fields.event_version, "Ver12v0");
}

#[test]
fn client_reports_what_could_not_be_made() {
    let failed: Result<GenevaClient<u8, u8>, String> = GenevaClient::new(
        config(AuthMethod::MockAuth, None),
        |_: GenevaConfigClientConfig| Err("no cert".into()),
        |_: HttpClientSettings| panic!("built"),
    );
    assert_eq!(failed.err().unwrap(), "GenevaConfigClient init failed: no cert");
    let failed: Result<GenevaClient<u8, u8>, String> = GenevaClient::new(
        config(AuthMethod::MockAuth, None),
        |_: GenevaConfigClientConfig| Ok(1),
        |_: HttpClientSettings| {
            Err(HttpErrorReport {
                text: "builder error".into(),
                url: None,
                status: None,
                is_timeout: false,
                is_connect: false,
                is_body: false,
                is_decode: false,
                is_request: false,
                causes: Vec::new(),
            })
        },
    );
    assert_eq!(
        failed.err().unwrap(),
        "GenevaUploader init failed: HTTP error: builder error, (no io::Error in source chain)"
    );
}

fn logs() -> Vec<ResourceLogs<u32>> {
    let scope = |log_records: Vec<u32>| ScopeLogs { log_records };
    vec![
        ResourceLogs { scope_logs: vec![scope(vec![1, 2]), scope(vec![]), scope(vec![3])] },
        ResourceLogs { scope_logs: vec![] },
        ResourceLogs { scope_logs: vec![scope(vec![4])] },
    ]
}

fn spans() -> Vec<ResourceSpans<u32>> {
    let scope = |spans: Vec<u32>| ScopeSpans { spans };
    vec![
        ResourceSpans { scope_spans: vec![scope(vec![5]), scope(vec![6, 7])] },
        ResourceSpans { scope_spans: vec![scope(vec![]), scope(vec![8])] },
    ]
}

#[test]
fn records_and_spans_are_gathered_in_order() {
    assert_eq!(gather_records(&logs()), vec![&1, &2, &3, &4]);
    assert_eq!(gather_spans(&spans()), vec![&5, &6, &7, &8]);
    assert!(gather_records::<u8>(&[]).is_empty());
}

#[test]
fn logs_and_spans_go_to_the_encoder() {
    let client = client();
    let logs = logs();
    let spans = spans();
    let encoded = client.encode_and_compress_logs(&logs, |records, fields| {
        assert_eq!(records, vec![&1, &2, &3, &4]);
        assert_eq!(fields.namespace, "ns");
        Ok(vec![batch("Log")])
    });
    assert_eq!(encoded.unwrap()[0].event_name, "Log");
    let failed = client.encode_and_compress_logs(&logs, |_, _| Err("lz4".into()));
    assert_eq!(failed.err().unwrap(), "Compression failed: lz4");
    let encoded = client.encode_and_compress_spans(&spans, |gathered, fields| {
        assert_eq!(gathered, vec![&5, &6, &7, &8]);
        assert_eq!(fields.tenant, "t");
        Ok(vec![batch("Span")])
    });
    assert_eq!(encoded.unwrap()[0].event_name, "Span");
    let failed = client.encode_and_compress_spans(&spans, |_, _| Err("lz4".into()));
    assert_eq!(failed.err().unwrap(), "Compression failed: lz4");
    assert_eq!(relabel_error::<u8>("a: ", Err("b".into())), Err("a: b".into()));
    assert_eq!(relabel_error::<u8>("a: ", Ok(3)), Ok(3));
}

#[test]
fn raw_batch_without_rows_is_no_batch() {
    let client = client();
    let fields: Vec<u8> = vec![1];
    let encoded = client.encode_raw_batch(
        &fields,
        "Ev",
        9,
        &[],
        |_: &'static str, _: &str, _: &[u8]| panic!("schema"),
        |_: &MetadataFields| panic!("metadata"),
        |_: CentralBlob<'_, u8>| panic!("blob"),
        |_: Vec<u8>| panic!("compress"),
    );
    assert!(encoded.unwrap().is_empty());
}

#[test]
fn raw_batch_of_rows() {
    let client = client();
    let fields: Vec<u8> = vec![1, 2];
    let rows = vec![row(30, 1), row(0, 2), row(10, 3), row(20, 4)];
    let encoded = client.encode_raw_batch(
        &fields,
        "Ev",
        9,
        &rows,
        |name: &'static str, namespace: &str, of: &[u8]| {
            assert_eq!((name, namespace, of), ("CustomRecord", "ns", &[1u8, 2][..]));
            b"abcdefghijklmnopqrstuvwxyz".to_vec()
        },
        |of: &MetadataFields| format!("tenant={}", of.tenant),
        |blob: CentralBlob<'_, u8>| {
            assert_eq!((blob.version, blob.format), (1, 2));
            assert_eq!(blob.metadata, "tenant=t");
            assert_eq!(blob.schemas.len(), 1);
            assert_eq!(blob.schemas[0].id, 1);
            assert_eq!(blob.schemas[0].md5[..2], [0xc3, 0xfc]);
            assert_eq!(blob.schemas[0].schema, b"abcdefghijklmnopqrstuvwxyz");
            assert_eq!(blob.schemas[0].fields, &[1, 2]);
            assert_eq!(blob.events.len(), 4);
            for (i, event) in blob.events.iter().enumerate() {
                assert_eq!((event.schema_id, event.level), (1, 9));
                assert_eq!(event.event_name.as_str(), "Ev");
                assert_eq!(event.row, vec![i as u8 + 1]);
            }
            vec![42]
        },
        |bytes: Vec<u8>| {
            assert_eq!(bytes, vec![42]);
            Ok(vec![43, 44])
        },
    );
    let batches = encoded.unwrap();
    assert_eq!(batches.len(), 1);
    assert_eq!(batches[0].event_name, "Ev");
    assert_eq!(batches[0].data, vec![43, 44]);
    assert_eq!(batches[0].metadata.schema_ids, "c3fcd3d76192e4007dfb496cca67e13b");
    assert_eq!((batches[0].metadata.start_time, batches[0].metadata.end_time), (10, 30));
    assert_eq!(batches[0].row_count, 4);
}

#[test]
fn raw_batch_that_cannot_be_compressed() {
    let client = client();
    let failed = client.encode_raw_batch(
        &[0u8],
        "Ev",
        9,
        &[row(1, 1)],
        |_: &'static str, _: &str, _: &[u8]| Vec::new(),
        |_: &MetadataFields| String::new(),
        |_: CentralBlob<'_, u8>| Vec::new(),
        |_: Vec<u8>| Err("lz4".into()),
    );
    assert_eq!(failed.err().unwrap(), "compression failed: lz4");
    assert_eq!(raw_outcome("Ev", &[0; 16], &[], Err("x".into())).err().unwrap(), "compression failed: x");
}

#[test]
fn raw_batch_metadata_depends_on_fields_and_timestamps_alone() {
    let client = client();
    let encode = |event_name: &str, level: u8, rows: &[RawRow]| {
        let mut batches = client
            .encode_raw_batch(
                &[1u8, 2],
                event_name,
                level,
                rows,
                |name: &'static str, namespace: &str, of: &[u8]| {
                    [name.as_bytes(), namespace.as_bytes(), of].concat()
                },
                |of: &MetadataFields| of.tenant.clone(),
                |blob: CentralBlob<'_, u8>| vec![blob.events[0].level],
                |bytes: Vec<u8>| Ok(bytes),
            )
            .unwrap();
        batches.remove(0)
    };
    let a = encode("One", 3, &[row(5, 1), row(0, 2), row(9, 3), row(5, 4)]);
    let b = encode("Two", 4, &[row(9, 7), row(5, 7), row(5, 8), row(0, 9)]);
    assert_eq!(a.metadata.start_time, b.metadata.start_time);
    assert_eq!(a.metadata.end_time, b.metadata.end_time);
    assert_eq!(a.metadata.schema_ids, b.metadata.schema_ids);
    assert_eq!(a.row_count, b.row_count);
    assert_eq!((a.metadata.start_time, a.metadata.end_time, a.row_count), (5, 9, 4));
}

#[test]
fn time_ranges() {
    assert_eq!(time_range(&[]), (0, 0));
    assert_eq!(time_range(&[row(0, 1), row(0, 2)]), (0, 0));
    assert_eq!(time_range(&[row(7, 1)]), (7, 7));
    assert_eq!(time_range(&[row(7, 1), row(0, 1)]), (7, 7));
    assert_eq!(time_range(&[row(u64::MAX, 1)]), (0, u64::MAX));
    assert_eq!(time_range(&[row(u64::MAX, 1), row(5, 1)]), (5, u64::MAX));
}

#[test]
fn uploading_a_batch() {
    let client = client();
    let batch = batch("Log");
    let job = client.upload_job(&batch);
    assert_eq!((job.data, job.event_name, job.row_count), (vec![1, 2, 3], "Log".into(), 6));
    assert_eq!((job.metadata.start_time, job.metadata.end_time), (4, 5));
    assert_eq!(job.metadata.schema_ids, "ff");

    let response = IngestionResponse { ticket: "t".into(), extra: HashMap::new() };
    assert_eq!(client.upload_batch(&batch, Ok(response), ""), Ok(()));
    let err = GenevaUploaderError::UploadFailed {
        status: 503,
        message: "down".into(),
        kind: GigErrorKind::ServerError,
        retry_after: None,
        gig_error_code: None,
    };
    assert_eq!(
        client.upload_batch(&batch, Err(err), ""),
        Err("Geneva upload failed: Upload failed (ServerError, status 503): down Event: Log".into())
    );
    let err = GenevaUploaderError::ConfigClient(GenevaConfigClientError::MsiAuth("x".into()));
    assert_eq!(
        client.upload_batch(&batch, Err(err), "no token"),
        Err("Geneva upload failed: Config service error: no token Event: Log".into())
    );
}

#[test]
fn text_helpers() {
    assert_eq!(lower_hex_string(&[0x00, 0x9f, 0xa0]), "009fa0");
    assert_eq!(geneva_uploader::text::decimal_string(0), "0");
    assert_eq!(geneva_uploader::text::decimal_string(u64::MAX), u64::MAX.to_string());
    for n in vec![0, 9, 10, 12345, u64::MAX] {
        assert_eq!(parse_u64(&geneva_uploader::text::decimal_string(n)), Some(n));
    }
    for s in vec!["", " ", " a b ", "\t\u{85}x\u{2029}", "\u{200b}y\u{1680}", "z"] {
        assert_eq!(trim(s), s.trim());
    }
    assert_eq!(trim_end_slashes("https://a//"), "https://a");
    assert_eq!(trim_end_slashes("///"), "");
    assert_eq!(trim_end_slashes("/a"), "/a");
    assert_eq!(visible_ascii(b"a\tb~"), Some("a\tb~".into()));
    assert_eq!(visible_ascii(b"a\x7f"), None);
    assert_eq!(visible_ascii(&[0x1f]), None);
}
