//! High-level GenevaClient for user code, on top of the uploader.
use std::sync::Arc;
use vstd::prelude::*;
use vstd::string::StringExecFns;

use crate::error::{GenevaUploaderError, HttpErrorReport};
use crate::otlp::{
    all_records, all_spans, gather_records, gather_spans, holds_every_record, holds_every_span,
    lemma_all_records_hold_every_record, lemma_all_spans_hold_every_span, ResourceLogs,
    ResourceSpans,
};
use crate::payload::{share, CentralBlob, EncodedBatch, MetadataFields, RawRow};
use crate::raw_batch::{
    batch_tells_the_rows, carries_the_rows, has_the_one_schema, is_raw_blob, is_raw_outcome,
    law_time_range_depends_on_the_timestamps_alone, law_time_range_is_unique,
    lemma_outcome_tells_the_rows, lemma_raw_blob_carries_the_rows, md5_digest, raw_blob,
    raw_outcome, same_timestamps, RAW_RECORD_NAME,
};
use crate::reply::IngestionResponse;
use crate::text::{decimal, decimal_string, lemma_decimal_spells_the_number, spells_number};
use crate::uploader::{
    asks_for_json_within, lemma_settings_ask_for_json, settings_for, GenevaUploader,
    GenevaUploaderConfig, HttpClientSettings, UploadJob,
};

verus! {

/// How the client proves to the configuration service who it is.
#[derive(Debug, Clone)]
pub enum AuthMethod {
    /// A client certificate in a file.
    Certificate { path: String, password: String },
    /// The identity that the platform manages for the machine.
    SystemManagedIdentity,
    /// A managed identity, by its client ID.
    UserManagedIdentity { client_id: String },
    /// A managed identity, by its object ID.
    UserManagedIdentityByObjectId { object_id: String },
    /// A managed identity, by its resource ID.
    UserManagedIdentityByResourceId { resource_id: String },
    /// A workload identity.
    WorkloadIdentity { resource: String },
    /// No proof at all, for trials against a service that asks for none.
    MockAuth,
}

/// Configuration for GenevaClient (user-facing)
#[derive(Clone, Debug)]
pub struct GenevaClientConfig {
    pub endpoint: String,
    pub environment: String,
    pub account: String,
    pub namespace: String,
    pub region: String,
    pub config_major_version: u32,
    pub auth_method: AuthMethod,
    pub tenant: String,
    pub role_name: String,
    pub role_instance: String,
    /// Required for Managed Identity variants
    pub msi_resource: Option<String>,
}

/// Configuration for the client of the configuration service.
#[derive(Clone, Debug)]
pub struct GenevaConfigClientConfig {
    pub endpoint: String,
    pub environment: String,
    pub account: String,
    pub namespace: String,
    pub region: String,
    pub config_major_version: u32,
    pub auth_method: AuthMethod,
    pub msi_resource: Option<String>,
}

impl GenevaClientConfig {
    /// The authentication needs an MSI resource, and there is none.
    pub open spec fn lacks_msi_resource(self) -> bool {
        &&& self.msi_resource is None
        &&& {
            ||| self.auth_method is SystemManagedIdentity
            ||| self.auth_method is UserManagedIdentity
            ||| self.auth_method is UserManagedIdentityByObjectId
            ||| self.auth_method is UserManagedIdentityByResourceId
        }
    }

    /// The part of the configuration that goes to the configuration service's client.
    pub open spec fn config_client_config(self) -> GenevaConfigClientConfig {
        GenevaConfigClientConfig {
            endpoint: self.endpoint,
            environment: self.environment,
            account: self.account,
            namespace: self.namespace,
            region: self.region,
            config_major_version: self.config_major_version,
            auth_method: self.auth_method,
            msi_resource: self.msi_resource,
        }
    }

    /// The configuration's version as the gateway names it.
    pub open spec fn version_text(self) -> Seq<char> {
        "Ver"@ + decimal(self.config_major_version as nat) + "v0"@
    }

    /// The source's identity as the gateway names it.
    pub open spec fn source_identity_text(self) -> Seq<char> {
        "Tenant="@ + self.tenant@ + "/Role="@ + self.role_name@ + "/RoleInstance="@
            + self.role_instance@
    }

    /// The fields that every event carries under this configuration.
    pub open spec fn has_metadata(self, fields: MetadataFields) -> bool {
        &&& fields.env_name == self.environment
        &&& fields.env_ver@ == self.version_text()
        &&& fields.tenant == self.tenant
        &&& fields.role == self.role_name
        &&& fields.role_instance == self.role_instance
        &&& fields.namespace == self.namespace
        &&& fields.event_version@ == self.version_text()
    }

    /// The uploader's configuration under this one.
    pub open spec fn has_uploader_config(self, config: GenevaUploaderConfig) -> bool {
        &&& config.namespace == self.namespace
        &&& config.source_identity@ == self.source_identity_text()
        &&& config.environment == self.environment
        &&& config.config_version@ == self.version_text()
        &&& config.request_timeout is None
    }
}

/// Main user-facing client for Geneva ingestion: `C` is the client of the configuration service,
/// `H` the HTTP client.
pub struct GenevaClient<C, H> {
    uploader: Arc<GenevaUploader<C, H>>,
    metadata_fields: MetadataFields,
}

impl<C, H> GenevaClient<C, H> {
    /// The uploader names the same namespace, environment and version as the fields of the events.
    #[verifier::type_invariant]
    spec fn agrees(self) -> bool {
        &&& self.uploader.config.namespace == self.metadata_fields.namespace
        &&& self.uploader.config.environment == self.metadata_fields.env_name
        &&& self.uploader.config.config_version == self.metadata_fields.event_version
    }

    pub closed spec fn spec_uploader(self) -> GenevaUploader<C, H> {
        *self.uploader
    }

    pub closed spec fn spec_metadata_fields(self) -> MetadataFields {
        self.metadata_fields
    }

    /// The client's uploader.
    pub fn uploader(&self) -> (r: &GenevaUploader<C, H>)
        ensures
            *r == self.spec_uploader(),
            r.config.namespace == self.spec_metadata_fields().namespace,
            r.config.environment == self.spec_metadata_fields().env_name,
            r.config.config_version == self.spec_metadata_fields().event_version,
    {
        proof {
            use_type_invariant(self);
        }
        &*self.uploader
    }

    /// The fields that every event of the client carries.
    pub fn metadata_fields(&self) -> (r: &MetadataFields)
        ensures
            *r == self.spec_metadata_fields(),
    {
        &self.metadata_fields
    }

    /// Makes a client. `connect` makes the client of the configuration service, and gives the text
    /// of its error if it cannot; `build_h1_client` makes the HTTP client. Neither is called if the
    /// configuration lacks the MSI resource that its authentication needs, and the second is not
    /// called if the first fails.
    pub fn new<
        K: FnOnce(GenevaConfigClientConfig) -> Result<C, String>,
        B: FnOnce(HttpClientSettings) -> Result<H, HttpErrorReport>,
    >(cfg: GenevaClientConfig, connect: K, build_h1_client: B) -> (r: Result<
        GenevaClient<C, H>,
        String,
    >)
        requires
            !cfg.lacks_msi_resource() ==> call_requires(connect, (cfg.config_client_config(),)),
            !cfg.lacks_msi_resource() ==> forall|config_client: C, settings: HttpClientSettings|
                #[trigger] call_ensures(
                    connect,
                    (cfg.config_client_config(),),
                    Ok::<C, String>(config_client),
                ) && settings_for(None, settings) ==> #[trigger]
                    call_requires(build_h1_client, (settings,)),
        ensures
            cfg.lacks_msi_resource() ==> (r matches Err(m) && m@
                == "msi_resource must be provided for managed identity auth"@),
            !cfg.lacks_msi_resource() ==> exists|connected: Result<C, String>|
                {
                    &&& #[trigger] call_ensures(connect, (cfg.config_client_config(),), connected)
                    &&& match connected {
                        Err(e) => r matches Err(m) && m@ == "GenevaConfigClient init failed: "@
                            + e@,
                        Ok(config_client) => exists|
                            settings: HttpClientSettings,
                            built: Result<H, HttpErrorReport>,
                        |
                            {
                                &&& settings_for(None, settings)
                                &&& #[trigger] call_ensures(build_h1_client, (settings,), built)
                                &&& match built {
                                    Err(report) => r matches Err(m) && m@
                                        == "GenevaUploader init failed: "@ + ("HTTP error: "@
                                        + report.full_text()),
                                    Ok(http_client) => {
                                        &&& r matches Ok(client)
                                        &&& *client.spec_uploader().config_client == config_client
                                        &&& client.spec_uploader().http_client == http_client
                                        &&& cfg.has_uploader_config(client.spec_uploader().config)
                                        &&& cfg.has_metadata(client.spec_metadata_fields())
                                    },
                                }
                            },
                    }
                },
    {
        // Managed identity variants need an MSI resource.
        match &cfg.auth_method {
            AuthMethod::SystemManagedIdentity
            | AuthMethod::UserManagedIdentity { .. }
            | AuthMethod::UserManagedIdentityByObjectId { .. }
            | AuthMethod::UserManagedIdentityByResourceId { .. } => {
                if cfg.msi_resource.is_none() {
                    return Err(
                        "msi_resource must be provided for managed identity auth".to_owned(),
                    );
                }
            },
            AuthMethod::Certificate { .. } => {},
            AuthMethod::WorkloadIdentity { .. } => {},
            AuthMethod::MockAuth => {},
        }
        let config_client_config = GenevaConfigClientConfig {
            endpoint: cfg.endpoint,
            environment: cfg.environment.clone(),
            account: cfg.account,
            namespace: cfg.namespace.clone(),
            region: cfg.region,
            config_major_version: cfg.config_major_version,
            auth_method: cfg.auth_method,
            msi_resource: cfg.msi_resource,
        };
        let connected = connect(config_client_config);
        assert(call_ensures(connect, (cfg.config_client_config(),), connected));
        let config_client = match connected {
            Ok(config_client) => Arc::new(config_client),
            Err(e) => {
                return Err("GenevaConfigClient init failed: ".to_owned().concat(e.as_str()));
            },
        };

        let mut source_identity = "Tenant=".to_owned();
        source_identity.append(cfg.tenant.as_str());
        source_identity.append("/Role=");
        source_identity.append(cfg.role_name.as_str());
        source_identity.append("/RoleInstance=");
        source_identity.append(cfg.role_instance.as_str());

        let mut config_version = "Ver".to_owned();
        config_version.append(decimal_string(cfg.config_major_version as u64).as_str());
        config_version.append("v0");

        let metadata_fields = MetadataFields {
            env_name: cfg.environment,
            env_ver: config_version.clone(),
            tenant: cfg.tenant,
            role: cfg.role_name,
            role_instance: cfg.role_instance,
            namespace: cfg.namespace,
            event_version: config_version,
        };
        let uploader_config = GenevaUploaderConfig {
            namespace: metadata_fields.namespace.clone(),
            source_identity,
            environment: metadata_fields.env_name.clone(),
            config_version: metadata_fields.event_version.clone(),
            request_timeout: None,
        };
        match GenevaUploader::from_config_client(config_client, uploader_config, build_h1_client) {
            Ok(uploader) => Ok(
                GenevaClient { uploader: Arc::new(uploader), metadata_fields },
            ),
            Err(err) => Err(
                "GenevaUploader init failed: ".to_owned().concat(err.to_string("").as_str()),
            ),
        }
    }
}

/// What a client gives for an encoder's result: the batches as they are, or the encoder's error
/// behind `label`.
pub open spec fn is_relabelled<T>(
    label: Seq<char>,
    encoded: Result<T, String>,
    r: Result<T, String>,
) -> bool {
    match encoded {
        Ok(value) => r == Ok::<T, String>(value),
        Err(e) => r matches Err(m) && m@ == label + e@,
    }
}

/// Puts `label` before an error's text, and leaves anything else as it is.
pub fn relabel_error<T>(label: &str, encoded: Result<T, String>) -> (r: Result<T, String>)
    ensures
        is_relabelled(label@, encoded, r),
{
    match encoded {
        Ok(value) => Ok(value),
        Err(e) => Err(label.to_owned().concat(e.as_str())),
    }
}

impl<C, H> Clone for GenevaClient<C, H> {
    fn clone(&self) -> (r: GenevaClient<C, H>)
        ensures
            r == *self,
    {
        proof {
            use_type_invariant(self);
        }
        GenevaClient {
            uploader: share(&self.uploader),
            metadata_fields: self.metadata_fields.clone(),
        }
    }
}

/// `r` is what a client with the given metadata fields gives for some rows: no batch where there
/// are no rows. Where there are, the schema is encoded for the record, the namespace and the
/// fields; the blob of that schema and the rows is encoded and compressed; and `r` is made of what
/// came of it.
pub open spec fn is_raw_encoding<
    'a,
    F,
    S: FnOnce(&'static str, &'a str, &'a [F]) -> Vec<u8>,
    M: FnOnce(&'a MetadataFields) -> String,
    B: FnOnce(CentralBlob<'a, F>) -> Vec<u8>,
    Z: FnOnce(Vec<u8>) -> Result<Vec<u8>, String>,
>(
    metadata_fields: MetadataFields,
    fields: &'a [F],
    event_name: Seq<char>,
    level: u8,
    rows: Seq<RawRow>,
    encode_schema: S,
    metadata_string: M,
    encode_blob: B,
    compress: Z,
    r: Result<Vec<EncodedBatch>, String>,
) -> bool {
    if rows.len() == 0 {
        r matches Ok(batches) && batches@.len() == 0
    } else {
        exists|
            name: &'static str,
            namespace: &'a str,
            schema: Vec<u8>,
            metadata: String,
            blob: CentralBlob<'a, F>,
            bytes: Vec<u8>,
            compressed: Result<Vec<u8>, String>,
        |
            {
                &&& name@ == RAW_RECORD_NAME@
                &&& namespace@ == metadata_fields.namespace@
                &&& #[trigger] call_ensures(encode_schema, (name, namespace, fields), schema)
                &&& #[trigger] call_ensures(metadata_string, (&metadata_fields,), metadata)
                &&& is_raw_blob(blob, fields@, schema@, metadata@, event_name, level, rows)
                &&& #[trigger] call_ensures(encode_blob, (blob,), bytes)
                &&& #[trigger] call_ensures(compress, (bytes,), compressed)
                &&& is_raw_outcome(event_name, md5_digest(schema@), rows, compressed, r)
            }
    }
}

/// The two encoders give the same schema for the same name, namespace and fields.
pub open spec fn same_schemas<
    'a,
    F: 'a,
    S: FnOnce(&'static str, &'a str, &'a [F]) -> Vec<u8>,
    T: FnOnce(&'static str, &'a str, &'a [F]) -> Vec<u8>,
>(one: S, other: T) -> bool {
    forall|
        name: &'static str,
        name2: &'static str,
        namespace: &'a str,
        namespace2: &'a str,
        fields: &'a [F],
        schema: Vec<u8>,
        schema2: Vec<u8>,
    |
        name@ == name2@ && namespace@ == namespace2@ && #[trigger] call_ensures(
            one,
            (name, namespace, fields),
            schema,
        ) && #[trigger] call_ensures(other, (name2, namespace2, fields), schema2) ==> schema@
            == schema2@
}

/// Two raw batches of the same fields, whose rows have the same timestamps in whatever order, agree
/// in their start, end, schema IDs and row count: neither the order of the rows nor their data, the
/// event name or the level matters to these. The encoders of the schema must give the same schema
/// for the same fields.
pub proof fn law_raw_metadata_depends_on_fields_and_timestamps_alone<
    'a,
    F,
    S1: FnOnce(&'static str, &'a str, &'a [F]) -> Vec<u8>,
    M1: FnOnce(&'a MetadataFields) -> String,
    B1: FnOnce(CentralBlob<'a, F>) -> Vec<u8>,
    Z1: FnOnce(Vec<u8>) -> Result<Vec<u8>, String>,
    S2: FnOnce(&'static str, &'a str, &'a [F]) -> Vec<u8>,
    M2: FnOnce(&'a MetadataFields) -> String,
    B2: FnOnce(CentralBlob<'a, F>) -> Vec<u8>,
    Z2: FnOnce(Vec<u8>) -> Result<Vec<u8>, String>,
>(
    metadata_fields: MetadataFields,
    fields: &'a [F],
    name1: Seq<char>,
    level1: u8,
    rows1: Seq<RawRow>,
    codec1: (S1, M1, B1, Z1),
    a: Vec<EncodedBatch>,
    name2: Seq<char>,
    level2: u8,
    rows2: Seq<RawRow>,
    codec2: (S2, M2, B2, Z2),
    b: Vec<EncodedBatch>,
)
    requires
        rows1.len() > 0,
        same_timestamps(rows1, rows2),
        same_schemas::<F, S1, S2>(codec1.0, codec2.0),
        is_raw_encoding(
            metadata_fields,
            fields,
            name1,
            level1,
            rows1,
            codec1.0,
            codec1.1,
            codec1.2,
            codec1.3,
            Ok(a),
        ),
        is_raw_encoding(
            metadata_fields,
            fields,
            name2,
            level2,
            rows2,
            codec2.0,
            codec2.1,
            codec2.2,
            codec2.3,
            Ok(b),
        ),
    ensures
        a@.len() == 1,
        b@.len() == 1,
        a@[0].metadata.start_time == b@[0].metadata.start_time,
        a@[0].metadata.end_time == b@[0].metadata.end_time,
        a@[0].metadata.schema_ids@ == b@[0].metadata.schema_ids@,
        a@[0].row_count == b@[0].row_count,
{
    let start = a@[0].metadata.start_time;
    let end = a@[0].metadata.end_time;
    law_time_range_depends_on_the_timestamps_alone(rows1, rows2, start);
    law_time_range_depends_on_the_timestamps_alone(rows1, rows2, end);
    law_time_range_is_unique(rows2, start, b@[0].metadata.start_time);
    law_time_range_is_unique(rows2, end, b@[0].metadata.end_time);
}

impl<C, H> GenevaClient<C, H> {
    /// Encode OTLP logs into LZ4 chunked compressed batches. `encode_log_batch` encodes and
    /// compresses the log records that it is given, and gives the text of its error if it cannot.
    pub fn encode_and_compress_logs<
        'a,
        R,
        F: FnOnce(Vec<&'a R>, &'a MetadataFields) -> Result<Vec<EncodedBatch>, String>,
    >(&'a self, logs: &'a [ResourceLogs<R>], encode_log_batch: F) -> (r: Result<
        Vec<EncodedBatch>,
        String,
    >)
        requires
            forall|records: Vec<&'a R>, fields: &'a MetadataFields| #[trigger]
                call_requires(encode_log_batch, (records, fields)),
        ensures
            exists|records: Vec<&'a R>, encoded: Result<Vec<EncodedBatch>, String>|
                {
                    &&& records@.unref() == all_records(logs@)
                    &&& #[trigger] call_ensures(
                        encode_log_batch,
                        (records, &self.spec_metadata_fields()),
                        encoded,
                    )
                    &&& is_relabelled("Compression failed: "@, encoded, r)
                },
    {
        let records = gather_records(logs);
        let ghost given = records;
        let encoded = encode_log_batch(records, &self.metadata_fields);
        assert(call_ensures(encode_log_batch, (given, &self.spec_metadata_fields()), encoded));
        relabel_error("Compression failed: ", encoded)
    }

    /// Encode OTLP spans into LZ4 chunked compressed batches. `encode_span_batch` encodes and
    /// compresses the spans that it is given, and gives the text of its error if it cannot.
    pub fn encode_and_compress_spans<
        'a,
        S,
        F: FnOnce(Vec<&'a S>, &'a MetadataFields) -> Result<Vec<EncodedBatch>, String>,
    >(&'a self, spans: &'a [ResourceSpans<S>], encode_span_batch: F) -> (r: Result<
        Vec<EncodedBatch>,
        String,
    >)
        requires
            forall|gathered: Vec<&'a S>, fields: &'a MetadataFields| #[trigger]
                call_requires(encode_span_batch, (gathered, fields)),
        ensures
            exists|gathered: Vec<&'a S>, encoded: Result<Vec<EncodedBatch>, String>|
                {
                    &&& gathered@.unref() == all_spans(spans@)
                    &&& #[trigger] call_ensures(
                        encode_span_batch,
                        (gathered, &self.spec_metadata_fields()),
                        encoded,
                    )
                    &&& is_relabelled("Compression failed: "@, encoded, r)
                },
    {
        let gathered = gather_spans(spans);
        let ghost given = gathered;
        let encoded = encode_span_batch(gathered, &self.metadata_fields);
        assert(call_ensures(encode_span_batch, (given, &self.spec_metadata_fields()), encoded));
        relabel_error("Compression failed: ", encoded)
    }

    /// Encode a batch of pre-serialized rows sharing a single schema.
    ///
    /// All rows must match the provided field definitions (same count, same order).
    /// `encode_schema` encodes the schema of a record of the given name, namespace and fields;
    /// `metadata_string` writes the client's metadata fields as the text that heads a blob;
    /// `encode_blob` encodes the blob; `compress` compresses bytes, and gives the text of its error
    /// if it cannot. None of them is called if there are no rows, for which there is no batch.
    pub fn encode_raw_batch<
        'a,
        F,
        S: FnOnce(&'static str, &'a str, &'a [F]) -> Vec<u8>,
        M: FnOnce(&'a MetadataFields) -> String,
        B: FnOnce(CentralBlob<'a, F>) -> Vec<u8>,
        Z: FnOnce(Vec<u8>) -> Result<Vec<u8>, String>,
    >(
        &'a self,
        fields: &'a [F],
        event_name: &str,
        level: u8,
        rows: &[RawRow],
        encode_schema: S,
        metadata_string: M,
        encode_blob: B,
        compress: Z,
    ) -> (r: Result<Vec<EncodedBatch>, String>)
        requires
            rows@.len() > 0 ==> forall|name: &'static str, namespace: &'a str, of: &'a [F]| #[trigger]
                call_requires(encode_schema, (name, namespace, of)),
            rows@.len() > 0 ==> forall|of: &'a MetadataFields| #[trigger]
                call_requires(metadata_string, (of,)),
            rows@.len() > 0 ==> forall|blob: CentralBlob<'a, F>| #[trigger]
                call_requires(encode_blob, (blob,)),
            rows@.len() > 0 ==> forall|bytes: Vec<u8>| #[trigger] call_requires(compress, (bytes,)),
        ensures
            is_raw_encoding(
                self.spec_metadata_fields(),
                fields,
                event_name@,
                level,
                rows@,
                encode_schema,
                metadata_string,
                encode_blob,
                compress,
                r,
            ),
    {
        if rows.is_empty() {
            return Ok(Vec::new());
        }
        let namespace = self.metadata_fields.namespace.as_str();
        let schema = encode_schema(RAW_RECORD_NAME, namespace, fields);
        let ghost encoded_schema = schema;
        assert(call_ensures(encode_schema, (RAW_RECORD_NAME, namespace, fields), encoded_schema));
        let metadata = metadata_string(&self.metadata_fields);
        let ghost head = metadata;
        assert(call_ensures(metadata_string, (&self.spec_metadata_fields(),), head));
        let blob = raw_blob(fields, schema, metadata, event_name, level, rows);
        let ghost given = blob;
        let digest = blob.schemas[0].md5;
        let uncompressed = encode_blob(blob);
        assert(call_ensures(encode_blob, (given,), uncompressed));
        let ghost bytes = uncompressed;
        let compressed = compress(uncompressed);
        assert(call_ensures(compress, (bytes,), compressed));
        raw_outcome(event_name, &digest, rows, compressed)
    }

    /// The job that uploads a single compressed batch.
    pub fn upload_job(&self, batch: &EncodedBatch) -> (r: UploadJob)
        ensures
            r.data@ == batch.data@,
            r.event_name == batch.event_name,
            r.metadata == batch.metadata,
            r.row_count == batch.row_count,
    {
        let data = batch.data.clone();
        assert(data@ =~= batch.data@);
        UploadJob {
            data,
            event_name: batch.event_name.clone(),
            metadata: batch.metadata.clone(),
            row_count: batch.row_count,
        }
    }

    /// What the upload of a single compressed batch gives its caller: nothing on success, and on
    /// failure the text of the error with the name of the event. The text of a configuration
    /// service error is its own, and is passed in; no other error reads it.
    ///
    /// This allows for granular control over uploads, including custom retry logic for individual
    /// batches.
    pub fn upload_batch(
        &self,
        batch: &EncodedBatch,
        outcome: Result<IngestionResponse, GenevaUploaderError>,
        config_error: &str,
    ) -> (r: Result<(), String>)
        ensures
            match outcome {
                Ok(_) => r is Ok,
                Err(err) => r matches Err(m) && m@ == "Geneva upload failed: "@ + err.display_text(
                    config_error@,
                ) + " Event: "@ + batch.event_name@,
            },
    {
        match outcome {
            Ok(_) => Ok(()),
            Err(err) => {
                let mut message = "Geneva upload failed: ".to_owned();
                message.append(err.to_string(config_error).as_str());
                message.append(" Event: ");
                message.append(batch.event_name.as_str());
                Err(message)
            },
        }
    }
}

/// Every setting of the user's configuration reaches the client of the configuration service as it
/// is, whichever way of authentication it names: `connect` is called with a configuration of the
/// same endpoint, environment, account, namespace, region, version, authentication and MSI
/// resource. Only a managed identity without an MSI resource is refused before that. A failure to
/// connect is handed on.
pub proof fn law_settings_reach_the_config_service<
    C,
    H,
    K: FnOnce(GenevaConfigClientConfig) -> Result<C, String>,
    B: FnOnce(HttpClientSettings) -> Result<H, HttpErrorReport>,
>(
    cfg: GenevaClientConfig,
    connect: K,
    build_h1_client: B,
    r: Result<GenevaClient<C, H>, String>,
)
    requires
        call_ensures(GenevaClient::<C, H>::new::<K, B>, (cfg, connect, build_h1_client), r),
    ensures
        ({
            let managed = cfg.auth_method is SystemManagedIdentity
                || cfg.auth_method is UserManagedIdentity
                || cfg.auth_method is UserManagedIdentityByObjectId
                || cfg.auth_method is UserManagedIdentityByResourceId;
            &&& managed && cfg.msi_resource is None ==> r is Err && r->Err_0@
                == "msi_resource must be provided for managed identity auth"@
            &&& !managed || cfg.msi_resource is Some ==> exists|
                config: GenevaConfigClientConfig,
                connected: Result<C, String>,
            |
                {
                    &&& #[trigger] call_ensures(connect, (config,), connected)
                    &&& config.endpoint@ == cfg.endpoint@
                    &&& config.environment@ == cfg.environment@
                    &&& config.account@ == cfg.account@
                    &&& config.namespace@ == cfg.namespace@
                    &&& config.region@ == cfg.region@
                    &&& config.config_major_version == cfg.config_major_version
                    &&& config.auth_method == cfg.auth_method
                    &&& config.msi_resource == cfg.msi_resource
                    &&& connected is Err ==> r is Err && r->Err_0@
                        == "GenevaConfigClient init failed: "@ + connected->Err_0@
                }
        }),
{
    if !cfg.lacks_msi_resource() {
        let connected = lemma_connected::<C, H, K, B>(cfg, connect, build_h1_client, r);
        assert(call_ensures(connect, (cfg.config_client_config(),), connected));
    }
}

/// What `connect` gave, where it was called, and what became of it.
proof fn lemma_connected<
    C,
    H,
    K: FnOnce(GenevaConfigClientConfig) -> Result<C, String>,
    B: FnOnce(HttpClientSettings) -> Result<H, HttpErrorReport>,
>(
    cfg: GenevaClientConfig,
    connect: K,
    build_h1_client: B,
    r: Result<GenevaClient<C, H>, String>,
) -> (connected: Result<C, String>)
    requires
        call_ensures(GenevaClient::<C, H>::new::<K, B>, (cfg, connect, build_h1_client), r),
        !cfg.lacks_msi_resource(),
    ensures
        call_ensures(connect, (cfg.config_client_config(),), connected),
        connected is Err ==> r is Err && r->Err_0@ == "GenevaConfigClient init failed: "@
            + connected->Err_0@,
        connected is Ok ==> exists|settings: HttpClientSettings, built: Result<H, HttpErrorReport>|
            {
                &&& settings_for(None, settings)
                &&& #[trigger] call_ensures(build_h1_client, (settings,), built)
                &&& match built {
                    Err(report) => r matches Err(m) && m@ == "GenevaUploader init failed: "@ + (
                    "HTTP error: "@ + report.full_text()),
                    Ok(http_client) => {
                        &&& r matches Ok(client)
                        &&& *client.spec_uploader().config_client == connected->Ok_0
                        &&& client.spec_uploader().http_client == http_client
                        &&& cfg.has_uploader_config(client.spec_uploader().config)
                        &&& cfg.has_metadata(client.spec_metadata_fields())
                    },
                }
            },
{
    choose|connected: Result<C, String>|
        {
            &&& #[trigger] call_ensures(connect, (cfg.config_client_config(),), connected)
            &&& match connected {
                Err(e) => r matches Err(m) && m@ == "GenevaConfigClient init failed: "@ + e@,
                Ok(config_client) => exists|
                    settings: HttpClientSettings,
                    built: Result<H, HttpErrorReport>,
                |
                    {
                        &&& settings_for(None, settings)
                        &&& #[trigger] call_ensures(build_h1_client, (settings,), built)
                        &&& match built {
                            Err(report) => r matches Err(m) && m@ == "GenevaUploader init failed: "@
                                + ("HTTP error: "@ + report.full_text()),
                            Ok(http_client) => {
                                &&& r matches Ok(client)
                                &&& *client.spec_uploader().config_client == config_client
                                &&& client.spec_uploader().http_client == http_client
                                &&& cfg.has_uploader_config(client.spec_uploader().config)
                                &&& cfg.has_metadata(client.spec_metadata_fields())
                            },
                        }
                    },
            }
        }
}

/// The text is the version of the configuration as the gateway names it: its number between `Ver`
/// and `v0`.
pub open spec fn names_version(text: Seq<char>, version: u32) -> bool {
    &&& text.len() > 5
    &&& text.take(3) == "Ver"@
    &&& spells_number(text.subrange(3, text.len() - 2), version as nat)
    &&& text.skip(text.len() - 2) == "v0"@
}

proof fn lemma_names_version(cfg: GenevaClientConfig)
    ensures
        names_version(cfg.version_text(), cfg.config_major_version),
{
    let number = decimal(cfg.config_major_version as nat);
    let text = cfg.version_text();
    lemma_decimal_spells_the_number(cfg.config_major_version as nat);
    reveal_strlit("Ver");
    reveal_strlit("v0");
    assert(text.take(3) =~= "Ver"@);
    assert(text.subrange(3, text.len() - 2) =~= number);
    assert(text.skip(text.len() - 2) =~= "v0"@);
}

/// A client carries the user's configuration: its uploader names the namespace, the environment,
/// the version and the source, and every event the environment, the version, the tenant, the role,
/// the role's instance and the namespace.
pub proof fn law_client_carries_the_configuration<
    C,
    H,
    K: FnOnce(GenevaConfigClientConfig) -> Result<C, String>,
    B: FnOnce(HttpClientSettings) -> Result<H, HttpErrorReport>,
>(
    cfg: GenevaClientConfig,
    connect: K,
    build_h1_client: B,
    client: GenevaClient<C, H>,
    uploader: &GenevaUploader<C, H>,
    fields: &MetadataFields,
)
    requires
        call_ensures(GenevaClient::<C, H>::new::<K, B>, (cfg, connect, build_h1_client), Ok(client)),
        call_ensures(GenevaClient::<C, H>::uploader, (&client,), uploader),
        call_ensures(GenevaClient::<C, H>::metadata_fields, (&client,), fields),
    ensures
        uploader.config.namespace@ == cfg.namespace@,
        uploader.config.environment@ == cfg.environment@,
        names_version(uploader.config.config_version@, cfg.config_major_version),
        uploader.config.source_identity@ == "Tenant="@ + cfg.tenant@ + "/Role="@ + cfg.role_name@
            + "/RoleInstance="@ + cfg.role_instance@,
        uploader.config.request_timeout is None,
        fields.env_name@ == cfg.environment@,
        names_version(fields.env_ver@, cfg.config_major_version),
        fields.tenant@ == cfg.tenant@,
        fields.role@ == cfg.role_name@,
        fields.role_instance@ == cfg.role_instance@,
        fields.namespace@ == cfg.namespace@,
        names_version(fields.event_version@, cfg.config_major_version),
{
    lemma_names_version(cfg);
    if !cfg.lacks_msi_resource() {
        let connected = lemma_connected::<C, H, K, B>(cfg, connect, build_h1_client, Ok(client));
    }
}

/// A client is made of the client of the configuration service that `connect` gave and of the HTTP
/// client that was built. Once connected it fails only if the latter cannot be built, and then says
/// why.
pub proof fn law_client_is_made_of_its_parts<
    C,
    H,
    K: FnOnce(GenevaConfigClientConfig) -> Result<C, String>,
    B: FnOnce(HttpClientSettings) -> Result<H, HttpErrorReport>,
>(
    cfg: GenevaClientConfig,
    connect: K,
    build_h1_client: B,
    r: Result<GenevaClient<C, H>, String>,
    uploader: &GenevaUploader<C, H>,
)
    requires
        call_ensures(GenevaClient::<C, H>::new::<K, B>, (cfg, connect, build_h1_client), r),
        r is Ok ==> call_ensures(GenevaClient::<C, H>::uploader, (&r->Ok_0,), uploader),
        cfg.auth_method is Certificate || cfg.auth_method is WorkloadIdentity
            || cfg.auth_method is MockAuth || cfg.msi_resource is Some,
        forall|config: GenevaConfigClientConfig, connected: Result<C, String>| #[trigger]
            call_ensures(connect, (config,), connected) ==> connected is Ok,
    ensures
        exists|
            config: GenevaConfigClientConfig,
            config_client: C,
            settings: HttpClientSettings,
            built: Result<H, HttpErrorReport>,
        |
            {
                &&& #[trigger] call_ensures(connect, (config,), Ok::<C, String>(config_client))
                &&& #[trigger] call_ensures(build_h1_client, (settings,), built)
                &&& asks_for_json_within(settings, None)
                &&& built is Ok <==> r is Ok
                &&& built is Ok ==> *uploader.config_client == config_client
                    && uploader.http_client == built->Ok_0
                &&& built matches Err(report) ==> forall|line: String| #[trigger]
                    call_ensures(HttpErrorReport::describe, (&report,), line) ==> r->Err_0@
                        == "GenevaUploader init failed: HTTP error: "@ + line@
            },
{
    let connected = lemma_connected::<C, H, K, B>(cfg, connect, build_h1_client, r);
    assert(call_ensures(connect, (cfg.config_client_config(),), connected));
    assert(connected is Ok);
    let config_client = connected->Ok_0;
    assert(connected == Ok::<C, String>(config_client));
    let (settings, built) = choose|settings: HttpClientSettings, built: Result<H, HttpErrorReport>|
        {
            &&& settings_for(None, settings)
            &&& #[trigger] call_ensures(build_h1_client, (settings,), built)
            &&& match built {
                Err(report) => r matches Err(m) && m@ == "GenevaUploader init failed: "@ + (
                "HTTP error: "@ + report.full_text()),
                Ok(http_client) => {
                    &&& r matches Ok(client)
                    &&& *client.spec_uploader().config_client == connected->Ok_0
                    &&& client.spec_uploader().http_client == http_client
                    &&& cfg.has_uploader_config(client.spec_uploader().config)
                    &&& cfg.has_metadata(client.spec_metadata_fields())
                },
            }
        };
    lemma_settings_ask_for_json(settings, None);
    reveal_strlit("GenevaUploader init failed: ");
    reveal_strlit("HTTP error: ");
    reveal_strlit("GenevaUploader init failed: HTTP error: ");
    assert("GenevaUploader init failed: HTTP error: "@ =~= "GenevaUploader init failed: "@
        + "HTTP error: "@);
    if let Err(report) = built {
        assert("GenevaUploader init failed: "@ + ("HTTP error: "@ + report.full_text())
            =~= "GenevaUploader init failed: HTTP error: "@ + report.full_text());
    }
}

/// The result is the encoder's: its batches as they are, or its error behind the words that the
/// compression failed.
pub open spec fn hands_on_the_encoding(
    encoded: Result<Vec<EncodedBatch>, String>,
    r: Result<Vec<EncodedBatch>, String>,
) -> bool {
    &&& encoded is Ok <==> r is Ok
    &&& encoded is Ok ==> r->Ok_0 == encoded->Ok_0
    &&& encoded is Err ==> r->Err_0@ == "Compression failed: "@ + encoded->Err_0@
}

/// The encoder is given every log record of every scope of every resource, each once and in order,
/// with the client's metadata fields; its result is handed on.
pub proof fn law_every_record_reaches_the_encoder<
    'a,
    C,
    H,
    R,
    F: FnOnce(Vec<&'a R>, &'a MetadataFields) -> Result<Vec<EncodedBatch>, String>,
>(
    client: &'a GenevaClient<C, H>,
    logs: &'a [ResourceLogs<R>],
    encode_log_batch: F,
    fields: &'a MetadataFields,
    r: Result<Vec<EncodedBatch>, String>,
)
    requires
        call_ensures(
            GenevaClient::<C, H>::encode_and_compress_logs::<R, F>,
            (client, logs, encode_log_batch),
            r,
        ),
        call_ensures(GenevaClient::<C, H>::metadata_fields, (client,), fields),
    ensures
        exists|records: Vec<&'a R>, encoded: Result<Vec<EncodedBatch>, String>|
            {
                &&& #[trigger] call_ensures(encode_log_batch, (records, fields), encoded)
                &&& holds_every_record(records@, logs@)
                &&& hands_on_the_encoding(encoded, r)
            },
{
    let (records, encoded) = choose|
        records: Vec<&'a R>,
        encoded: Result<Vec<EncodedBatch>, String>,
    |
        {
            &&& records@.unref() == all_records(logs@)
            &&& #[trigger] call_ensures(
                encode_log_batch,
                (records, &client.spec_metadata_fields()),
                encoded,
            )
            &&& is_relabelled("Compression failed: "@, encoded, r)
        };
    lemma_all_records_hold_every_record(records@, logs@);
    assert(call_ensures(encode_log_batch, (records, fields), encoded));
}

/// The encoder is given every span of every scope of every resource, each once and in order, with
/// the client's metadata fields; its result is handed on.
pub proof fn law_every_span_reaches_the_encoder<
    'a,
    C,
    H,
    S,
    F: FnOnce(Vec<&'a S>, &'a MetadataFields) -> Result<Vec<EncodedBatch>, String>,
>(
    client: &'a GenevaClient<C, H>,
    spans: &'a [ResourceSpans<S>],
    encode_span_batch: F,
    fields: &'a MetadataFields,
    r: Result<Vec<EncodedBatch>, String>,
)
    requires
        call_ensures(
            GenevaClient::<C, H>::encode_and_compress_spans::<S, F>,
            (client, spans, encode_span_batch),
            r,
        ),
        call_ensures(GenevaClient::<C, H>::metadata_fields, (client,), fields),
    ensures
        exists|gathered: Vec<&'a S>, encoded: Result<Vec<EncodedBatch>, String>|
            {
                &&& #[trigger] call_ensures(encode_span_batch, (gathered, fields), encoded)
                &&& holds_every_span(gathered@, spans@)
                &&& hands_on_the_encoding(encoded, r)
            },
{
    let (gathered, encoded) = choose|
        gathered: Vec<&'a S>,
        encoded: Result<Vec<EncodedBatch>, String>,
    |
        {
            &&& gathered@.unref() == all_spans(spans@)
            &&& #[trigger] call_ensures(
                encode_span_batch,
                (gathered, &client.spec_metadata_fields()),
                encoded,
            )
            &&& is_relabelled("Compression failed: "@, encoded, r)
        };
    lemma_all_spans_hold_every_span(gathered@, spans@);
    assert(call_ensures(encode_span_batch, (gathered, fields), encoded));
}

/// Rows become one batch, whole and in order: the schema is encoded for the fields under the
/// client's namespace, the blob that is encoded carries every byte of every row in its place, what
/// is compressed is that encoding, and the batch holds the compressed bytes and tells of the rows.
/// No rows become no batch.
pub proof fn law_raw_batch_carries_the_rows<
    'a,
    C,
    H,
    F,
    S: FnOnce(&'static str, &'a str, &'a [F]) -> Vec<u8>,
    M: FnOnce(&'a MetadataFields) -> String,
    B: FnOnce(CentralBlob<'a, F>) -> Vec<u8>,
    Z: FnOnce(Vec<u8>) -> Result<Vec<u8>, String>,
>(
    client: &'a GenevaClient<C, H>,
    fields: &'a [F],
    event_name: &str,
    level: u8,
    rows: &[RawRow],
    encode_schema: S,
    metadata_string: M,
    encode_blob: B,
    compress: Z,
    of_client: &'a MetadataFields,
    r: Result<Vec<EncodedBatch>, String>,
)
    requires
        call_ensures(
            GenevaClient::<C, H>::encode_raw_batch::<F, S, M, B, Z>,
            (
                client,
                fields,
                event_name,
                level,
                rows,
                encode_schema,
                metadata_string,
                encode_blob,
                compress,
            ),
            r,
        ),
        call_ensures(GenevaClient::<C, H>::metadata_fields, (client,), of_client),
    ensures
        rows@.len() == 0 ==> r is Ok && r->Ok_0@.len() == 0,
        rows@.len() > 0 ==> exists|
            name: &'static str,
            namespace: &'a str,
            schema: Vec<u8>,
            head: String,
            blob: CentralBlob<'a, F>,
            bytes: Vec<u8>,
            compressed: Result<Vec<u8>, String>,
        |
            {
                &&& name@ == "CustomRecord"@
                &&& namespace@ == of_client.namespace@
                &&& #[trigger] call_ensures(encode_schema, (name, namespace, fields), schema)
                &&& #[trigger] call_ensures(metadata_string, (of_client,), head)
                &&& has_the_one_schema(blob, fields@, schema@, head@)
                &&& carries_the_rows(blob, event_name@, level, rows@)
                &&& #[trigger] call_ensures(encode_blob, (blob,), bytes)
                &&& #[trigger] call_ensures(compress, (bytes,), compressed)
                &&& batch_tells_the_rows(
                    event_name@,
                    blob.schemas@[0].md5@,
                    rows@,
                    compressed,
                    r,
                )
            },
{
    if rows@.len() > 0 {
        let metadata_fields = client.spec_metadata_fields();
        let (name, namespace, schema, head, blob, bytes, compressed) = choose|
            name: &'static str,
            namespace: &'a str,
            schema: Vec<u8>,
            metadata: String,
            blob: CentralBlob<'a, F>,
            bytes: Vec<u8>,
            compressed: Result<Vec<u8>, String>,
        |
            {
                &&& name@ == RAW_RECORD_NAME@
                &&& namespace@ == metadata_fields.namespace@
                &&& #[trigger] call_ensures(encode_schema, (name, namespace, fields), schema)
                &&& #[trigger] call_ensures(metadata_string, (&metadata_fields,), metadata)
                &&& is_raw_blob(blob, fields@, schema@, metadata@, event_name@, level, rows@)
                &&& #[trigger] call_ensures(encode_blob, (blob,), bytes)
                &&& #[trigger] call_ensures(compress, (bytes,), compressed)
                &&& is_raw_outcome(event_name@, md5_digest(schema@), rows@, compressed, r)
            };
        lemma_raw_blob_carries_the_rows(
            blob,
            fields@,
            schema@,
            head@,
            event_name@,
            level,
            rows@,
        );
        lemma_outcome_tells_the_rows(event_name@, md5_digest(schema@), rows@, compressed, r);
        assert(call_ensures(metadata_string, (of_client,), head));
    }
}

/// The job for a batch is the batch: every byte of its data, its name, its times, its schemas and
/// its number of rows.
pub proof fn law_job_is_the_batch<C, H>(
    client: &GenevaClient<C, H>,
    batch: &EncodedBatch,
    r: UploadJob,
)
    requires
        call_ensures(GenevaClient::<C, H>::upload_job, (client, batch), r),
    ensures
        r.data@.len() == batch.data@.len(),
        forall|i: int| 0 <= i < batch.data@.len() ==> #[trigger] r.data@[i] == batch.data@[i],
        r.event_name@ == batch.event_name@,
        r.metadata.start_time == batch.metadata.start_time,
        r.metadata.end_time == batch.metadata.end_time,
        r.metadata.schema_ids@ == batch.metadata.schema_ids@,
        r.row_count == batch.row_count,
{
}

/// The upload of a batch succeeds exactly if its outcome is a ticket; otherwise the caller gets the
/// line of the error and the name of the event.
pub proof fn law_caller_gets_the_error_and_the_event<C, H>(
    client: &GenevaClient<C, H>,
    batch: &EncodedBatch,
    outcome: Result<IngestionResponse, GenevaUploaderError>,
    config_error: &str,
    line: String,
    r: Result<(), String>,
)
    requires
        call_ensures(
            GenevaClient::<C, H>::upload_batch,
            (client, batch, outcome, config_error),
            r,
        ),
        outcome is Err ==> call_ensures(
            GenevaUploaderError::to_string,
            (&outcome->Err_0, config_error),
            line,
        ),
    ensures
        r is Ok <==> outcome is Ok,
        outcome is Err ==> r->Err_0@ == "Geneva upload failed: "@ + line@ + " Event: "@
            + batch.event_name@,
{
}

/// A label goes before an error's text and changes nothing of it; anything else stays as it is.
pub proof fn law_labels_go_before_errors<T>(
    label: &str,
    encoded: Result<T, String>,
    r: Result<T, String>,
)
    requires
        call_ensures(relabel_error::<T>, (label, encoded), r),
    ensures
        encoded is Ok <==> r is Ok,
        encoded is Ok ==> r->Ok_0 == encoded->Ok_0,
        encoded is Err ==> {
            &&& r->Err_0@.len() == label@.len() + encoded->Err_0@.len()
            &&& r->Err_0@.take(label@.len() as int) == label@
            &&& r->Err_0@.skip(label@.len() as int) == encoded->Err_0@
        },
{
    if encoded is Err {
        assert(r->Err_0@.take(label@.len() as int) =~= label@);
        assert(r->Err_0@.skip(label@.len() as int) =~= encoded->Err_0@);
    }
}

/// A clone of a client has the same uploader and the same metadata fields.
pub proof fn law_cloned_client_is_alike<C, H>(
    client: GenevaClient<C, H>,
    clone: GenevaClient<C, H>,
    uploader: &GenevaUploader<C, H>,
    of_clone: &GenevaUploader<C, H>,
    fields: &MetadataFields,
    fields_of_clone: &MetadataFields,
)
    requires
        cloned(client, clone),
        call_ensures(GenevaClient::<C, H>::uploader, (&client,), uploader),
        call_ensures(GenevaClient::<C, H>::uploader, (&clone,), of_clone),
        call_ensures(GenevaClient::<C, H>::metadata_fields, (&client,), fields),
        call_ensures(GenevaClient::<C, H>::metadata_fields, (&clone,), fields_of_clone),
    ensures
        *of_clone == *uploader,
        *fields_of_clone == *fields,
{
}

} // verus!
