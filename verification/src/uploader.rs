//! One upload to the Geneva Ingestion Gateway (GIG), step by step.
use reqwest::header::{HeaderMap, HeaderValue};
use std::sync::Arc;
use vstd::prelude::*;
use vstd::string::StringExecFns;

use crate::error::{
    classify_gig_error, gig_error_kind, GenevaConfigClientError, GenevaUploaderError, GigErrorKind,
    HttpErrorReport, GIG_FALLBACK_CODE,
};
use crate::headers::{header_contents, insert_first_header, no_contents, no_headers};
use crate::payload::{share, BatchMetadata};
use crate::reply::{
    body_error_code, is_plain_code, number_body, parse_gig_error_code, IngestionResponse,
};
use crate::retry::{
    is_clocked_span, lemma_seconds_in_the_header, parse_retry_after, span, spells_seconds,
};
use crate::text::{
    lacks_end_slashes_of, lemma_without_end_slashes, trim_end_slashes, without_end_slashes,
};
use crate::time::{Duration, NANOS_PER_SECOND};
use crate::uri::{
    has_no_ampersand, is_uuid_v4, lemma_address_spells_its_values, lemma_spelled_values_read_back,
    random_uuid, reads_as, spells_address, Address, AddressText,
};

verus! {

/// Maximum content size accepted by GIG (8 MB).
pub const GIG_MAX_CONTENT_LENGTH: usize = 8 * 1024 * 1024;

/// Default HTTP request timeout in seconds.
pub const DEFAULT_REQUEST_TIMEOUT_SECS: u64 = 30;

/// Idle time in seconds before a connection is probed.
pub const TCP_KEEPALIVE_SECS: u64 = 60;

/// The HTTP status with which the gateway takes a batch.
pub const STATUS_ACCEPTED: u16 = 202;

/// Configuration for the Geneva Uploader
#[derive(Debug)]
pub struct GenevaUploaderConfig {
    pub namespace: String,
    pub source_identity: String,
    pub environment: String,
    pub config_version: String,
    /// HTTP request timeout. Defaults to 30 seconds if `None`.
    pub request_timeout: Option<Duration>,
}

impl Clone for GenevaUploaderConfig {
    fn clone(&self) -> (r: GenevaUploaderConfig)
        ensures
            r == *self,
    {
        GenevaUploaderConfig {
            namespace: self.namespace.clone(),
            source_identity: self.source_identity.clone(),
            environment: self.environment.clone(),
            config_version: self.config_version.clone(),
            request_timeout: self.request_timeout,
        }
    }
}

/// How the HTTP client is to be built.
pub struct HttpClientSettings {
    /// The headers that every request carries.
    pub default_headers: HeaderMap<HeaderValue>,
    /// How long a request may take.
    pub timeout: Duration,
    /// Whether HTTP/1 alone is spoken.
    pub http1_only: bool,
    /// Idle time before a connection is probed.
    pub tcp_keepalive: Duration,
}

/// The settings are those for an uploader whose configured timeout is `request_timeout`: the
/// `Accept` header for JSON and no other, the timeout or the default one, HTTP/1 alone, and the
/// keepalive.
pub open spec fn settings_for(
    request_timeout: Option<Duration>,
    settings: HttpClientSettings,
) -> bool {
    &&& header_contents(settings.default_headers) == no_contents().insert(
        "accept"@,
        "application/json"@.map_values(|c: char| c as u8),
    )
    &&& settings.timeout@ == (match request_timeout {
        Some(timeout) => timeout@,
        None => DEFAULT_REQUEST_TIMEOUT_SECS * NANOS_PER_SECOND,
    })
    &&& settings.http1_only
    &&& settings.tcp_keepalive@ == TCP_KEEPALIVE_SECS * NANOS_PER_SECOND
}

impl HttpClientSettings {
    /// The settings for an uploader with the given timeout, or the default one.
    pub fn new(request_timeout: Option<Duration>) -> (r: HttpClientSettings)
        ensures
            settings_for(request_timeout, r),
    {
        proof {
            reveal_strlit("accept");
            reveal_strlit("application/json");
        }
        let mut default_headers = no_headers();
        insert_first_header(&mut default_headers, "accept", "application/json");
        let timeout = match request_timeout {
            Some(timeout) => timeout,
            None => Duration::from_secs(DEFAULT_REQUEST_TIMEOUT_SECS),
        };
        HttpClientSettings {
            default_headers,
            timeout,
            http1_only: true,
            tcp_keepalive: Duration::from_secs(TCP_KEEPALIVE_SECS),
        }
    }
}

/// Client for uploading data to Geneva Ingestion Gateway (GIG): `C` is the client of the
/// configuration service, `H` the HTTP client.
#[derive(Debug)]
pub struct GenevaUploader<C, H> {
    pub config_client: Arc<C>,
    pub config: GenevaUploaderConfig,
    pub http_client: H,
}

impl<C, H: Clone> Clone for GenevaUploader<C, H> {
    fn clone(&self) -> (r: GenevaUploader<C, H>)
        ensures
            r.config_client == self.config_client,
            r.config == self.config,
            cloned::<H>(self.http_client, r.http_client),
    {
        GenevaUploader {
            config_client: share(&self.config_client),
            config: self.config.clone(),
            http_client: self.http_client.clone(),
        }
    }
}

/// Where and as whom to upload, as the configuration service says.
#[derive(Debug, Clone)]
pub struct IngestionInfo {
    /// The gateway's own address.
    pub endpoint: String,
    pub auth_token: String,
    /// The name of the moniker.
    pub moniker: String,
    pub monitoring_endpoint: String,
}

/// One batch to upload.
#[derive(Debug, Clone)]
pub struct UploadJob {
    /// The encoded data (already in the required format).
    pub data: Vec<u8>,
    pub event_name: String,
    pub metadata: BatchMetadata,
    pub row_count: usize,
}

/// How far an upload has come.
pub enum UploadState {
    /// Nothing has been done yet.
    Ready(UploadJob),
    /// The configuration service was asked where to upload.
    AwaitingInfo(UploadJob),
    /// The batch was posted.
    AwaitingReply,
    /// The head of the reply is there.
    AwaitingBody { status: u16, retry_after: Option<Duration> },
    /// The gateway took the batch; its ticket is yet to be read.
    AwaitingTicket,
    /// The upload is over.
    Finished,
}

/// What has happened since the last step.
pub enum UploadEvent {
    /// The upload is to begin.
    Start,
    /// The configuration service answered.
    Info(Result<IngestionInfo, GenevaConfigClientError>),
    /// The post was answered, or failed.
    Reply(Result<(u16, HeaderMap<HeaderValue>), HttpErrorReport>),
    /// The body of the reply was received, or could not be.
    Body(Result<String, HttpErrorReport>),
    /// The ticket was read from the body, or could not be, for the reason given.
    Ticket(Result<IngestionResponse, String>),
}

/// What is to be done next.
pub enum UploadAction {
    /// Ask the configuration service for fresh ingestion info.
    FetchInfo,
    /// Post the body to the URL with the given `Authorization` header.
    Post { url: String, authorization: String, body: Vec<u8> },
    /// Receive the body of the reply.
    ReadBody,
    /// Read the ticket from the body.
    ReadTicket { reply: String },
    /// Return the outcome; before that, drop the cached token if `invalidate_cache` is set, so that
    /// the next attempt fetches a fresh one.
    Finish { outcome: Result<IngestionResponse, GenevaUploaderError>, invalidate_cache: bool },
}

impl UploadState {
    /// The event is one that can follow in this state.
    pub open spec fn expects(self, event: UploadEvent) -> bool {
        match self {
            UploadState::Ready(_) => event is Start,
            UploadState::AwaitingInfo(_) => event is Info,
            UploadState::AwaitingReply => event is Reply,
            UploadState::AwaitingBody { .. } => event is Body,
            UploadState::AwaitingTicket => event is Ticket,
            UploadState::Finished => false,
        }
    }

    /// Whether the event is one that can follow in this state.
    pub fn is_expected(&self, event: &UploadEvent) -> (r: bool)
        ensures
            r == self.expects(*event),
    {
        match (self, event) {
            (UploadState::Ready(_), UploadEvent::Start) => true,
            (UploadState::AwaitingInfo(_), UploadEvent::Info(_)) => true,
            (UploadState::AwaitingReply, UploadEvent::Reply(_)) => true,
            (UploadState::AwaitingBody { .. }, UploadEvent::Body(_)) => true,
            (UploadState::AwaitingTicket, UploadEvent::Ticket(_)) => true,
            _ => false,
        }
    }

    /// The number of steps that are left at most.
    pub open spec fn steps_left(self) -> nat {
        match self {
            UploadState::Ready(_) => 5,
            UploadState::AwaitingInfo(_) => 4,
            UploadState::AwaitingReply => 3,
            UploadState::AwaitingBody { .. } => 2,
            UploadState::AwaitingTicket => 1,
            UploadState::Finished => 0,
        }
    }
}

impl GenevaUploaderConfig {
    /// The address for a batch, given its place, its size and the ID of the upload.
    pub open spec fn address(
        self,
        monitoring_endpoint: Seq<char>,
        moniker: Seq<char>,
        data_size: nat,
        event_name: Seq<char>,
        schema_ids: Seq<char>,
        start_time: Seq<char>,
        end_time: Seq<char>,
        row_count: nat,
        id: Seq<char>,
    ) -> AddressText {
        AddressText {
            monitoring_endpoint,
            moniker,
            namespace: self.namespace@,
            event_name,
            version: self.config_version@,
            source_unique_id: id,
            source_identity: self.source_identity@,
            start_time,
            end_time,
            data_size,
            schema_ids,
            row_count,
        }
    }

    /// The address for a job, given the texts of its two times.
    pub open spec fn job_address(
        self,
        job: UploadJob,
        info: IngestionInfo,
        start_time: Seq<char>,
        end_time: Seq<char>,
        id: Seq<char>,
    ) -> AddressText {
        self.address(
            info.monitoring_endpoint@,
            info.moniker@,
            job.data@.len(),
            job.event_name@,
            job.metadata.schema_ids@,
            start_time,
            end_time,
            job.row_count as nat,
            id,
        )
    }
}

/// The outcome is the error `Http` for a failed exchange.
pub open spec fn is_http_error(
    outcome: Result<IngestionResponse, GenevaUploaderError>,
    report: HttpErrorReport,
) -> bool {
    outcome matches Err(GenevaUploaderError::Http { message, is_timeout }) && message@
        == report.full_text() && is_timeout == report.is_timeout
}

/// The outcome is the classified error for a reply other than acceptance, whose body holds the
/// error code `code`.
pub open spec fn is_upload_failure(
    outcome: Result<IngestionResponse, GenevaUploaderError>,
    status: u16,
    body: Seq<char>,
    retry_after: Option<Duration>,
    code: Option<u32>,
) -> bool {
    &&& outcome matches Err(
        GenevaUploaderError::UploadFailed {
            status: s,
            message,
            kind,
            retry_after: wait,
            gig_error_code,
        },
    )
    &&& s == status
    &&& message@ == body
    &&& gig_error_code == code
    &&& kind == gig_error_kind(status, code)
    &&& wait == retry_after
}

/// The one step that an event makes an upload take: the state after it and what is to be done.
/// `format_timestamp` writes a time, in nanoseconds since the Unix epoch, as the gateway reads it.
pub open spec fn upload_step<T: Fn(u64) -> String>(
    config: GenevaUploaderConfig,
    format_timestamp: T,
    state: UploadState,
    event: UploadEvent,
    next: UploadState,
    action: UploadAction,
) -> bool {
    match (state, event) {
        (UploadState::Ready(job), UploadEvent::Start) => {
            if job.data@.len() > GIG_MAX_CONTENT_LENGTH {
                &&& next is Finished
                &&& action == UploadAction::Finish {
                    outcome: Err(
                        GenevaUploaderError::PayloadTooLarge {
                            size: job.data@.len() as usize,
                            limit: GIG_MAX_CONTENT_LENGTH,
                        },
                    ),
                    invalidate_cache: false,
                }
            } else {
                &&& next == UploadState::AwaitingInfo(job)
                &&& action is FetchInfo
            }
        },
        (UploadState::AwaitingInfo(job), UploadEvent::Info(answer)) => match answer {
            Ok(info) => {
                &&& next is AwaitingReply
                &&& action matches UploadAction::Post { url, authorization, body }
                &&& body == job.data
                &&& authorization@ == "Bearer "@ + info.auth_token@
                &&& exists|start_time: String, end_time: String, id: Seq<char>|
                    {
                        &&& #[trigger] call_ensures(
                            format_timestamp,
                            (job.metadata.start_time,),
                            start_time,
                        )
                        &&& #[trigger] call_ensures(
                            format_timestamp,
                            (job.metadata.end_time,),
                            end_time,
                        )
                        &&& #[trigger] is_uuid_v4(id)
                        &&& url@ == without_end_slashes(info.endpoint@) + "/"@
                            + config.job_address(job, info, start_time@, end_time@, id).uri()
                    }
            },
            Err(err) => {
                &&& next is Finished
                &&& action == UploadAction::Finish {
                    outcome: Err(GenevaUploaderError::ConfigClient(err)),
                    invalidate_cache: false,
                }
            },
        },
        (UploadState::AwaitingReply, UploadEvent::Reply(answer)) => match answer {
            Ok((code, headers)) => {
                &&& next matches UploadState::AwaitingBody { status, retry_after }
                &&& status == code
                &&& is_clocked_span(header_contents(headers), span(retry_after))
                &&& action is ReadBody
            },
            Err(report) => {
                &&& next is Finished
                &&& action matches UploadAction::Finish { outcome, invalidate_cache }
                &&& is_http_error(outcome, report)
                &&& !invalidate_cache
            },
        },
        (UploadState::AwaitingBody { status, retry_after }, UploadEvent::Body(answer)) => {
            match answer {
                Ok(text) => if status == STATUS_ACCEPTED {
                    &&& next is AwaitingTicket
                    &&& action == UploadAction::ReadTicket { reply: text }
                } else {
                    &&& next is Finished
                    &&& action matches UploadAction::Finish { outcome, invalidate_cache }
                    &&& is_upload_failure(
                        outcome,
                        status,
                        text@,
                        retry_after,
                        body_error_code(text@),
                    )
                    &&& is_plain_code(text@, body_error_code(text@))
                    &&& invalidate_cache == (gig_error_kind(status, body_error_code(text@))
                        == GigErrorKind::AuthFailure)
                },
                Err(report) => {
                    &&& next is Finished
                    &&& action matches UploadAction::Finish { outcome, invalidate_cache }
                    &&& is_http_error(outcome, report)
                    &&& !invalidate_cache
                },
            }
        },
        (UploadState::AwaitingTicket, UploadEvent::Ticket(answer)) => {
            &&& next is Finished
            &&& action == UploadAction::Finish {
                outcome: match answer {
                    Ok(response) => Ok(response),
                    Err(text) => Err(GenevaUploaderError::SerdeJson(text)),
                },
                invalidate_cache: false,
            }
        },
        _ => false,
    }
}

/// The two times of a job can be written.
pub open spec fn formats_times<T: Fn(u64) -> String>(format_timestamp: T, job: UploadJob) -> bool {
    &&& call_requires(format_timestamp, (job.metadata.start_time,))
    &&& call_requires(format_timestamp, (job.metadata.end_time,))
}

/// The end of an upload with an error that leaves the cached token alone.
fn fail(err: GenevaUploaderError) -> (r: (UploadState, UploadAction))
    ensures
        r.0 is Finished,
        r.1 == (UploadAction::Finish { outcome: Err(err), invalidate_cache: false }),
{
    (UploadState::Finished, UploadAction::Finish { outcome: Err(err), invalidate_cache: false })
}

/// The end of an upload that the gateway refused: the classified error, and the cached token
/// dropped if the reply is an authorization failure.
pub fn refused(
    status: u16,
    body: String,
    retry_after: Option<Duration>,
    gig_error_code: Option<u32>,
) -> (r: (UploadState, UploadAction))
    ensures
        r.0 is Finished,
        r.1 matches UploadAction::Finish { outcome, invalidate_cache } && is_upload_failure(
            outcome,
            status,
            body@,
            retry_after,
            gig_error_code,
        ) && invalidate_cache == (gig_error_kind(status, gig_error_code)
            == GigErrorKind::AuthFailure),
{
    let kind = classify_gig_error(status, gig_error_code);
    let invalidate_cache = kind == GigErrorKind::AuthFailure;
    let outcome = Err(
        GenevaUploaderError::UploadFailed {
            status,
            message: body,
            kind,
            retry_after,
            gig_error_code,
        },
    );
    (UploadState::Finished, UploadAction::Finish { outcome, invalidate_cache })
}

impl<C, H> GenevaUploader<C, H> {
    /// Constructs an uploader on a client of the configuration service, with an HTTP client that
    /// `build_h1_client` makes from the settings it is given.
    pub fn from_config_client<B: FnOnce(HttpClientSettings) -> Result<H, HttpErrorReport>>(
        config_client: Arc<C>,
        uploader_config: GenevaUploaderConfig,
        build_h1_client: B,
    ) -> (r: Result<GenevaUploader<C, H>, GenevaUploaderError>)
        requires
            forall|settings: HttpClientSettings|
                settings_for(uploader_config.request_timeout, settings) ==> #[trigger]
                    call_requires(build_h1_client, (settings,)),
        ensures
            exists|settings: HttpClientSettings, built: Result<H, HttpErrorReport>|
                {
                    &&& settings_for(uploader_config.request_timeout, settings)
                    &&& #[trigger] call_ensures(build_h1_client, (settings,), built)
                    &&& match built {
                        Ok(http_client) => r == Ok::<GenevaUploader<C, H>, GenevaUploaderError>(
                            GenevaUploader { config_client, config: uploader_config, http_client },
                        ),
                        Err(report) => {
                            &&& r matches Err(GenevaUploaderError::Http { message, is_timeout })
                            &&& message@ == report.full_text()
                            &&& is_timeout == report.is_timeout
                        },
                    }
                },
    {
        let settings = HttpClientSettings::new(uploader_config.request_timeout);
        let ghost given = settings;
        let built = build_h1_client(settings);
        assert(call_ensures(build_h1_client, (given,), built));
        match built {
            Ok(http_client) => Ok(
                GenevaUploader { config_client, config: uploader_config, http_client },
            ),
            Err(report) => Err(GenevaUploaderError::from(report)),
        }
    }

    /// Creates the GIG upload URI with required parameters. Each call makes up a new unique ID for
    /// the source. `format_timestamp` writes the two times of the metadata as the gateway reads
    /// them.
    pub fn create_upload_uri<T: Fn(u64) -> String>(
        &self,
        monitoring_endpoint: &str,
        moniker: &str,
        data_size: usize,
        event_name: &str,
        metadata: &BatchMetadata,
        row_count: usize,
        format_timestamp: T,
    ) -> (r: Result<String, GenevaUploaderError>)
        requires
            call_requires(format_timestamp, (metadata.start_time,)),
            call_requires(format_timestamp, (metadata.end_time,)),
        ensures
            r matches Ok(uri) && exists|start_time: String, end_time: String, id: Seq<char>|
                {
                    &&& #[trigger] call_ensures(
                        format_timestamp,
                        (metadata.start_time,),
                        start_time,
                    )
                    &&& #[trigger] call_ensures(format_timestamp, (metadata.end_time,), end_time)
                    &&& #[trigger] is_uuid_v4(id)
                    &&& uri@ == self.config.address(
                        monitoring_endpoint@,
                        moniker@,
                        data_size as nat,
                        event_name@,
                        metadata.schema_ids@,
                        start_time@,
                        end_time@,
                        row_count as nat,
                        id,
                    ).uri()
                },
    {
        let start_time = format_timestamp(metadata.start_time);
        let end_time = format_timestamp(metadata.end_time);
        let source_unique_id = random_uuid();
        let address = Address {
            monitoring_endpoint,
            moniker,
            namespace: self.config.namespace.as_str(),
            event_name,
            version: self.config.config_version.as_str(),
            source_unique_id: source_unique_id.as_str(),
            source_identity: self.config.source_identity.as_str(),
            start_time: start_time.as_str(),
            end_time: end_time.as_str(),
            data_size,
            schema_ids: metadata.schema_ids.as_str(),
            row_count,
        };
        assert(address@ == self.config.address(
            monitoring_endpoint@,
            moniker@,
            data_size as nat,
            event_name@,
            metadata.schema_ids@,
            start_time@,
            end_time@,
            row_count as nat,
            source_unique_id@,
        ));
        Ok(address.uri())
    }

    /// Takes the next step of an upload. The caller performs the action and comes back with the
    /// event that it led to, until the action is to finish.
    ///
    /// On auth failures (401/403) the cached token is to be invalidated, so that the next attempt
    /// fetches a fresh one. On failure the error carries a [`GigErrorKind`], so that callers can
    /// decide whether to retry, drop, or refresh credentials.
    ///
    /// `format_timestamp` writes the two times of the batch as the gateway reads them. It is called
    /// for the post alone.
    pub fn upload<T: Fn(u64) -> String>(
        &self,
        state: UploadState,
        event: UploadEvent,
        format_timestamp: T,
    ) -> (r: (UploadState, UploadAction))
        requires
            state.expects(event),
            match (state, event) {
                (UploadState::AwaitingInfo(job), UploadEvent::Info(Ok(_))) => formats_times(
                    format_timestamp,
                    job,
                ),
                _ => true,
            },
        ensures
            upload_step(self.config, format_timestamp, state, event, r.0, r.1),
    {
        match (state, event) {
            (UploadState::Ready(job), UploadEvent::Start) => {
                // A payload that the gateway would refuse is rejected beforehand.
                if job.data.len() > GIG_MAX_CONTENT_LENGTH {
                    fail(
                        GenevaUploaderError::PayloadTooLarge {
                            size: job.data.len(),
                            limit: GIG_MAX_CONTENT_LENGTH,
                        },
                    )
                } else {
                    (UploadState::AwaitingInfo(job), UploadAction::FetchInfo)
                }
            },
            (UploadState::AwaitingInfo(job), UploadEvent::Info(answer)) => match answer {
                Ok(info) => self.post(job, info, format_timestamp),
                Err(err) => fail(GenevaUploaderError::ConfigClient(err)),
            },
            (UploadState::AwaitingReply, UploadEvent::Reply(answer)) => match answer {
                Ok((status, headers)) => {
                    let retry_after = parse_retry_after(&headers);
                    (UploadState::AwaitingBody { status, retry_after }, UploadAction::ReadBody)
                },
                Err(report) => fail(GenevaUploaderError::from(report)),
            },
            (UploadState::AwaitingBody { status, retry_after }, UploadEvent::Body(answer)) => {
                match answer {
                    Ok(body) => if status == STATUS_ACCEPTED {
                        (UploadState::AwaitingTicket, UploadAction::ReadTicket { reply: body })
                    } else {
                        let gig_error_code = parse_gig_error_code(body.as_str());
                        refused(status, body, retry_after, gig_error_code)
                    },
                    Err(report) => fail(GenevaUploaderError::from(report)),
                }
            },
            (UploadState::AwaitingTicket, UploadEvent::Ticket(answer)) => match answer {
                Ok(response) => (
                    UploadState::Finished,
                    UploadAction::Finish { outcome: Ok(response), invalidate_cache: false },
                ),
                Err(text) => fail(GenevaUploaderError::SerdeJson(text)),
            },
            (state, _) => {
                assert(false);
                (state, UploadAction::ReadBody)
            },
        }
    }

    /// The post of a job.
    fn post<T: Fn(u64) -> String>(
        &self,
        job: UploadJob,
        info: IngestionInfo,
        format_timestamp: T,
    ) -> (r: (UploadState, UploadAction))
        requires
            formats_times(format_timestamp, job),
        ensures
            upload_step(
                self.config,
                format_timestamp,
                UploadState::AwaitingInfo(job),
                UploadEvent::Info(Ok(info)),
                r.0,
                r.1,
            ),
    {
        let upload_uri = match self.create_upload_uri(
            info.monitoring_endpoint.as_str(),
            info.moniker.as_str(),
            job.data.len(),
            job.event_name.as_str(),
            &job.metadata,
            job.row_count,
            format_timestamp,
        ) {
            Ok(uri) => uri,
            Err(err) => {
                return fail(err);
            },
        };
        let mut url = trim_end_slashes(info.endpoint.as_str()).to_owned();
        url.append("/");
        url.append(upload_uri.as_str());
        let authorization = "Bearer ".to_owned().concat(info.auth_token.as_str());
        proof {
            let (start_time, end_time, id) = choose|
                start_time: String,
                end_time: String,
                id: Seq<char>,
            |
                {
                    &&& #[trigger] call_ensures(
                        format_timestamp,
                        (job.metadata.start_time,),
                        start_time,
                    )
                    &&& #[trigger] call_ensures(
                        format_timestamp,
                        (job.metadata.end_time,),
                        end_time,
                    )
                    &&& #[trigger] is_uuid_v4(id)
                    &&& upload_uri@ == self.config.job_address(
                        job,
                        info,
                        start_time@,
                        end_time@,
                        id,
                    ).uri()
                };
            assert(url@ == without_end_slashes(info.endpoint@) + "/"@ + self.config.job_address(
                job,
                info,
                start_time@,
                end_time@,
                id,
            ).uri());
        }
        (UploadState::AwaitingReply, UploadAction::Post { url, authorization, body: job.data })
    }
}

/// A run of an upload from its start: `states[i]` and `events[i]` lead to `states[i + 1]` and
/// `actions[i]`.
pub open spec fn is_upload_run<T: Fn(u64) -> String>(
    config: GenevaUploaderConfig,
    format_timestamp: T,
    job: UploadJob,
    states: Seq<UploadState>,
    events: Seq<UploadEvent>,
    actions: Seq<UploadAction>,
) -> bool {
    &&& states.len() == events.len() + 1
    &&& actions.len() == events.len()
    &&& states[0] == UploadState::Ready(job)
    &&& forall|i: int|
        #![trigger events[i]]
        #![trigger actions[i]]
        0 <= i < events.len() ==> upload_step(
            config,
            format_timestamp,
            states[i],
            events[i],
            states[i + 1],
            actions[i],
        )
}

/// Where a run stands after `i` steps: its state is that of the step, or it is over.
proof fn lemma_run_state<T: Fn(u64) -> String>(
    config: GenevaUploaderConfig,
    format_timestamp: T,
    job: UploadJob,
    states: Seq<UploadState>,
    events: Seq<UploadEvent>,
    actions: Seq<UploadAction>,
    i: int,
)
    requires
        is_upload_run(config, format_timestamp, job, states, events, actions),
        0 <= i < states.len(),
    ensures
        states[i] is Finished || states[i].steps_left() == 5 - i,
        i < events.len() ==> states[i] !is Finished,
        states[i] matches UploadState::AwaitingInfo(j) ==> j == job && job.data@.len()
            <= GIG_MAX_CONTENT_LENGTH,
    decreases i,
{
    if i > 0 {
        lemma_run_state(config, format_timestamp, job, states, events, actions, i - 1);
        let before = events[i - 1];
    }
    if i < events.len() {
        let at = events[i];
    }
}

/// Each step brings an upload closer to its end.
pub proof fn law_each_step_comes_closer_to_the_end<T: Fn(u64) -> String>(
    config: GenevaUploaderConfig,
    format_timestamp: T,
    state: UploadState,
    event: UploadEvent,
    next: UploadState,
    action: UploadAction,
)
    requires
        upload_step(config, format_timestamp, state, event, next, action),
    ensures
        next.steps_left() < state.steps_left(),
        next is Finished <==> action is Finish,
{
}

/// An upload is over after five steps at the latest.
pub proof fn law_upload_ends<T: Fn(u64) -> String>(
    config: GenevaUploaderConfig,
    format_timestamp: T,
    job: UploadJob,
    states: Seq<UploadState>,
    events: Seq<UploadEvent>,
    actions: Seq<UploadAction>,
)
    requires
        is_upload_run(config, format_timestamp, job, states, events, actions),
    ensures
        events.len() <= 5,
        events.len() == 5 ==> states[5] is Finished,
{
    if events.len() >= 5 {
        lemma_run_state(config, format_timestamp, job, states, events, actions, 5);
    }
}

/// An upload posts at most once, as its second action, and then the whole batch as it is, which is
/// no larger than the gateway takes.
pub proof fn law_upload_posts_the_batch_once<T: Fn(u64) -> String>(
    config: GenevaUploaderConfig,
    format_timestamp: T,
    job: UploadJob,
    states: Seq<UploadState>,
    events: Seq<UploadEvent>,
    actions: Seq<UploadAction>,
    i: int,
)
    requires
        is_upload_run(config, format_timestamp, job, states, events, actions),
        0 <= i < actions.len(),
        actions[i] is Post,
    ensures
        i == 1,
        actions[i]->body == job.data,
        job.data@.len() <= GIG_MAX_CONTENT_LENGTH,
{
    lemma_run_state(config, format_timestamp, job, states, events, actions, i);
}

/// A batch that is larger than the gateway takes is refused at once: nothing is fetched or sent,
/// and the error is one that no retry can cure.
pub proof fn law_oversized_batch_is_refused_unsent<T: Fn(u64) -> String>(
    config: GenevaUploaderConfig,
    format_timestamp: T,
    job: UploadJob,
    states: Seq<UploadState>,
    events: Seq<UploadEvent>,
    actions: Seq<UploadAction>,
)
    requires
        is_upload_run(config, format_timestamp, job, states, events, actions),
        job.data@.len() > GIG_MAX_CONTENT_LENGTH,
        events.len() > 0,
    ensures
        actions.len() == 1,
        actions[0] matches UploadAction::Finish { outcome: Err(err), .. } && err
            == (GenevaUploaderError::PayloadTooLarge {
            size: job.data@.len() as usize,
            limit: GIG_MAX_CONTENT_LENGTH,
        }) && !err.error_kind().retryable(),
{
    let first = events[0];
    if events.len() > 1 {
        let second = events[1];
    }
}

/// The cached token is dropped exactly when the gateway's reply is an authorization failure.
pub proof fn law_token_is_dropped_on_auth_failures_alone<T: Fn(u64) -> String>(
    config: GenevaUploaderConfig,
    format_timestamp: T,
    state: UploadState,
    event: UploadEvent,
    next: UploadState,
    action: UploadAction,
)
    requires
        upload_step(config, format_timestamp, state, event, next, action),
        action is Finish,
    ensures
        action->invalidate_cache <==> (action->outcome matches Err(
            GenevaUploaderError::UploadFailed { kind, .. },
        ) && kind == GigErrorKind::AuthFailure),
{
}

/// A reply of status 403 whose body spells out the fallback code and no more ends the upload with a
/// fallback directive, which no retry cures, and keeps the cached token. With an empty body it is
/// an authorization failure, and the token is dropped.
pub proof fn law_plain_forbidden_replies<T: Fn(u64) -> String>(
    config: GenevaUploaderConfig,
    format_timestamp: T,
    retry_after: Option<Duration>,
    body: String,
    next: UploadState,
    action: UploadAction,
)
    requires
        upload_step(
            config,
            format_timestamp,
            UploadState::AwaitingBody { status: 403, retry_after },
            UploadEvent::Body(Ok(body)),
            next,
            action,
        ),
    ensures
        body@ == number_body("Error"@, "Code"@, GIG_FALLBACK_CODE as u64) ==> {
            &&& action matches UploadAction::Finish { outcome: Err(err), invalidate_cache: false }
            &&& err.error_kind() == GigErrorKind::FallbackDirective
            &&& !err.error_kind().retryable()
        },
        body@.len() == 0 ==> {
            &&& action matches UploadAction::Finish { outcome: Err(err), invalidate_cache: true }
            &&& err.error_kind() == GigErrorKind::AuthFailure
        },
{
}

/// A failed upload's error tells the reply as it was: the status is not acceptance, the code is the
/// one in the body, and the kind is the one that the two stand for.
pub proof fn law_failures_are_classified<T: Fn(u64) -> String>(
    config: GenevaUploaderConfig,
    format_timestamp: T,
    state: UploadState,
    event: UploadEvent,
    next: UploadState,
    action: UploadAction,
)
    requires
        upload_step(config, format_timestamp, state, event, next, action),
    ensures
        action matches UploadAction::Finish {
            outcome: Err(
                GenevaUploaderError::UploadFailed { status, message, kind, gig_error_code, .. },
            ),
            ..
        } ==> {
            &&& status != STATUS_ACCEPTED
            &&& gig_error_code == body_error_code(message@)
            &&& kind == gig_error_kind(status, gig_error_code)
        },
{
}

/// An upload succeeds only after the gateway accepted the batch: the reply to the post had status
/// 202, and the ticket is the one that was read from its body.
pub proof fn law_success_means_accepted<T: Fn(u64) -> String>(
    config: GenevaUploaderConfig,
    format_timestamp: T,
    job: UploadJob,
    states: Seq<UploadState>,
    events: Seq<UploadEvent>,
    actions: Seq<UploadAction>,
    i: int,
)
    requires
        is_upload_run(config, format_timestamp, job, states, events, actions),
        0 <= i < actions.len(),
        actions[i] matches UploadAction::Finish { outcome: Ok(_), .. },
    ensures
        i == 4,
        actions[1] is Post,
        events[2] matches UploadEvent::Reply(Ok((status, _))) && status == STATUS_ACCEPTED,
        events[3] matches UploadEvent::Body(Ok(body)) && actions[3]
            == (UploadAction::ReadTicket { reply: body }),
        events[4] == UploadEvent::Ticket(Ok(actions[4]->outcome->Ok_0)),
{
    lemma_run_state(config, format_timestamp, job, states, events, actions, i);
    assert(upload_step(config, format_timestamp, states[i], events[i], states[i + 1], actions[i]));
    assert(states[i] is AwaitingTicket);
    lemma_run_state(config, format_timestamp, job, states, events, actions, 4);
    lemma_run_state(config, format_timestamp, job, states, events, actions, 3);
    lemma_run_state(config, format_timestamp, job, states, events, actions, 2);
    lemma_run_state(config, format_timestamp, job, states, events, actions, 1);
    assert(upload_step(config, format_timestamp, states[3], events[3], states[4], actions[3]));
    assert(upload_step(config, format_timestamp, states[2], events[2], states[3], actions[2]));
    assert(upload_step(config, format_timestamp, states[1], events[1], states[2], actions[1]));
}

/// The settings are those of the gateway's client: the one header that asks for JSON, the given
/// timeout or else thirty seconds, HTTP/1 alone, and a probe after a minute.
pub open spec fn asks_for_json_within(
    settings: HttpClientSettings,
    request_timeout: Option<Duration>,
) -> bool {
    let contents = header_contents(settings.default_headers);
    &&& forall|name: Seq<char>| #[trigger] contents.contains_key(name) <==> name == "accept"@
    &&& contents["accept"@].len() == "application/json"@.len()
    &&& forall|i: int|
        0 <= i < "application/json"@.len() ==> #[trigger] contents["accept"@][i] as u32
            == "application/json"@[i] as u32
    &&& request_timeout matches Some(timeout) ==> settings.timeout@ == timeout@
    &&& request_timeout is None ==> settings.timeout@ == 30 * 1_000_000_000
    &&& settings.http1_only
    &&& settings.tcp_keepalive@ == 60 * 1_000_000_000
}

/// Settings for a timeout ask for JSON within it.
pub proof fn lemma_settings_ask_for_json(
    settings: HttpClientSettings,
    request_timeout: Option<Duration>,
)
    requires
        settings_for(request_timeout, settings),
    ensures
        asks_for_json_within(settings, request_timeout),
{
    reveal_strlit("application/json");
}

/// The HTTP client is asked to take JSON, to keep to the configured timeout or else thirty seconds,
/// to speak HTTP/1 alone, and to probe an idle connection after a minute.
pub proof fn law_settings_of_the_http_client(
    request_timeout: Option<Duration>,
    r: HttpClientSettings,
)
    requires
        call_ensures(HttpClientSettings::new, (request_timeout,), r),
    ensures
        asks_for_json_within(r, request_timeout),
{
    lemma_settings_ask_for_json(r, request_timeout);
}

/// An uploader holds what it was made of, and the HTTP client that was built for it. It fails only
/// if that client cannot be built, and then says why.
pub proof fn law_uploader_holds_its_parts<
    C,
    H,
    B: FnOnce(HttpClientSettings) -> Result<H, HttpErrorReport>,
>(
    config_client: Arc<C>,
    uploader_config: GenevaUploaderConfig,
    build_h1_client: B,
    r: Result<GenevaUploader<C, H>, GenevaUploaderError>,
)
    requires
        call_ensures(
            GenevaUploader::<C, H>::from_config_client::<B>,
            (config_client, uploader_config, build_h1_client),
            r,
        ),
    ensures
        r matches Ok(uploader) ==> {
            &&& uploader.config_client == config_client
            &&& uploader.config.namespace@ == uploader_config.namespace@
            &&& uploader.config.source_identity@ == uploader_config.source_identity@
            &&& uploader.config.environment@ == uploader_config.environment@
            &&& uploader.config.config_version@ == uploader_config.config_version@
            &&& uploader.config.request_timeout == uploader_config.request_timeout
        },
        exists|settings: HttpClientSettings, built: Result<H, HttpErrorReport>|
            {
                &&& asks_for_json_within(settings, uploader_config.request_timeout)
                &&& #[trigger] call_ensures(build_h1_client, (settings,), built)
                &&& built is Ok <==> r is Ok
                &&& built matches Ok(http_client) ==> r->Ok_0.http_client == http_client
                &&& built matches Err(report) ==> is_http_failure(r->Err_0, report)
            },
{
    let (settings, built) = choose|settings: HttpClientSettings, built: Result<H, HttpErrorReport>|
        {
            &&& settings_for(uploader_config.request_timeout, settings)
            &&& #[trigger] call_ensures(build_h1_client, (settings,), built)
            &&& match built {
                Ok(http_client) => r == Ok::<GenevaUploader<C, H>, GenevaUploaderError>(
                    GenevaUploader { config_client, config: uploader_config, http_client },
                ),
                Err(report) => {
                    &&& r matches Err(GenevaUploaderError::Http { message, is_timeout })
                    &&& message@ == report.full_text()
                    &&& is_timeout == report.is_timeout
                },
            }
        };
    lemma_settings_ask_for_json(settings, uploader_config.request_timeout);
}

/// The error is that of a failed exchange, with the line that describes it.
pub open spec fn is_http_failure(err: GenevaUploaderError, report: HttpErrorReport) -> bool {
    err matches GenevaUploaderError::Http { message, is_timeout } && is_timeout
        == report.is_timeout && forall|line: String| #[trigger]
        call_ensures(HttpErrorReport::describe, (&report,), line) ==> message@ == line@
}

/// Every value of an upload stands in its address: those of the arguments, those of the uploader's
/// configuration, the two times as the formatter writes them, and a new unique ID.
pub proof fn law_upload_uri_spells_its_values<C, H, T: Fn(u64) -> String>(
    uploader: &GenevaUploader<C, H>,
    monitoring_endpoint: &str,
    moniker: &str,
    data_size: usize,
    event_name: &str,
    metadata: &BatchMetadata,
    row_count: usize,
    format_timestamp: T,
    r: Result<String, GenevaUploaderError>,
)
    requires
        call_ensures(
            GenevaUploader::<C, H>::create_upload_uri::<T>,
            (
                uploader,
                monitoring_endpoint,
                moniker,
                data_size,
                event_name,
                metadata,
                row_count,
                format_timestamp,
            ),
            r,
        ),
    ensures
        r is Ok,
        exists|start_time: String, end_time: String, id: Seq<char>|
            {
                &&& #[trigger] call_ensures(format_timestamp, (metadata.start_time,), start_time)
                &&& #[trigger] call_ensures(format_timestamp, (metadata.end_time,), end_time)
                &&& #[trigger] is_uuid_v4(id)
                &&& spells_address(
                    r->Ok_0@,
                    monitoring_endpoint@,
                    moniker@,
                    uploader.config.namespace@,
                    event_name@,
                    uploader.config.config_version@,
                    id,
                    uploader.config.source_identity@,
                    start_time@,
                    end_time@,
                    data_size as nat,
                    metadata.schema_ids@,
                    row_count as nat,
                )
            },
{
    let (start_time, end_time, id) = choose|start_time: String, end_time: String, id: Seq<char>|
        {
            &&& #[trigger] call_ensures(format_timestamp, (metadata.start_time,), start_time)
            &&& #[trigger] call_ensures(format_timestamp, (metadata.end_time,), end_time)
            &&& #[trigger] is_uuid_v4(id)
            &&& r->Ok_0@ == uploader.config.address(
                monitoring_endpoint@,
                moniker@,
                data_size as nat,
                event_name@,
                metadata.schema_ids@,
                start_time@,
                end_time@,
                row_count as nat,
                id,
            ).uri()
        };
    lemma_address_spells_its_values(
        uploader.config.address(
            monitoring_endpoint@,
            moniker@,
            data_size as nat,
            event_name@,
            metadata.schema_ids@,
            start_time@,
            end_time@,
            row_count as nat,
            id,
        ),
    );
}

/// Where no plain value holds an ampersand, the gateway reads every value of an upload back from
/// its address: the size and the number of rows as numbers, the endpoint and the source identity
/// decoded, the rest as it is.
pub proof fn law_upload_uri_reads_back<C, H, T: Fn(u64) -> String>(
    uploader: &GenevaUploader<C, H>,
    monitoring_endpoint: &str,
    moniker: &str,
    data_size: usize,
    event_name: &str,
    metadata: &BatchMetadata,
    row_count: usize,
    format_timestamp: T,
    r: Result<String, GenevaUploaderError>,
)
    requires
        call_ensures(
            GenevaUploader::<C, H>::create_upload_uri::<T>,
            (
                uploader,
                monitoring_endpoint,
                moniker,
                data_size,
                event_name,
                metadata,
                row_count,
                format_timestamp,
            ),
            r,
        ),
        has_no_ampersand(moniker@),
        has_no_ampersand(uploader.config.namespace@),
        has_no_ampersand(event_name@),
        has_no_ampersand(uploader.config.config_version@),
        has_no_ampersand(metadata.schema_ids@),
        forall|time: u64, text: String| #[trigger]
            call_ensures(format_timestamp, (time,), text) ==> has_no_ampersand(text@),
    ensures
        r is Ok,
        exists|start_time: String, end_time: String, id: Seq<char>|
            {
                &&& #[trigger] call_ensures(format_timestamp, (metadata.start_time,), start_time)
                &&& #[trigger] call_ensures(format_timestamp, (metadata.end_time,), end_time)
                &&& #[trigger] is_uuid_v4(id)
                &&& reads_as(
                    r->Ok_0@,
                    monitoring_endpoint@,
                    moniker@,
                    uploader.config.namespace@,
                    event_name@,
                    uploader.config.config_version@,
                    id,
                    uploader.config.source_identity@,
                    start_time@,
                    end_time@,
                    data_size as nat,
                    metadata.schema_ids@,
                    row_count as nat,
                )
            },
{
    law_upload_uri_spells_its_values(
        uploader,
        monitoring_endpoint,
        moniker,
        data_size,
        event_name,
        metadata,
        row_count,
        format_timestamp,
        r,
    );
    let (start_time, end_time, id) = choose|start_time: String, end_time: String, id: Seq<char>|
        {
            &&& #[trigger] call_ensures(format_timestamp, (metadata.start_time,), start_time)
            &&& #[trigger] call_ensures(format_timestamp, (metadata.end_time,), end_time)
            &&& #[trigger] is_uuid_v4(id)
            &&& spells_address(
                r->Ok_0@,
                monitoring_endpoint@,
                moniker@,
                uploader.config.namespace@,
                event_name@,
                uploader.config.config_version@,
                id,
                uploader.config.source_identity@,
                start_time@,
                end_time@,
                data_size as nat,
                metadata.schema_ids@,
                row_count as nat,
            )
        };
    lemma_uuid_has_no_ampersand(id);
    lemma_spelled_values_read_back(
        r->Ok_0@,
        monitoring_endpoint@,
        moniker@,
        uploader.config.namespace@,
        event_name@,
        uploader.config.config_version@,
        id,
        uploader.config.source_identity@,
        start_time@,
        end_time@,
        data_size as nat,
        metadata.schema_ids@,
        row_count as nat,
    );
}

proof fn lemma_uuid_has_no_ampersand(id: Seq<char>)
    requires
        is_uuid_v4(id),
    ensures
        has_no_ampersand(id),
{
    assert forall|i: int| 0 <= i < id.len() implies #[trigger] id[i] != '&' by {}
}

/// A batch of up to eight mebibytes goes on to be uploaded as it is, after the configuration
/// service was asked where to; a larger one is refused with its size and the limit.
pub proof fn law_batches_up_to_the_limit_go_on<C, H, T: Fn(u64) -> String>(
    uploader: &GenevaUploader<C, H>,
    job: UploadJob,
    format_timestamp: T,
    r: (UploadState, UploadAction),
)
    requires
        call_ensures(
            GenevaUploader::<C, H>::upload::<T>,
            (uploader, UploadState::Ready(job), UploadEvent::Start, format_timestamp),
            r,
        ),
    ensures
        job.data@.len() <= 8_388_608 ==> r.0 == UploadState::AwaitingInfo(job) && r.1 is FetchInfo,
        job.data@.len() > 8_388_608 ==> {
            &&& r.0 is Finished
            &&& r.1 is Finish
            &&& !r.1->invalidate_cache
            &&& r.1->outcome is Err
            &&& r.1->outcome->Err_0 matches GenevaUploaderError::PayloadTooLarge { size, limit }
            &&& size == job.data@.len()
            &&& limit == 8_388_608
        },
{
    // The length of a vector fits in a machine word.
    assert(job.data@.len() == job.data.len());
}

/// The batch is posted whole to the gateway's address, with the token of the configuration service,
/// under an address that spells the batch's size, event, times, schemas and rows.
pub proof fn law_post_is_for_the_batch<C, H, T: Fn(u64) -> String>(
    uploader: &GenevaUploader<C, H>,
    job: UploadJob,
    info: IngestionInfo,
    format_timestamp: T,
    r: (UploadState, UploadAction),
)
    requires
        call_ensures(
            GenevaUploader::<C, H>::upload::<T>,
            (
                uploader,
                UploadState::AwaitingInfo(job),
                UploadEvent::Info(Ok(info)),
                format_timestamp,
            ),
            r,
        ),
    ensures
        r.0 is AwaitingReply,
        r.1 is Post,
        r.1->body@ == job.data@,
        r.1->authorization@.len() == 7 + info.auth_token@.len(),
        r.1->authorization@.take(7) == "Bearer "@,
        r.1->authorization@.skip(7) == info.auth_token@,
        exists|base: Seq<char>, start_time: String, end_time: String, id: Seq<char>|
            {
                let url = r.1->url@;
                &&& #[trigger] lacks_end_slashes_of(base, info.endpoint@)
                &&& #[trigger] call_ensures(
                    format_timestamp,
                    (job.metadata.start_time,),
                    start_time,
                )
                &&& #[trigger] call_ensures(format_timestamp, (job.metadata.end_time,), end_time)
                &&& #[trigger] is_uuid_v4(id)
                &&& url.len() > base.len()
                &&& url.take(base.len() as int) == base
                &&& url[base.len() as int] == '/'
                &&& spells_address(
                    url.skip(base.len() as int + 1),
                    info.monitoring_endpoint@,
                    info.moniker@,
                    uploader.config.namespace@,
                    job.event_name@,
                    uploader.config.config_version@,
                    id,
                    uploader.config.source_identity@,
                    start_time@,
                    end_time@,
                    job.data@.len(),
                    job.metadata.schema_ids@,
                    job.row_count as nat,
                )
            },
{
    reveal_strlit("Bearer ");
    reveal_strlit("/");
    let (start_time, end_time, id) = choose|start_time: String, end_time: String, id: Seq<char>|
        {
            &&& #[trigger] call_ensures(format_timestamp, (job.metadata.start_time,), start_time)
            &&& #[trigger] call_ensures(format_timestamp, (job.metadata.end_time,), end_time)
            &&& #[trigger] is_uuid_v4(id)
            &&& r.1->url@ == without_end_slashes(info.endpoint@) + "/"@
                + uploader.config.job_address(job, info, start_time@, end_time@, id).uri()
        };
    let address = uploader.config.job_address(job, info, start_time@, end_time@, id);
    lemma_address_spells_its_values(address);
    let base = without_end_slashes(info.endpoint@);
    lemma_without_end_slashes(info.endpoint@);
    assert(r.1->url@.take(base.len() as int) =~= base);
    assert(r.1->url@.skip(base.len() as int + 1) =~= address.uri());
    assert(r.1->authorization@.take(7) =~= "Bearer "@);
    assert(r.1->authorization@.skip(7) =~= info.auth_token@);
    assert(lacks_end_slashes_of(base, info.endpoint@));
}

/// A failure of the configuration service, of the post or of the receipt of the body, and a ticket
/// that cannot be read, end the upload with that very error, and the cached token stays.
pub proof fn law_failures_on_the_way_end_the_upload<C, H, T: Fn(u64) -> String>(
    uploader: &GenevaUploader<C, H>,
    state: UploadState,
    event: UploadEvent,
    format_timestamp: T,
    r: (UploadState, UploadAction),
)
    requires
        state.expects(event),
        call_ensures(
            GenevaUploader::<C, H>::upload::<T>,
            (uploader, state, event, format_timestamp),
            r,
        ),
        event is Info ==> event->Info_0 is Err,
        event is Reply ==> event->Reply_0 is Err,
        event is Body ==> event->Body_0 is Err,
        event is Ticket ==> event->Ticket_0 is Err,
        event !is Start,
    ensures
        r.0 is Finished,
        r.1 is Finish,
        !r.1->invalidate_cache,
        r.1->outcome is Err,
        event matches UploadEvent::Info(Err(err)) ==> r.1->outcome->Err_0
            == GenevaUploaderError::ConfigClient(err),
        event matches UploadEvent::Reply(Err(report)) ==> is_http_failure(
            r.1->outcome->Err_0,
            report,
        ),
        event matches UploadEvent::Body(Err(report)) ==> is_http_failure(
            r.1->outcome->Err_0,
            report,
        ),
        event matches UploadEvent::Ticket(Err(text)) ==> r.1->outcome->Err_0
            == GenevaUploaderError::SerdeJson(text),
{
}

/// The head of a reply is kept until its body is there: the status as it is and the wait that its
/// headers ask for, for every status.
pub proof fn law_head_of_the_reply_is_kept<C, H, T: Fn(u64) -> String>(
    uploader: &GenevaUploader<C, H>,
    code: u16,
    headers: HeaderMap<HeaderValue>,
    seconds: u64,
    format_timestamp: T,
    r: (UploadState, UploadAction),
)
    requires
        call_ensures(
            GenevaUploader::<C, H>::upload::<T>,
            (
                uploader,
                UploadState::AwaitingReply,
                UploadEvent::Reply(Ok((code, headers))),
                format_timestamp,
            ),
            r,
        ),
    ensures
        r.1 is ReadBody,
        r.0 is AwaitingBody,
        r.0->status == code,
        !header_contents(headers).contains_key("retry-after"@) ==> r.0->retry_after is None,
        header_contents(headers).contains_key("retry-after"@) && spells_seconds(
            header_contents(headers)["retry-after"@],
            seconds,
        ) ==> r.0->retry_after is Some && r.0->retry_after->0@ == seconds * 1_000_000_000,
        is_clocked_span(header_contents(headers), span(r.0->retry_after)),
{
    lemma_wait_of_the_headers(headers, seconds, r.0->retry_after);
}

proof fn lemma_wait_of_the_headers(
    headers: HeaderMap<HeaderValue>,
    seconds: u64,
    wait: Option<Duration>,
)
    requires
        is_clocked_span(header_contents(headers), span(wait)),
    ensures
        !header_contents(headers).contains_key("retry-after"@) ==> wait is None,
        header_contents(headers).contains_key("retry-after"@) && spells_seconds(
            header_contents(headers)["retry-after"@],
            seconds,
        ) ==> wait is Some && wait->0@ == seconds * 1_000_000_000,
{
    let contents = header_contents(headers);
    if contents.contains_key("retry-after"@) && spells_seconds(contents["retry-after"@], seconds) {
        assert forall|now: int| true implies #[trigger] crate::retry::headers_retry_span(
            contents,
            now,
        ) == Some(seconds * 1_000_000_000) by {
            lemma_seconds_in_the_header(contents, seconds, now);
        }
    }
}

/// The error of a refusal tells the reply as it was: its status, its body, the code in the body,
/// the kind that the two stand for, and the wait, for every status.
pub open spec fn tells_the_refusal(
    err: GenevaUploaderError,
    status: u16,
    body: Seq<char>,
    wait: Option<Duration>,
) -> bool {
    &&& err matches GenevaUploaderError::UploadFailed {
        status: s,
        message,
        kind,
        retry_after,
        gig_error_code,
    }
    &&& s == status
    &&& message@ == body
    &&& retry_after == wait
    &&& forall|of: GigErrorKind| #[trigger]
        call_ensures(classify_gig_error, (status, gig_error_code), of) ==> kind == of
    &&& forall|text: &str, code: Option<u32>| #[trigger]
        call_ensures(parse_gig_error_code, (text,), code) && text@ == body ==> gig_error_code
            == code
}

/// The end of a refused upload hands on what it is given: the error has the status, the body, the
/// wait and the code, whatever they are; and the cached token goes exactly on status 401, or on 403
/// without the fallback code.
pub proof fn law_refusal_hands_on_what_it_is_given(
    status: u16,
    body: String,
    retry_after: Option<Duration>,
    gig_error_code: Option<u32>,
    r: (UploadState, UploadAction),
)
    requires
        call_ensures(refused, (status, body, retry_after, gig_error_code), r),
    ensures
        r.0 is Finished,
        r.1 is Finish,
        r.1->invalidate_cache <==> status == 401 || (status == 403 && gig_error_code
            != Some(40200u32)),
        r.1->outcome is Err,
        r.1->outcome->Err_0 is UploadFailed,
        r.1->outcome->Err_0->status == status,
        r.1->outcome->Err_0->UploadFailed_message@ == body@,
        r.1->outcome->Err_0->retry_after == retry_after,
        r.1->outcome->Err_0->gig_error_code == gig_error_code,
        forall|kind: GigErrorKind| #[trigger]
            call_ensures(classify_gig_error, (status, gig_error_code), kind)
                ==> r.1->outcome->Err_0->kind == kind,
{
}

/// A reply of status 202 is accepted, and its body read for the ticket as it is. Any other status
/// ends the upload with the error that tells the reply, and the cached token goes exactly on status
/// 401, or on 403 without the fallback code.
pub proof fn law_replies_are_accepted_or_told<C, H, T: Fn(u64) -> String>(
    uploader: &GenevaUploader<C, H>,
    status: u16,
    retry_after: Option<Duration>,
    body: String,
    text: &str,
    code: Option<u32>,
    format_timestamp: T,
    r: (UploadState, UploadAction),
)
    requires
        call_ensures(
            GenevaUploader::<C, H>::upload::<T>,
            (
                uploader,
                UploadState::AwaitingBody { status, retry_after },
                UploadEvent::Body(Ok(body)),
                format_timestamp,
            ),
            r,
        ),
        text@ == body@,
        call_ensures(parse_gig_error_code, (text,), code),
    ensures
        status == 202 ==> r.0 is AwaitingTicket && r.1 is ReadTicket && r.1->reply@ == body@,
        status != 202 ==> {
            &&& r.0 is Finished
            &&& r.1 is Finish
            &&& r.1->outcome is Err
            &&& tells_the_refusal(r.1->outcome->Err_0, status, body@, retry_after)
            &&& r.1->invalidate_cache <==> status == 401 || (status == 403 && code
                != Some(40200u32))
        },
{
}

/// The ticket that was read is the outcome, as it is.
pub proof fn law_ticket_is_the_outcome<C, H, T: Fn(u64) -> String>(
    uploader: &GenevaUploader<C, H>,
    response: IngestionResponse,
    format_timestamp: T,
    r: (UploadState, UploadAction),
)
    requires
        call_ensures(
            GenevaUploader::<C, H>::upload::<T>,
            (
                uploader,
                UploadState::AwaitingTicket,
                UploadEvent::Ticket(Ok(response)),
                format_timestamp,
            ),
            r,
        ),
    ensures
        r.0 is Finished,
        r.1 is Finish,
        !r.1->invalidate_cache,
        r.1->outcome == Ok::<IngestionResponse, GenevaUploaderError>(response),
{
}

/// Each state takes one kind of event, and a finished upload none.
pub proof fn law_events_that_are_expected(state: UploadState, event: UploadEvent, r: bool)
    requires
        call_ensures(UploadState::is_expected, (&state, &event), r),
    ensures
        state is Ready ==> (r <==> event is Start),
        state is AwaitingInfo ==> (r <==> event is Info),
        state is AwaitingReply ==> (r <==> event is Reply),
        state is AwaitingBody ==> (r <==> event is Body),
        state is AwaitingTicket ==> (r <==> event is Ticket),
        state is Finished ==> !r,
{
}

/// A refused upload hands out the wait that the gateway asked for. In every run whose post was
/// answered with a status other than 202 and whose body was received, the error that ends it tells
/// the reply, and its wait is exactly the one that was read from the headers of that reply: so many
/// seconds where they name a number of seconds, and none where they have no such header.
pub proof fn law_refused_upload_hands_out_the_wait<T: Fn(u64) -> String>(
    config: GenevaUploaderConfig,
    format_timestamp: T,
    job: UploadJob,
    states: Seq<UploadState>,
    events: Seq<UploadEvent>,
    actions: Seq<UploadAction>,
    status: u16,
    headers: HeaderMap<HeaderValue>,
    body: String,
    seconds: u64,
    wait: Option<Duration>,
)
    requires
        is_upload_run(config, format_timestamp, job, states, events, actions),
        events.len() >= 4,
        events[2] == UploadEvent::Reply(Ok((status, headers))),
        status != 202,
        events[3] == UploadEvent::Body(Ok(body)),
        actions[3]->outcome is Err ==> call_ensures(
            GenevaUploaderError::retry_after,
            (&actions[3]->outcome->Err_0,),
            wait,
        ),
    ensures
        events.len() == 4,
        actions[3] is Finish,
        actions[3]->outcome is Err,
        tells_the_refusal(actions[3]->outcome->Err_0, status, body@, wait),
        states[3] is AwaitingBody,
        wait == states[3]->retry_after,
        is_clocked_span(header_contents(headers), span(wait)),
        header_contents(headers).contains_key("retry-after"@) && spells_seconds(
            header_contents(headers)["retry-after"@],
            seconds,
        ) ==> wait is Some && wait->0@ == seconds * 1_000_000_000,
        !header_contents(headers).contains_key("retry-after"@) ==> wait is None,
{
    lemma_run_state(config, format_timestamp, job, states, events, actions, 2);
    lemma_run_state(config, format_timestamp, job, states, events, actions, 3);
    assert(upload_step(config, format_timestamp, states[2], events[2], states[3], actions[2]));
    assert(upload_step(config, format_timestamp, states[3], events[3], states[4], actions[3]));
    lemma_wait_of_the_headers(headers, seconds, states[3]->retry_after);
    if events.len() > 4 {
        lemma_run_state(config, format_timestamp, job, states, events, actions, 4);
    }
}

/// An accepted upload succeeds with its ticket: in every run whose post was answered with status
/// 202 and whose body was received and read, the outcome is the ticket that was read.
pub proof fn law_accepted_upload_succeeds<T: Fn(u64) -> String>(
    config: GenevaUploaderConfig,
    format_timestamp: T,
    job: UploadJob,
    states: Seq<UploadState>,
    events: Seq<UploadEvent>,
    actions: Seq<UploadAction>,
    headers: HeaderMap<HeaderValue>,
    body: String,
    response: IngestionResponse,
)
    requires
        is_upload_run(config, format_timestamp, job, states, events, actions),
        events.len() >= 5,
        events[2] == UploadEvent::Reply(Ok((202, headers))),
        events[3] == UploadEvent::Body(Ok(body)),
        events[4] == UploadEvent::Ticket(Ok(response)),
    ensures
        events.len() == 5,
        actions[1]->body@ == job.data@,
        actions[3] is ReadTicket,
        actions[3]->reply@ == body@,
        actions[4] is Finish,
        actions[4]->outcome == Ok::<IngestionResponse, GenevaUploaderError>(response),
        !actions[4]->invalidate_cache,
{
    law_upload_ends(config, format_timestamp, job, states, events, actions);
    lemma_run_state(config, format_timestamp, job, states, events, actions, 1);
    lemma_run_state(config, format_timestamp, job, states, events, actions, 2);
    lemma_run_state(config, format_timestamp, job, states, events, actions, 3);
    lemma_run_state(config, format_timestamp, job, states, events, actions, 4);
    assert(upload_step(config, format_timestamp, states[1], events[1], states[2], actions[1]));
    assert(upload_step(config, format_timestamp, states[2], events[2], states[3], actions[2]));
    assert(upload_step(config, format_timestamp, states[3], events[3], states[4], actions[3]));
    assert(upload_step(config, format_timestamp, states[4], events[4], states[5], actions[4]));
}

/// A clone of an uploader uploads for the same namespace, identity, environment and version, with
/// the same timeout and the same client of the configuration service.
pub proof fn law_cloned_uploader_is_alike<C, H: Clone>(
    uploader: GenevaUploader<C, H>,
    clone: GenevaUploader<C, H>,
)
    requires
        cloned(uploader, clone),
    ensures
        clone.config_client == uploader.config_client,
        clone.config.namespace@ == uploader.config.namespace@,
        clone.config.source_identity@ == uploader.config.source_identity@,
        clone.config.environment@ == uploader.config.environment@,
        clone.config.config_version@ == uploader.config.config_version@,
        clone.config.request_timeout == uploader.config.request_timeout,
        cloned(uploader.http_client, clone.http_client),
{
}

} // verus!
