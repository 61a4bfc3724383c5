//! Errors of an upload, and what each of them asks of the caller.
use vstd::prelude::*;
use vstd::string::StringExecFns;

use crate::text::{decimal_string, lemma_decimal_spells_the_number, spells_number};
use crate::time::Duration;

verus! {

/// The ingestion gateway's error code that directs the caller to fall back to Azure Storage.
pub const GIG_FALLBACK_CODE: u32 = 40200;

/// Classification of a GIG error for retry decisions.
///
/// Callers use this to decide whether to retry, drop, or refresh credentials.
#[derive(Debug, Clone, Copy, PartialEq, Eq, Structural)]
pub enum GigErrorKind {
    /// 400, 414: malformed request. Never retry; drop the batch.
    BadRequest,
    /// 401 / 403 (without the fallback code): authentication or authorization failure.
    /// The caller should invalidate cached credentials and retry once.
    AuthFailure,
    /// 403 with the fallback code: the server directs a fallback to Azure Storage.
    FallbackDirective,
    /// 408 / HTTP timeouts: transient; retry with backoff.
    Timeout,
    /// Connection and network errors (DNS, TLS, connection refused): transient; retry with backoff.
    NetworkError,
    /// 429: the server is overloaded. Honour `Retry-After` if present.
    RateLimited,
    /// 5xx: server error; retry with backoff.
    ServerError,
    /// The payload exceeds GIG's size limit. Never retry as it is.
    PayloadTooLarge,
    /// Any other unclassified error.
    Unknown,
}

impl GigErrorKind {
    /// The kinds of error that a retry may cure.
    pub open spec fn retryable(self) -> bool {
        ||| self == GigErrorKind::AuthFailure
        ||| self == GigErrorKind::Timeout
        ||| self == GigErrorKind::NetworkError
        ||| self == GigErrorKind::RateLimited
        ||| self == GigErrorKind::ServerError
    }

    /// The name of the kind.
    pub open spec fn name(self) -> Seq<char> {
        match self {
            GigErrorKind::BadRequest => "BadRequest"@,
            GigErrorKind::AuthFailure => "AuthFailure"@,
            GigErrorKind::FallbackDirective => "FallbackDirective"@,
            GigErrorKind::Timeout => "Timeout"@,
            GigErrorKind::NetworkError => "NetworkError"@,
            GigErrorKind::RateLimited => "RateLimited"@,
            GigErrorKind::ServerError => "ServerError"@,
            GigErrorKind::PayloadTooLarge => "PayloadTooLarge"@,
            GigErrorKind::Unknown => "Unknown"@,
        }
    }

    /// Returns `true` when the request could succeed if retried
    /// (possibly after a delay or credential refresh).
    pub fn is_retryable(self) -> (r: bool)
        ensures
            r == self.retryable(),
    {
        matches!(
            self,
            GigErrorKind::AuthFailure
                | GigErrorKind::Timeout
                | GigErrorKind::NetworkError
                | GigErrorKind::RateLimited
                | GigErrorKind::ServerError
        )
    }

    /// The name of the kind as text.
    pub fn to_string(&self) -> (r: String)
        ensures
            r@ == self.name(),
    {
        let name = match self {
            GigErrorKind::BadRequest => "BadRequest",
            GigErrorKind::AuthFailure => "AuthFailure",
            GigErrorKind::FallbackDirective => "FallbackDirective",
            GigErrorKind::Timeout => "Timeout",
            GigErrorKind::NetworkError => "NetworkError",
            GigErrorKind::RateLimited => "RateLimited",
            GigErrorKind::ServerError => "ServerError",
            GigErrorKind::PayloadTooLarge => "PayloadTooLarge",
            GigErrorKind::Unknown => "Unknown",
        };
        name.to_owned()
    }
}

/// The kind of error that an HTTP status and an optional GIG error code stand for.
pub open spec fn gig_error_kind(status: u16, gig_error_code: Option<u32>) -> GigErrorKind {
    if status == 400 || status == 414 {
        GigErrorKind::BadRequest
    } else if status == 403 && gig_error_code == Some(GIG_FALLBACK_CODE) {
        GigErrorKind::FallbackDirective
    } else if status == 401 || status == 403 {
        GigErrorKind::AuthFailure
    } else if status == 408 {
        GigErrorKind::Timeout
    } else if status == 429 {
        GigErrorKind::RateLimited
    } else if 500 <= status <= 599 {
        GigErrorKind::ServerError
    } else {
        GigErrorKind::Unknown
    }
}

/// Classifies an HTTP status and an optional GIG error code.
pub fn classify_gig_error(status: u16, gig_error_code: Option<u32>) -> (r: GigErrorKind)
    ensures
        r == gig_error_kind(status, gig_error_code),
{
    match status {
        400 | 414 => GigErrorKind::BadRequest,
        401 => GigErrorKind::AuthFailure,
        403 => {
            let fallback = match gig_error_code {
                Some(code) => code == GIG_FALLBACK_CODE,
                None => false,
            };
            if fallback {
                GigErrorKind::FallbackDirective
            } else {
                GigErrorKind::AuthFailure
            }
        },
        408 => GigErrorKind::Timeout,
        429 => GigErrorKind::RateLimited,
        500..=599 => GigErrorKind::ServerError,
        _ => GigErrorKind::Unknown,
    }
}

/// One error behind a failed HTTP exchange: its text, and the kind of I/O error that it is, if it
/// is one.
#[derive(Debug, Clone)]
pub struct ErrorCause {
    pub text: String,
    pub io_kind: Option<String>,
}

/// What an HTTP client reports of an exchange that failed.
#[derive(Debug, Clone)]
pub struct HttpErrorReport {
    /// The error's own text.
    pub text: String,
    /// The URL of the request, if the error knows it.
    pub url: Option<String>,
    /// The status of the response, if the error came from one.
    pub status: Option<String>,
    pub is_timeout: bool,
    pub is_connect: bool,
    pub is_body: bool,
    pub is_decode: bool,
    pub is_request: bool,
    /// The chain of errors behind this one, the nearest first.
    pub causes: Vec<ErrorCause>,
}

/// `label` and the text behind it, or nothing where there is no text.
pub open spec fn labelled(label: Seq<char>, text: Option<String>) -> Seq<char> {
    match text {
        Some(t) => label + t@,
        None => Seq::empty(),
    }
}

/// The text for the cause at place `i` of the chain.
pub open spec fn cause_text(i: int, cause: ErrorCause) -> Seq<char> {
    ", cause["@ + crate::text::decimal(i as nat) + "]: "@ + cause.text@ + (match cause.io_kind {
        Some(kind) => " (io::ErrorKind::"@ + kind@ + ")"@,
        None => Seq::empty(),
    })
}

/// The texts for a chain of causes, one after the other.
pub open spec fn causes_text(causes: Seq<ErrorCause>) -> Seq<char>
    decreases causes.len(),
{
    if causes.len() == 0 {
        Seq::empty()
    } else {
        causes_text(causes.drop_last()) + cause_text(causes.len() - 1, causes.last())
    }
}

/// An I/O error stands in the chain.
pub open spec fn has_io_cause(causes: Seq<ErrorCause>) -> bool {
    exists|i: int| 0 <= i < causes.len() && (#[trigger] causes[i]).io_kind is Some
}

impl HttpErrorReport {
    /// The broad class of the failure: the first that applies.
    pub open spec fn class_text(self) -> Seq<char> {
        if self.is_timeout {
            ", kind: timeout"@
        } else if self.is_connect {
            ", kind: connect"@
        } else if self.is_body {
            ", kind: body"@
        } else if self.is_decode {
            ", kind: decode"@
        } else if self.is_request {
            ", kind: request"@
        } else {
            Seq::empty()
        }
    }

    /// The whole report as one line.
    pub open spec fn full_text(self) -> Seq<char> {
        self.text@ + labelled(", url: "@, self.url) + labelled(", status: "@, self.status)
            + self.class_text() + causes_text(self.causes@) + (if has_io_cause(self.causes@) {
            Seq::empty()
        } else {
            ", (no io::Error in source chain)"@
        })
    }

    /// Writes the whole report as one line.
    pub fn describe(&self) -> (r: String)
        ensures
            r@ == self.full_text(),
    {
        let mut msg = self.text.clone();
        if let Some(url) = &self.url {
            msg.append(", url: ");
            msg.append(url.as_str());
        }
        assert(msg@ =~= self.text@ + labelled(", url: "@, self.url));
        if let Some(status) = &self.status {
            msg.append(", status: ");
            msg.append(status.as_str());
        }
        assert(msg@ =~= self.text@ + labelled(", url: "@, self.url) + labelled(
            ", status: "@,
            self.status,
        ));
        // The broad class of the failure.
        if self.is_timeout {
            msg.append(", kind: timeout");
        } else if self.is_connect {
            msg.append(", kind: connect");
        } else if self.is_body {
            msg.append(", kind: body");
        } else if self.is_decode {
            msg.append(", kind: decode");
        } else if self.is_request {
            msg.append(", kind: request");
        }
        let ghost head = self.text@ + labelled(", url: "@, self.url) + labelled(
            ", status: "@,
            self.status,
        ) + self.class_text();
        assert(msg@ =~= head);
        // The whole chain of causes.
        let mut found_io = false;
        let mut idx: usize = 0;
        assert(head + causes_text(self.causes@.take(0)) =~= head);
        while idx < self.causes.len()
            invariant
                idx <= self.causes.len(),
                msg@ == head + causes_text(self.causes@.take(idx as int)),
                found_io == has_io_cause(self.causes@.take(idx as int)),
            decreases self.causes.len() - idx,
        {
            let cause = &self.causes[idx];
            let ghost before = self.causes@.take(idx as int);
            let ghost after = self.causes@.take(idx + 1);
            assert(after.drop_last() =~= before);
            assert(forall|i: int| 0 <= i < before.len() ==> #[trigger] after[i] == before[i]);
            assert(after[idx as int] == *cause);
            msg.append(", cause[");
            msg.append(decimal_string(idx as u64).as_str());
            msg.append("]: ");
            msg.append(cause.text.as_str());
            if let Some(kind) = &cause.io_kind {
                msg.append(" (io::ErrorKind::");
                msg.append(kind.as_str());
                msg.append(")");
                found_io = true;
            }
            assert(msg@ =~= head + (causes_text(before) + cause_text(idx as int, *cause)));
            proof {
                if has_io_cause(before) {
                    let i = choose|i: int| 0 <= i < before.len() && before[i].io_kind is Some;
                    assert(after[i].io_kind is Some);
                }
                if has_io_cause(after) && cause.io_kind is None {
                    let i = choose|i: int| 0 <= i < after.len() && after[i].io_kind is Some;
                    assert(before[i].io_kind is Some);
                }
            }
            idx += 1;
        }
        assert(self.causes@.take(idx as int) =~= self.causes@);
        if !found_io {
            msg.append(", (no io::Error in source chain)");
        }
        assert(msg@ =~= self.full_text());
        msg
    }
}

/// Error types of the configuration service's client.
#[derive(Debug, Clone)]
pub enum GenevaConfigClientError {
    /// The HTTP exchange itself failed.
    Http(HttpErrorReport),
    /// The service answered with a status that is no success.
    RequestFailed { status: u16, message: String },
    MsiAuth(String),
    WorkloadIdentityAuth(String),
    AuthInfoNotFound(String),
    JwtTokenError(String),
    Certificate(String),
    MonikerNotFound(String),
    SerdeJson(String),
    InternalError(String),
}

/// The kind of error that a failure of the HTTP exchange itself is.
pub open spec fn transport_error_kind(is_timeout: bool) -> GigErrorKind {
    if is_timeout {
        GigErrorKind::Timeout
    } else {
        GigErrorKind::NetworkError
    }
}

/// The kind of error that a configuration service error is.
pub open spec fn config_client_error_kind(err: GenevaConfigClientError) -> GigErrorKind {
    match err {
        GenevaConfigClientError::Http(report) => transport_error_kind(report.is_timeout),
        GenevaConfigClientError::RequestFailed { status, .. } => gig_error_kind(status, None),
        _ => GigErrorKind::Unknown,
    }
}

/// Classifies a configuration service error.
pub fn classify_config_client_error(err: &GenevaConfigClientError) -> (r: GigErrorKind)
    ensures
        r == config_client_error_kind(*err),
{
    match err {
        GenevaConfigClientError::Http(report) => {
            if report.is_timeout {
                GigErrorKind::Timeout
            } else {
                GigErrorKind::NetworkError
            }
        },
        GenevaConfigClientError::RequestFailed { status, .. } => classify_gig_error(*status, None),
        GenevaConfigClientError::MsiAuth(_)
        | GenevaConfigClientError::WorkloadIdentityAuth(_)
        | GenevaConfigClientError::AuthInfoNotFound(_)
        | GenevaConfigClientError::JwtTokenError(_)
        | GenevaConfigClientError::Certificate(_)
        | GenevaConfigClientError::MonikerNotFound(_)
        | GenevaConfigClientError::SerdeJson(_)
        | GenevaConfigClientError::InternalError(_) => GigErrorKind::Unknown,
    }
}

/// Error types for the Geneva Uploader
#[derive(Debug, Clone)]
pub enum GenevaUploaderError {
    /// The HTTP exchange itself failed.
    Http { message: String, is_timeout: bool },
    /// The gateway's answer could not be read; the reader's own text.
    SerdeJson(String),
    /// The configuration service failed.
    ConfigClient(GenevaConfigClientError),
    /// Structured upload failure with GIG-specific classification.
    UploadFailed {
        status: u16,
        message: String,
        /// Classified error kind for retry decisions.
        kind: GigErrorKind,
        /// `Retry-After` value from GIG, if present.
        retry_after: Option<Duration>,
        /// GIG internal error code from the response body, if present.
        gig_error_code: Option<u32>,
    },
    /// The payload is larger than the gateway takes.
    PayloadTooLarge { size: usize, limit: usize },
    InternalError(String),
}

impl GenevaUploaderError {
    /// The kind of the error.
    pub open spec fn error_kind(self) -> GigErrorKind {
        match self {
            GenevaUploaderError::Http { is_timeout, .. } => transport_error_kind(is_timeout),
            GenevaUploaderError::SerdeJson(_) => GigErrorKind::Unknown,
            GenevaUploaderError::ConfigClient(err) => config_client_error_kind(err),
            GenevaUploaderError::UploadFailed { kind, .. } => kind,
            GenevaUploaderError::PayloadTooLarge { .. } => GigErrorKind::PayloadTooLarge,
            GenevaUploaderError::InternalError(_) => GigErrorKind::Unknown,
        }
    }

    /// The error as one line of text; `config_error` is the text of the configuration service's
    /// error, for the variant that holds one.
    pub open spec fn display_text(self, config_error: Seq<char>) -> Seq<char> {
        match self {
            GenevaUploaderError::Http { message, .. } => "HTTP error: "@ + message@,
            GenevaUploaderError::SerdeJson(text) => "JSON error: "@ + text@,
            GenevaUploaderError::ConfigClient(_) => "Config service error: "@ + config_error,
            GenevaUploaderError::UploadFailed { status, message, kind, .. } => {
                "Upload failed ("@ + kind.name() + ", status "@ + crate::text::decimal(
                    status as nat,
                ) + "): "@ + message@
            },
            GenevaUploaderError::PayloadTooLarge { size, limit } => {
                "Payload too large ("@ + crate::text::decimal(size as nat) + " bytes, limit "@
                    + crate::text::decimal(limit as nat) + " bytes)"@
            },
            GenevaUploaderError::InternalError(text) => "Internal error: "@ + text@,
        }
    }

    /// Returns the [`GigErrorKind`] for this error.
    pub fn kind(&self) -> (r: GigErrorKind)
        ensures
            r == self.error_kind(),
    {
        match self {
            GenevaUploaderError::UploadFailed { kind, .. } => *kind,
            GenevaUploaderError::PayloadTooLarge { .. } => GigErrorKind::PayloadTooLarge,
            GenevaUploaderError::Http { is_timeout, .. } => {
                if *is_timeout {
                    GigErrorKind::Timeout
                } else {
                    GigErrorKind::NetworkError
                }
            },
            GenevaUploaderError::ConfigClient(err) => classify_config_client_error(err),
            GenevaUploaderError::SerdeJson(_) => GigErrorKind::Unknown,
            GenevaUploaderError::InternalError(_) => GigErrorKind::Unknown,
        }
    }

    /// Returns `true` if the error is retryable per the GIG contract.
    pub fn is_retryable(&self) -> (r: bool)
        ensures
            r == self.error_kind().retryable(),
    {
        self.kind().is_retryable()
    }

    /// Returns the `Retry-After` duration hint from GIG, if available.
    pub fn retry_after(&self) -> (r: Option<Duration>)
        ensures
            r == (match *self {
                GenevaUploaderError::UploadFailed { retry_after, .. } => retry_after,
                _ => None,
            }),
    {
        match self {
            GenevaUploaderError::UploadFailed { retry_after, .. } => *retry_after,
            _ => None,
        }
    }

    /// The error for an HTTP exchange that failed.
    pub fn from(err: HttpErrorReport) -> (r: GenevaUploaderError)
        ensures
            r matches GenevaUploaderError::Http { message, is_timeout } && message@
                == err.full_text() && is_timeout == err.is_timeout,
    {
        GenevaUploaderError::Http { message: err.describe(), is_timeout: err.is_timeout }
    }

    /// The error as one line of text. The text of a configuration service error is its own, and is
    /// passed in; no other variant reads it.
    pub fn to_string(&self, config_error: &str) -> (r: String)
        ensures
            r@ == self.display_text(config_error@),
    {
        match self {
            GenevaUploaderError::Http { message, .. } => {
                "HTTP error: ".to_owned().concat(message.as_str())
            },
            GenevaUploaderError::SerdeJson(text) => {
                "JSON error: ".to_owned().concat(text.as_str())
            },
            GenevaUploaderError::ConfigClient(_) => {
                "Config service error: ".to_owned().concat(config_error)
            },
            GenevaUploaderError::UploadFailed { status, message, kind, .. } => {
                let mut out = "Upload failed (".to_owned();
                out.append(kind.to_string().as_str());
                out.append(", status ");
                out.append(decimal_string(*status as u64).as_str());
                out.append("): ");
                out.append(message.as_str());
                out
            },
            GenevaUploaderError::PayloadTooLarge { size, limit } => {
                let mut out = "Payload too large (".to_owned();
                out.append(decimal_string(*size as u64).as_str());
                out.append(" bytes, limit ");
                out.append(decimal_string(*limit as u64).as_str());
                out.append(" bytes)");
                out
            },
            GenevaUploaderError::InternalError(text) => {
                "Internal error: ".to_owned().concat(text.as_str())
            },
        }
    }
}

/// A reply is worth a retry exactly when its status is 401, 408, 429 or 5xx, or 403 without the
/// fallback code.
pub proof fn law_retryable_replies(status: u16, gig_error_code: Option<u32>)
    ensures
        gig_error_kind(status, gig_error_code).retryable() <==> {
            ||| status == 401
            ||| status == 408
            ||| status == 429
            ||| 500 <= status <= 599
            ||| (status == 403 && gig_error_code != Some(GIG_FALLBACK_CODE))
        },
{
}

/// The gateway's own error code decides only under status 403: it tells a fallback directive from
/// an authorization failure, and no other reply is a fallback directive. All codes but the fallback
/// code count alike.
pub proof fn law_error_code_decides_only_under_403(
    status: u16,
    one: Option<u32>,
    other: Option<u32>,
)
    ensures
        status != 403 ==> gig_error_kind(status, one) == gig_error_kind(status, other),
        one != Some(GIG_FALLBACK_CODE) && other != Some(GIG_FALLBACK_CODE) ==> gig_error_kind(
            status,
            one,
        ) == gig_error_kind(status, other),
        gig_error_kind(status, one) == GigErrorKind::FallbackDirective <==> status == 403 && one
            == Some(GIG_FALLBACK_CODE),
{
}

/// No reply of the gateway is classified as a network error or as a payload that is too large:
/// those are found before there is a reply.
pub proof fn law_replies_are_not_local_failures(status: u16, gig_error_code: Option<u32>)
    ensures
        gig_error_kind(status, gig_error_code) != GigErrorKind::NetworkError,
        gig_error_kind(status, gig_error_code) != GigErrorKind::PayloadTooLarge,
{
}

/// A failure of the configuration service is never a fallback directive, nor a payload that is too
/// large.
pub proof fn law_config_failures_direct_no_fallback(err: GenevaConfigClientError)
    ensures
        config_client_error_kind(err) != GigErrorKind::FallbackDirective,
        config_client_error_kind(err) != GigErrorKind::PayloadTooLarge,
{
}

/// The statuses and codes that each kind of error stands for.
pub proof fn law_kinds_of_replies(status: u16, gig_error_code: Option<u32>, r: GigErrorKind)
    requires
        call_ensures(classify_gig_error, (status, gig_error_code), r),
    ensures
        r == GigErrorKind::BadRequest <==> status == 400 || status == 414,
        r == GigErrorKind::AuthFailure <==> status == 401 || (status == 403 && gig_error_code
            != Some(40200u32)),
        r == GigErrorKind::FallbackDirective <==> status == 403 && gig_error_code == Some(40200u32),
        r == GigErrorKind::Timeout <==> status == 408,
        r == GigErrorKind::RateLimited <==> status == 429,
        r == GigErrorKind::ServerError <==> 500 <= status < 600,
        r != GigErrorKind::NetworkError,
        r != GigErrorKind::PayloadTooLarge,
{
}

/// A retry may cure every kind of error but a bad request, a fallback directive, a payload that is
/// too large, and the unknown.
pub proof fn law_kinds_beyond_retry(kind: GigErrorKind, r: bool)
    requires
        call_ensures(GigErrorKind::is_retryable, (kind,), r),
    ensures
        !r <==> kind == GigErrorKind::BadRequest || kind == GigErrorKind::FallbackDirective || kind
            == GigErrorKind::PayloadTooLarge || kind == GigErrorKind::Unknown,
{
}

/// The name of a kind tells it from every other.
pub proof fn law_names_tell_kinds_apart(one: GigErrorKind, other: GigErrorKind, r: String, q: String)
    requires
        call_ensures(GigErrorKind::to_string, (&one,), r),
        call_ensures(GigErrorKind::to_string, (&other,), q),
    ensures
        r@ == q@ <==> one == other,
{
    lemma_first_character(one);
    lemma_first_character(other);
}

/// The first character of a kind's name tells it from every other.
proof fn lemma_first_character(kind: GigErrorKind)
    ensures
        kind.name().len() >= 7,
        kind == GigErrorKind::BadRequest <==> kind.name()[0] == 'B',
        kind == GigErrorKind::AuthFailure <==> kind.name()[0] == 'A',
        kind == GigErrorKind::FallbackDirective <==> kind.name()[0] == 'F',
        kind == GigErrorKind::Timeout <==> kind.name()[0] == 'T',
        kind == GigErrorKind::NetworkError <==> kind.name()[0] == 'N',
        kind == GigErrorKind::RateLimited <==> kind.name()[0] == 'R',
        kind == GigErrorKind::ServerError <==> kind.name()[0] == 'S',
        kind == GigErrorKind::PayloadTooLarge <==> kind.name()[0] == 'P',
        kind == GigErrorKind::Unknown <==> kind.name()[0] == 'U',
{
    reveal_strlit("BadRequest");
    reveal_strlit("AuthFailure");
    reveal_strlit("FallbackDirective");
    reveal_strlit("Timeout");
    reveal_strlit("NetworkError");
    reveal_strlit("RateLimited");
    reveal_strlit("ServerError");
    reveal_strlit("PayloadTooLarge");
    reveal_strlit("Unknown");
}

/// A failure of the exchange with the configuration service is a timeout if it timed out and a
/// network error if not; a reply of the service counts as one of the gateway without a code; any
/// other failure of it is unknown.
pub proof fn law_kinds_of_config_failures(
    err: GenevaConfigClientError,
    kind: GigErrorKind,
    status: u16,
    of_status: GigErrorKind,
)
    requires
        call_ensures(classify_config_client_error, (&err,), kind),
        call_ensures(classify_gig_error, (status, None), of_status),
    ensures
        err matches GenevaConfigClientError::Http(report) ==> kind == (if report.is_timeout {
            GigErrorKind::Timeout
        } else {
            GigErrorKind::NetworkError
        }),
        (err matches GenevaConfigClientError::RequestFailed { status: s, .. } && s == status)
            ==> kind == of_status,
        err !is Http && err !is RequestFailed ==> kind == GigErrorKind::Unknown,
{
}

/// The kind of an error of the uploader: a failed exchange is a timeout if it timed out and a
/// network error if not, a failure of the configuration service has that failure's kind, a refusal
/// has the kind that it carries, and the rest follows from the variant.
pub proof fn law_kinds_of_errors(err: GenevaUploaderError, kind: GigErrorKind)
    requires
        call_ensures(GenevaUploaderError::kind, (&err,), kind),
    ensures
        err matches GenevaUploaderError::Http { is_timeout, .. } ==> kind == (if is_timeout {
            GigErrorKind::Timeout
        } else {
            GigErrorKind::NetworkError
        }),
        err matches GenevaUploaderError::UploadFailed { kind: carried, .. } ==> kind == carried,
        err is PayloadTooLarge <==> (kind == GigErrorKind::PayloadTooLarge && err !is UploadFailed),
        err is SerdeJson || err is InternalError ==> kind == GigErrorKind::Unknown,
{
}

/// A failure of the configuration service has the same kind inside the uploader's error.
pub proof fn law_config_failures_keep_their_kind(
    err: GenevaConfigClientError,
    kind: GigErrorKind,
    wrapped: GigErrorKind,
)
    requires
        call_ensures(classify_config_client_error, (&err,), kind),
        call_ensures(
            GenevaUploaderError::kind,
            (&GenevaUploaderError::ConfigClient(err),),
            wrapped,
        ),
    ensures
        wrapped == kind,
{
}

/// An error is worth a retry exactly if its kind is.
pub proof fn law_errors_are_retried_by_kind(
    err: GenevaUploaderError,
    kind: GigErrorKind,
    by_kind: bool,
    r: bool,
)
    requires
        call_ensures(GenevaUploaderError::kind, (&err,), kind),
        call_ensures(GigErrorKind::is_retryable, (kind,), by_kind),
        call_ensures(GenevaUploaderError::is_retryable, (&err,), r),
    ensures
        r == by_kind,
{
}

/// A refusal hands out the wait that it carries, whatever its status, kind and code are; no other
/// error has one.
pub proof fn law_refusals_hand_out_their_wait(err: GenevaUploaderError, r: Option<Duration>)
    requires
        call_ensures(GenevaUploaderError::retry_after, (&err,), r),
    ensures
        err matches GenevaUploaderError::UploadFailed { retry_after, .. } ==> r == retry_after,
        err !is UploadFailed ==> r is None,
{
}

/// The error for a failed exchange holds the report's line and whether the exchange timed out.
pub proof fn law_failed_exchanges_are_reported(
    report: HttpErrorReport,
    line: String,
    r: GenevaUploaderError,
)
    requires
        call_ensures(HttpErrorReport::describe, (&report,), line),
        call_ensures(GenevaUploaderError::from, (report,), r),
    ensures
        r matches GenevaUploaderError::Http { message, is_timeout } && message@ == line@
            && is_timeout == report.is_timeout,
{
}

/// A report without URL, status and causes is its own text, the first class of failure that
/// applies, and the note that no I/O error is behind it.
pub proof fn law_bare_report(report: HttpErrorReport, r: String)
    requires
        call_ensures(HttpErrorReport::describe, (&report,), r),
        report.url is None,
        report.status is None,
        report.causes@.len() == 0,
    ensures
        report.is_timeout ==> r@ == report.text@
            + ", kind: timeout"@ + ", (no io::Error in source chain)"@,
        !report.is_timeout && report.is_connect ==> r@ == report.text@
            + ", kind: connect"@ + ", (no io::Error in source chain)"@,
        !report.is_timeout && !report.is_connect && report.is_body ==> r@ == report.text@
            + ", kind: body"@ + ", (no io::Error in source chain)"@,
        !report.is_timeout && !report.is_connect && !report.is_body && report.is_decode ==> r@
            == report.text@ + ", kind: decode"@ + ", (no io::Error in source chain)"@,
        !report.is_timeout && !report.is_connect && !report.is_body && !report.is_decode
            && report.is_request ==> r@ == report.text@
            + ", kind: request"@ + ", (no io::Error in source chain)"@,
        !report.is_timeout && !report.is_connect && !report.is_body && !report.is_decode
            && !report.is_request ==> r@ == report.text@ + ", (no io::Error in source chain)"@,
{
    let none = Seq::<char>::empty();
    assert(report.text@ + none + none + report.class_text() + none =~= report.text@
        + report.class_text());
    assert(report.text@ + none =~= report.text@);
}

/// The two reports agree in everything but the URL, the status and the causes.
pub open spec fn same_failure(one: HttpErrorReport, other: HttpErrorReport) -> bool {
    &&& one.text@ == other.text@
    &&& one.is_timeout == other.is_timeout
    &&& one.is_connect == other.is_connect
    &&& one.is_body == other.is_body
    &&& one.is_decode == other.is_decode
    &&& one.is_request == other.is_request
}

/// A URL is told behind the error's own text, and changes nothing else of the report.
pub proof fn law_url_is_told(
    without: HttpErrorReport,
    with: HttpErrorReport,
    url: String,
    r: String,
    q: String,
)
    requires
        call_ensures(HttpErrorReport::describe, (&without,), r),
        call_ensures(HttpErrorReport::describe, (&with,), q),
        same_failure(without, with),
        without.url is None,
        with.url == Some(url),
        without.status == with.status,
        without.causes@ == with.causes@,
    ensures
        exists|tail: Seq<char>|
            r@ == #[trigger] (without.text@ + tail) && q@ == without.text@ + ", url: "@ + url@
                + tail,
{
    let note = if has_io_cause(without.causes@) {
        Seq::empty()
    } else {
        ", (no io::Error in source chain)"@
    };
    let tail = labelled(", status: "@, without.status) + without.class_text() + causes_text(
        without.causes@,
    ) + note;
    assert(with.class_text() == without.class_text());
    assert(r@ =~= without.text@ + tail);
    assert(q@ =~= without.text@ + ", url: "@ + url@ + tail);
}

/// A status is told behind the error's own text and the URL, and changes nothing else of the
/// report.
pub proof fn law_status_is_told(
    without: HttpErrorReport,
    with: HttpErrorReport,
    status: String,
    r: String,
    q: String,
)
    requires
        call_ensures(HttpErrorReport::describe, (&without,), r),
        call_ensures(HttpErrorReport::describe, (&with,), q),
        same_failure(without, with),
        without.url == with.url,
        without.status is None,
        with.status == Some(status),
        without.causes@ == with.causes@,
    ensures
        without.url is None ==> exists|tail: Seq<char>|
            r@ == #[trigger] (without.text@ + tail) && q@ == without.text@ + ", status: "@ + status@
                + tail,
        without.url matches Some(url) ==> exists|tail: Seq<char>|
            r@ == #[trigger] (without.text@ + ", url: "@ + url@ + tail) && q@ == without.text@
                + ", url: "@ + url@ + ", status: "@ + status@ + tail,
{
    let note = if has_io_cause(without.causes@) {
        Seq::empty()
    } else {
        ", (no io::Error in source chain)"@
    };
    let tail = without.class_text() + causes_text(without.causes@) + note;
    assert(with.class_text() == without.class_text());
    match without.url {
        None => {
            assert(r@ =~= without.text@ + tail);
            assert(q@ =~= without.text@ + ", status: "@ + status@ + tail);
        },
        Some(url) => {
            assert(r@ =~= without.text@ + ", url: "@ + url@ + tail);
            assert(q@ =~= without.text@ + ", url: "@ + url@ + ", status: "@ + status@ + tail);
        },
    }
}

/// None of the causes is an I/O error.
pub open spec fn are_no_io_errors(causes: Seq<ErrorCause>) -> bool {
    forall|i: int| 0 <= i < causes.len() ==> (#[trigger] causes[i]).io_kind is None
}

/// The line with one more cause is the line `head` before it, the number of the cause in the chain,
/// its text, and the kind of I/O error that it is, if it is one.
pub open spec fn tells_one_more_cause(
    head: Seq<char>,
    number: Seq<char>,
    cause: ErrorCause,
    line: Seq<char>,
) -> bool {
    match cause.io_kind {
        Some(kind) => line == head + ", cause["@ + number + "]: "@ + cause.text@
            + " (io::ErrorKind::"@ + kind@ + ")"@,
        None => line == head + ", cause["@ + number + "]: "@ + cause.text@,
    }
}

/// The line, with the note behind it that no I/O error is in the chain, where that holds.
pub open spec fn with_note(line: Seq<char>, no_io: bool) -> Seq<char> {
    if no_io {
        line + ", (no io::Error in source chain)"@
    } else {
        line
    }
}

proof fn lemma_one_more_cause(head: Seq<char>, i: nat, cause: ErrorCause)
    ensures
        tells_one_more_cause(
            head,
            crate::text::decimal(i),
            cause,
            head + cause_text(i as int, cause),
        ),
{
    let number = crate::text::decimal(i);
    match cause.io_kind {
        Some(kind) => {
            assert(head + cause_text(i as int, cause) =~= head + ", cause["@ + number + "]: "@
                + cause.text@ + " (io::ErrorKind::"@ + kind@ + ")"@);
        },
        None => {
            assert(head + cause_text(i as int, cause) =~= head + ", cause["@ + number + "]: "@
                + cause.text@);
        },
    }
}

proof fn lemma_line_with_note(report: HttpErrorReport, head: Seq<char>)
    requires
        head == report.text@ + labelled(", url: "@, report.url) + labelled(
            ", status: "@,
            report.status,
        ) + report.class_text() + causes_text(report.causes@),
    ensures
        report.full_text() == with_note(head, are_no_io_errors(report.causes@)),
{
    assert(are_no_io_errors(report.causes@) == !has_io_cause(report.causes@));
    assert(head + Seq::<char>::empty() =~= head);
}

/// One more cause is told behind the others, with its number in the chain, its text and the kind of
/// I/O error that it is, if it is one. The note that there is no I/O error stands at the end
/// exactly as long as no cause is one.
pub proof fn law_each_cause_is_told(
    without: HttpErrorReport,
    with: HttpErrorReport,
    cause: ErrorCause,
    r: String,
    q: String,
)
    requires
        call_ensures(HttpErrorReport::describe, (&without,), r),
        call_ensures(HttpErrorReport::describe, (&with,), q),
        same_failure(without, with),
        without.url == with.url,
        without.status == with.status,
        with.causes@ == without.causes@.push(cause),
    ensures
        exists|head: Seq<char>, number: Seq<char>, line: Seq<char>|
            {
                &&& #[trigger] spells_number(number, without.causes@.len())
                &&& #[trigger] tells_one_more_cause(head, number, cause, line)
                &&& r@ == with_note(head, are_no_io_errors(without.causes@))
                &&& q@ == with_note(line, are_no_io_errors(with.causes@))
            },
{
    let some = without.causes@;
    assert(with.causes@.drop_last() =~= some);
    assert(with.causes@.last() == cause);
    assert(with.class_text() == without.class_text());
    let start = without.text@ + labelled(", url: "@, without.url) + labelled(
        ", status: "@,
        without.status,
    ) + without.class_text();
    let head = start + causes_text(some);
    let line = head + cause_text(some.len() as int, cause);
    assert(start + causes_text(with.causes@) =~= line);
    lemma_line_with_note(without, head);
    lemma_line_with_note(with, line);
    lemma_one_more_cause(head, some.len(), cause);
    lemma_decimal_spells_the_number(some.len());
}

/// The line of an error tells what it holds: the message, the text or the number, each whole,
/// behind words that tell the variant.
pub proof fn law_error_lines(
    err: GenevaUploaderError,
    config_error: &str,
    kind_name: String,
    kind: GigErrorKind,
    r: String,
)
    requires
        call_ensures(GenevaUploaderError::to_string, (&err, config_error), r),
        call_ensures(GenevaUploaderError::kind, (&err,), kind),
        call_ensures(GigErrorKind::to_string, (&kind,), kind_name),
    ensures
        err matches GenevaUploaderError::Http { message, .. } ==> r@ == "HTTP error: "@ + message@,
        err matches GenevaUploaderError::SerdeJson(text) ==> r@ == "JSON error: "@ + text@,
        err is ConfigClient ==> r@ == "Config service error: "@ + config_error@,
        err matches GenevaUploaderError::InternalError(text) ==> r@ == "Internal error: "@ + text@,
        err matches GenevaUploaderError::UploadFailed { status, message, .. } ==> exists|
            number: Seq<char>,
        | #[trigger]
            spells_number(number, status as nat) && r@ == "Upload failed ("@ + kind_name@
                + ", status "@ + number + "): "@ + message@,
        err matches GenevaUploaderError::PayloadTooLarge { size, limit } ==> exists|
            bytes: Seq<char>,
            most: Seq<char>,
        | #[trigger]
            spells_number(bytes, size as nat) && #[trigger] spells_number(most, limit as nat) && r@
                == "Payload too large ("@ + bytes + " bytes, limit "@ + most + " bytes)"@,
{
    match err {
        GenevaUploaderError::UploadFailed { status, .. } => {
            lemma_decimal_spells_the_number(status as nat);
        },
        GenevaUploaderError::PayloadTooLarge { size, limit } => {
            lemma_decimal_spells_the_number(size as nat);
            lemma_decimal_spells_the_number(limit as nat);
        },
        _ => {},
    }
}

/// The names of the kinds.
pub proof fn law_names_of_kinds(kind: GigErrorKind, r: String)
    requires
        call_ensures(GigErrorKind::to_string, (&kind,), r),
    ensures
        r@ == "BadRequest"@ || r@ == "AuthFailure"@ || r@ == "FallbackDirective"@ || r@
            == "Timeout"@ || r@ == "NetworkError"@ || r@ == "RateLimited"@ || r@ == "ServerError"@
            || r@ == "PayloadTooLarge"@ || r@ == "Unknown"@,
        r@ == "BadRequest"@ ==> kind == GigErrorKind::BadRequest,
        r@ == "AuthFailure"@ ==> kind == GigErrorKind::AuthFailure,
        r@ == "FallbackDirective"@ ==> kind == GigErrorKind::FallbackDirective,
        r@ == "Timeout"@ ==> kind == GigErrorKind::Timeout,
        r@ == "NetworkError"@ ==> kind == GigErrorKind::NetworkError,
        r@ == "RateLimited"@ ==> kind == GigErrorKind::RateLimited,
        r@ == "ServerError"@ ==> kind == GigErrorKind::ServerError,
        r@ == "PayloadTooLarge"@ ==> kind == GigErrorKind::PayloadTooLarge,
        r@ == "Unknown"@ ==> kind == GigErrorKind::Unknown,
{
    lemma_first_character(kind);
    lemma_first_character(GigErrorKind::BadRequest);
    lemma_first_character(GigErrorKind::AuthFailure);
    lemma_first_character(GigErrorKind::FallbackDirective);
    lemma_first_character(GigErrorKind::Timeout);
    lemma_first_character(GigErrorKind::NetworkError);
    lemma_first_character(GigErrorKind::RateLimited);
    lemma_first_character(GigErrorKind::ServerError);
    lemma_first_character(GigErrorKind::PayloadTooLarge);
    lemma_first_character(GigErrorKind::Unknown);
}

} // verus!
