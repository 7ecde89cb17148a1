//! What is asked of S3 for each event, and what its answer means.
//!
//! One `PutObject` per audit event, written with an Object Lock retention
//! date, so that the object is immutable for the configured window.

use vstd::prelude::*;

use crate::audit::{AuditError, AuditFault};
use crate::clock;
use crate::config::{RetentionMode, StaticCredentials, WormConfig};
use crate::reading;
use crate::text;

verus! {

pub const SECS_PER_DAY: i64 = 86_400;

/// Where the client takes its credentials from.
pub enum CredentialSource {
    /// The credentials of the configuration, under the given provider name.
    Static { credentials: StaticCredentials, provider_name: &'static str },
    /// The default AWS chain.
    DefaultChain,
}

/// How the S3 service is reached.
pub struct Connection {
    pub region: String,
    pub endpoint_url: Option<String>,
    pub force_path_style: bool,
    pub credentials: CredentialSource,
}

/// The client's settings: where objects go and how long they are locked.
pub struct S3WormClient {
    pub connection: Connection,
    pub bucket: String,
    pub retention_mode: RetentionMode,
    pub retention_days: u32,
    pub request_timeout_ms: u64,
}

/// One `PutObject` request.
pub struct PutRequest {
    pub bucket: String,
    pub key: String,
    pub body: Vec<u8>,
    pub content_type: &'static str,
    pub object_lock_mode: RetentionMode,
    /// Unix time, in seconds, until which the object is locked.
    pub retain_until: i64,
    pub metadata: Vec<(&'static str, String)>,
    /// Deadline of the request, in milliseconds.
    pub timeout_ms: u64,
}

/// What the service itself reported about a refused request.
#[derive(Debug)]
pub struct ServiceError {
    pub code: Option<String>,
    pub message: Option<String>,
}

/// A request that the SDK reported as failed.
#[derive(Debug)]
pub struct PutFailure {
    /// The SDK gave up on a timeout of its own.
    pub sdk_timeout: bool,
    /// The service's report, where the failure is one of the service.
    pub service: Option<ServiceError>,
    /// The SDK's own text for the failure.
    pub display: String,
}

/// How a `PutObject` request ended.
#[derive(Debug)]
pub enum PutOutcome {
    /// The write durably completed.
    Stored,
    /// The deadline passed first.
    DeadlineElapsed,
    /// The SDK reported a failure.
    Failed(PutFailure),
}

/// Unix time until which an object written at `now` stays locked.
pub open spec fn lock_end(now: int, retention_days: int) -> int {
    now + retention_days * SECS_PER_DAY
}

/// Service codes that ask the client to slow down.
pub open spec fn throttling_code(code: Seq<char>) -> bool {
    ||| code == "Throttling"@
    ||| code == "ThrottlingException"@
    ||| code == "RequestLimitExceeded"@
    ||| code == "SlowDown"@
}

impl PutFailure {
    /// The service's code; empty where there is none.
    pub open spec fn code(self) -> Seq<char> {
        match self.service {
            Some(ServiceError { code: Some(code), .. }) => code@,
            _ => seq![],
        }
    }

    /// The service's message; the SDK's own text where there is none.
    pub open spec fn reason(self) -> Seq<char> {
        match self.service {
            Some(ServiceError { message: Some(message), .. }) => message@,
            _ => self.display@,
        }
    }

    /// What the failure is in the audit vocabulary.
    pub open spec fn fault(self) -> AuditFault {
        if self.sdk_timeout {
            AuditFault::Timeout
        } else if throttling_code(self.code()) {
            AuditFault::Throttled
        } else if self.code().len() == 0 {
            AuditFault::WriteFailed(self.reason())
        } else {
            AuditFault::WriteFailed(
                "S3 PutObject ["@ + self.code() + "]: "@ + self.reason(),
            )
        }
    }
}

impl PutOutcome {
    /// What the outcome is in the audit vocabulary; `None` for a write that
    /// completed.
    pub open spec fn fault(self) -> Option<AuditFault> {
        match self {
            PutOutcome::Stored => None,
            PutOutcome::DeadlineElapsed => Some(AuditFault::Timeout),
            PutOutcome::Failed(failure) => Some(failure.fault()),
        }
    }

    /// The result of the write: success only where it durably completed.
    pub fn into_result(self) -> (r: Result<(), AuditError>)
        ensures
            match r {
                Ok(()) => self.fault() is None,
                Err(err) => self.fault() == Some(err@),
            },
            r is Ok <==> self is Stored,
    {
        match self {
            PutOutcome::Stored => Ok(()),
            PutOutcome::DeadlineElapsed => Err(AuditError::Timeout),
            PutOutcome::Failed(failure) => Err(classify_put_error(failure)),
        }
    }
}

/// Maps a failed `PutObject` onto the audit-sink error taxonomy.
pub fn classify_put_error(err: PutFailure) -> (r: AuditError)
    ensures
        r@ == err.fault(),
{
    if err.sdk_timeout {
        return AuditError::Timeout;
    }
    let (code, message): (Option<String>, Option<String>) = match err.service {
        Some(service) => (service.code, service.message),
        None => (None, None),
    };
    let code: String = match code {
        Some(code) => code,
        None => String::new(),
    };
    let reason: String = match message {
        Some(message) => message,
        None => err.display,
    };
    let c = code.as_str();
    if text::same_text(c, "Throttling") || text::same_text(c, "ThrottlingException")
        || text::same_text(c, "RequestLimitExceeded") || text::same_text(c, "SlowDown") {
        return AuditError::Throttled;
    }
    if c.is_empty() {
        AuditError::WriteFailed { reason }
    } else {
        let mut full = text::join3("S3 PutObject [", c, "]: ");
        full.append(reason.as_str());
        AuditError::WriteFailed { reason: full }
    }
}

/// Provider name under which static credentials are registered.
pub const STATIC_PROVIDER: &'static str = "mcpg-worm-static";

/// Content type of every stored object.
pub const CONTENT_TYPE: &'static str = "application/json";

/// Copies static credentials field by field.
fn copy_credentials(creds: &StaticCredentials) -> (r: StaticCredentials)
    ensures
        r == *creds,
{
    StaticCredentials {
        access_key_id: creds.access_key_id.clone(),
        secret_access_key: creds.secret_access_key.clone(),
        session_token: creds.session_token.clone(),
    }
}

impl S3WormClient {
    /// The settings are those of the configuration: every value is taken
    /// over, and the credentials are the static ones exactly if the
    /// configuration has some.
    pub open spec fn configured_by(self, cfg: WormConfig) -> bool {
        &&& self.connection.region == cfg.region
        &&& self.connection.endpoint_url == cfg.endpoint_url
        &&& self.connection.force_path_style == cfg.force_path_style
        &&& self.connection.credentials == (match cfg.credentials {
            Some(credentials) => CredentialSource::Static {
                credentials,
                provider_name: STATIC_PROVIDER,
            },
            None => CredentialSource::DefaultChain,
        })
        &&& self.bucket == cfg.bucket
        &&& self.retention_mode == cfg.retention_mode
        &&& self.retention_days == cfg.retention_days
        &&& self.request_timeout_ms == cfg.request_timeout_ms
    }

    /// The client that a configuration asks for.
    pub fn new(cfg: &WormConfig) -> (client: S3WormClient)
        ensures
            client.configured_by(*cfg),
    {
        let credentials = match &cfg.credentials {
            Some(creds) => CredentialSource::Static {
                credentials: copy_credentials(creds),
                provider_name: STATIC_PROVIDER,
            },
            None => CredentialSource::DefaultChain,
        };
        S3WormClient {
            connection: Connection {
                region: cfg.region.clone(),
                endpoint_url: cfg.endpoint_url.clone(),
                force_path_style: cfg.force_path_style,
                credentials,
            },
            bucket: cfg.bucket.clone(),
            retention_mode: cfg.retention_mode,
            retention_days: cfg.retention_days,
            request_timeout_ms: cfg.request_timeout_ms,
        }
    }

    /// `request` stores `body` under `key`, with `metadata`, in the bucket
    /// of these settings, in their lock mode and within their deadline.
    pub open spec fn asks_for(
        self,
        request: PutRequest,
        key: Seq<char>,
        body: Seq<u8>,
        metadata: Seq<(&'static str, String)>,
    ) -> bool {
        &&& request.bucket@ == self.bucket@
        &&& request.key@ == key
        &&& request.body@ == body
        &&& request.content_type == CONTENT_TYPE
        &&& request.object_lock_mode == self.retention_mode
        &&& request.metadata@ == metadata
        &&& request.timeout_ms == self.request_timeout_ms
    }

    /// The request that writes one event as an immutable object, for a write
    /// at Unix time `now`.
    pub fn put_event_at(
        &self,
        now: i64,
        key: &str,
        body: Vec<u8>,
        metadata: Vec<(&'static str, String)>,
    ) -> (request: PutRequest)
        requires
            lock_end(now as int, self.retention_days as int) <= i64::MAX,
        ensures
            self.asks_for(request, key@, body@, metadata@),
            request.retain_until == lock_end(now as int, self.retention_days as int),
    {
        PutRequest {
            bucket: self.bucket.clone(),
            key: key.to_owned(),
            body,
            content_type: CONTENT_TYPE,
            object_lock_mode: self.retention_mode,
            retain_until: now + self.retention_days as i64 * SECS_PER_DAY,
            metadata,
            timeout_ms: self.request_timeout_ms,
        }
    }

    /// The request that writes one event as an immutable object, retained
    /// from the current time on.
    pub fn put_event(
        &self,
        key: &str,
        body: Vec<u8>,
        metadata: Vec<(&'static str, String)>,
    ) -> (request: PutRequest)
        ensures
            self.asks_for(request, key@, body@, metadata@),
            exists|now: i64|
                #![trigger reading::clock_seconds(now as int)]
                {
                    &&& reading::clock_seconds(now as int)
                    &&& 0 <= now <= clock::MAX_UNIX_SECONDS
                    &&& request.retain_until == lock_end(now as int, self.retention_days as int)
                },
    {
        let now = clock::unix_now();
        self.put_event_at(now, key, body, metadata)
    }
}

/// Under a valid configuration an object is locked for at least one day and
/// at most a hundred years of 365 days from the time of the write, and a
/// write made later is never unlocked earlier.
pub proof fn law_lock_outlives_the_write(cfg: WormConfig, client: S3WormClient, now: int, later: int)
    requires
        cfg.valid(),
        client.configured_by(cfg),
        now <= later,
    ensures
        lock_end(now, client.retention_days as int) == now + cfg.retention_days * SECS_PER_DAY,
        lock_end(now, client.retention_days as int) >= now + SECS_PER_DAY,
        lock_end(now, client.retention_days as int) <= now + 100 * 365 * SECS_PER_DAY,
        lock_end(now, client.retention_days as int) <= lock_end(
            later,
            client.retention_days as int,
        ),
{
}

/// The retention mode of the configuration is the lock mode of every request
/// made under it: a compliance sink never writes a governance object.
pub proof fn law_lock_mode_is_as_configured(
    cfg: WormConfig,
    client: S3WormClient,
    request: PutRequest,
    key: Seq<char>,
    body: Seq<u8>,
    metadata: Seq<(&'static str, String)>,
)
    requires
        client.configured_by(cfg),
        client.asks_for(request, key, body, metadata),
    ensures
        request.object_lock_mode == cfg.retention_mode,
        request.bucket@ == cfg.bucket@,
        request.timeout_ms == cfg.request_timeout_ms,
{
}

/// A hung write is reported as a timeout, whether the deadline of the
/// request passes or the SDK gives up first, whatever else is reported.
pub proof fn law_hung_write_is_a_timeout(outcome: PutOutcome)
    requires
        outcome is DeadlineElapsed || (outcome is Failed && outcome->Failed_0.sdk_timeout),
    ensures
        outcome.fault() == Some(AuditFault::Timeout),
{
}

/// Every failed write is a fault, and only a completed write is none.
pub proof fn law_only_a_completed_write_is_no_fault(outcome: PutOutcome)
    ensures
        outcome.fault() is None <==> outcome is Stored,
{
}

} // verus!
