//! The audit sink: how it is set up, what it asks for each event, and what
//! it answers once the write has ended.
//!
//! Emitting an event takes two steps around the write itself.
//! [`S3WormAuditSink::begin_emit`] turns the event and its serialization
//! into the request to send; [`finish_emit`] turns the outcome of that
//! request into the receipt or the error to report.

use vstd::prelude::*;

use crate::audit::{AuditError, AuditEvent, AuditFault, AuditReceipt};
use crate::clock;
use crate::config::{ConfigError, ConfigFields, WormConfig};
use crate::digest;
use crate::key;
use crate::reading;
use crate::s3_client::{CredentialSource, PutOutcome, PutRequest, S3WormClient};
use crate::text;

verus! {

/// Id under which the sink is registered and signs its receipts.
pub const PLUGIN_ID: &'static str = "dev.mcpg.audit.s3-worm";

/// Human-readable name of the sink.
pub const PLUGIN_NAME: &'static str = "S3 Object-Lock (WORM) Audit Sink";

/// Version of the plugin protocol that the sink speaks.
pub const PROTOCOL_VERSION: &'static str = "1.0";

/// Class of a plugin.
#[derive(Debug, Clone, Copy, PartialEq, Eq, Structural)]
pub enum PluginClass {
    AuditSink,
}

/// How the sink describes itself to its host.
#[derive(Debug)]
pub struct PluginManifest {
    pub id: String,
    pub version: String,
    pub name: String,
    pub plugin_class: PluginClass,
    pub protocol_version: String,
    pub license: Option<String>,
    pub required_capabilities: Vec<String>,
    pub tags: Vec<String>,
    pub provides: Vec<String>,
    pub provides_schemes: Vec<String>,
    pub module_path_prefix: String,
    pub backend_profile: Option<String>,
}

impl PluginManifest {
    /// The manifest is that of this sink, in the given version, built from
    /// the given module path.
    pub open spec fn describes(self, version: Seq<char>, origin: Seq<char>) -> bool {
        &&& self.id@ == PLUGIN_ID@
        &&& self.version@ == version
        &&& self.name@ == PLUGIN_NAME@
        &&& self.plugin_class == PluginClass::AuditSink
        &&& self.protocol_version@ == PROTOCOL_VERSION@
        &&& self.license is None
        &&& self.required_capabilities@.len() == 0
        &&& self.tags@.len() == 0
        &&& self.provides@.len() == 0
        &&& self.provides_schemes@.len() == 0
        &&& self.module_path_prefix@ == text::root_segment(origin)
        &&& self.backend_profile is None
    }

    /// The manifest of this sink.
    fn new(version: &str, origin: &str) -> (manifest: PluginManifest)
        ensures
            manifest.describes(version@, origin@),
    {
        PluginManifest {
            id: PLUGIN_ID.to_owned(),
            version: version.to_owned(),
            name: PLUGIN_NAME.to_owned(),
            plugin_class: PluginClass::AuditSink,
            protocol_version: PROTOCOL_VERSION.to_owned(),
            license: None,
            required_capabilities: Vec::new(),
            tags: Vec::new(),
            provides: Vec::new(),
            provides_schemes: Vec::new(),
            module_path_prefix: text::first_segment(origin),
            backend_profile: None,
        }
    }
}

/// An audit sink that stores each event as one locked S3 object.
pub struct S3WormAuditSink {
    pub manifest: PluginManifest,
    pub client: S3WormClient,
    /// Key prefix, normalized.
    pub prefix: String,
}

/// A write to make, and the hash to acknowledge it with.
pub struct PendingEmit {
    pub request: PutRequest,
    pub durable_hash: String,
}

/// Why the sink refuses to load under a configuration that is refused with
/// the message `reason`.
pub open spec fn refusal(reason: Seq<char>) -> Seq<char> {
    "audit.s3-worm config parse failed: "@ + reason
        + ". A misconfigured compliance audit sink is a safety hole; refusing to load."@
}

/// `metadata` names the event, its action, its outcome and the hash of its
/// stored bytes, in this order.
pub open spec fn labels(
    metadata: Seq<(&'static str, String)>,
    event: AuditEvent,
    durable_hash: Seq<char>,
) -> bool {
    &&& metadata.len() == 4
    &&& metadata[0].0@ == "mcpg-event-id"@ && metadata[0].1@ == event.event_id@
    &&& metadata[1].0@ == "mcpg-action"@ && metadata[1].1@ == event.action@
    &&& metadata[2].0@ == "mcpg-outcome"@ && metadata[2].1@ == event.outcome@
    &&& metadata[3].0@ == "mcpg-sha256"@ && metadata[3].1@ == durable_hash
}

/// `receipt` acknowledges bytes with the given hash in the name of this sink.
pub open spec fn acknowledges(receipt: AuditReceipt, durable_hash: Seq<char>) -> bool {
    &&& receipt.sink_id@ == PLUGIN_ID@
    &&& receipt.durable_hash@ == durable_hash
}

impl S3WormAuditSink {
    /// The sink is set up as the configuration says.
    pub open spec fn built_from(
        self,
        cfg: WormConfig,
        version: Seq<char>,
        origin: Seq<char>,
    ) -> bool {
        &&& self.manifest.describes(version, origin)
        &&& self.client.configured_by(cfg)
        &&& self.prefix@ == crate::config::with_slash(cfg.prefix@)
    }

    /// What holds of every sink that was loaded: it names a bucket and a
    /// region, its endpoint and its static credentials are usable, it locks
    /// objects for a window within bounds, its writes have a deadline, and
    /// its prefix is a folder or the bucket root.
    pub open spec fn well_formed(self) -> bool {
        &&& !text::blank(self.client.bucket@)
        &&& !text::blank(self.client.connection.region@)
        &&& self.client.connection.endpoint_url matches Some(url) ==> crate::config::http_url(url@)
        &&& self.client.connection.credentials matches CredentialSource::Static {
            credentials,
            ..
        } ==> !text::blank(credentials.access_key_id@) && credentials.secret_access_key@.len() > 0
        &&& 1 <= self.client.retention_days <= crate::config::MAX_RETENTION_DAYS
        &&& self.client.request_timeout_ms >= 1
        &&& self.prefix@.len() > 0 ==> self.prefix@.last() == '/'
    }

    /// `pending` stores exactly `body` for `event`: under the event's key,
    /// labelled, and with the hash of those bytes.
    pub open spec fn stores(self, pending: PendingEmit, event: AuditEvent, body: Seq<u8>) -> bool {
        &&& self.client.asks_for(
            pending.request,
            key::key_of(self.prefix@, event.occurred_at@, event.event_id@),
            body,
            pending.request.metadata@,
        )
        &&& labels(pending.request.metadata@, event, digest::durable_hash_of(body))
        &&& pending.durable_hash@ == digest::durable_hash_of(body)
    }

    /// Sets the sink up from what decoding the configuration text gave. A
    /// misconfigured sink is not set up: the error says why the sink refuses
    /// to load.
    pub fn from_config_json(
        decoded: Result<ConfigFields, String>,
        version: &str,
        origin: &str,
    ) -> (r: Result<S3WormAuditSink, String>)
        ensures
            match decoded {
                Err(reason) => r matches Err(why) && why@ == refusal(
                    ConfigError::InvalidJson(reason).text(),
                ),
                Ok(fields) => match fields.fault() {
                    Some(err) => r matches Err(why) && why@ == refusal(err.text()),
                    None => r matches Ok(sink) && sink.well_formed() && exists|cfg: WormConfig|
                     #[trigger]
                        cfg.completes(fields) && cfg.valid() && sink.built_from(
                            cfg,
                            version@,
                            origin@,
                        ),
                },
            },
    {
        match WormConfig::parse(decoded) {
            Err(err) => {
                let reason = err.message();
                Err(
                    text::join3(
                        "audit.s3-worm config parse failed: ",
                        reason.as_str(),
                        ". A misconfigured compliance audit sink is a safety hole; refusing to load.",
                    ),
                )
            },
            Ok(cfg) => Ok(S3WormAuditSink::from_validated_config(cfg, version, origin)),
        }
    }

    /// Sets the sink up under a configuration.
    pub fn from_validated_config(cfg: WormConfig, version: &str, origin: &str) -> (sink:
        S3WormAuditSink)
        ensures
            sink.built_from(cfg, version@, origin@),
    {
        let prefix = cfg.normalized_prefix();
        let client = S3WormClient::new(&cfg);
        S3WormAuditSink { manifest: PluginManifest::new(version, origin), client, prefix }
    }

    /// How the sink describes itself.
    pub fn manifest(&self) -> (manifest: &PluginManifest)
        ensures
            *manifest == self.manifest,
    {
        &self.manifest
    }

    /// The write to make for `event` at Unix time `now`. `serialized` is what
    /// serializing the event gave: its bytes, or the serializer's message.
    pub fn begin_emit_at(
        &self,
        now: i64,
        event: &AuditEvent,
        serialized: Result<Vec<u8>, String>,
    ) -> (r: Result<PendingEmit, AuditError>)
        requires
            crate::s3_client::lock_end(now as int, self.client.retention_days as int) <= i64::MAX,
        ensures
            match serialized {
                Err(reason) => r matches Err(err) && err@ == AuditFault::WriteFailed(
                    "serialize audit event: "@ + reason@,
                ),
                Ok(body) => r matches Ok(pending) && self.stores(pending, *event, body@)
                    && pending.durable_hash@.len() == 64 && pending.request.retain_until == crate::s3_client::lock_end(
                    now as int,
                    self.client.retention_days as int,
                ),
            },
    {
        let body = match serialized {
            Err(reason) => {
                return Err(not_serialized(reason));
            },
            Ok(body) => body,
        };
        let durable_hash = digest::durable_hash(body.as_slice());
        let key = key::object_key(self.prefix.as_str(), event);
        let metadata = metadata_of(event, durable_hash.as_str());
        let request = self.client.put_event_at(now, key.as_str(), body, metadata);
        Ok(PendingEmit { request, durable_hash })
    }

    /// The write to make for `event`, locked from the current time on.
    /// `serialized` is what serializing the event gave: its bytes, or the
    /// serializer's message.
    pub fn begin_emit(&self, event: &AuditEvent, serialized: Result<Vec<u8>, String>) -> (r: Result<
        PendingEmit,
        AuditError,
    >)
        ensures
            match serialized {
                Err(reason) => r matches Err(err) && err@ == AuditFault::WriteFailed(
                    "serialize audit event: "@ + reason@,
                ),
                Ok(body) => r matches Ok(pending) && self.stores(pending, *event, body@)
                    && pending.durable_hash@.len() == 64 && exists|now: i64|
                    #![trigger reading::clock_seconds(now as int)]
                    {
                        &&& reading::clock_seconds(now as int)
                        &&& 0 <= now <= clock::MAX_UNIX_SECONDS
                        &&& pending.request.retain_until == crate::s3_client::lock_end(
                            now as int,
                            self.client.retention_days as int,
                        )
                    },
            },
    {
        match serialized {
            Err(reason) => Err(not_serialized(reason)),
            Ok(body) => {
                let now = clock::unix_now();
                self.begin_emit_at(now, event, Ok(body))
            },
        }
    }
}

/// The error for an event that could not be serialized.
fn not_serialized(reason: String) -> (err: AuditError)
    ensures
        err@ == AuditFault::WriteFailed("serialize audit event: "@ + reason@),
{
    let mut full = "serialize audit event: ".to_owned();
    full.append(reason.as_str());
    AuditError::WriteFailed { reason: full }
}

/// The metadata that labels a stored event.
fn metadata_of(event: &AuditEvent, durable_hash: &str) -> (metadata: Vec<(&'static str, String)>)
    ensures
        labels(metadata@, *event, durable_hash@),
{
    let mut metadata: Vec<(&'static str, String)> = Vec::new();
    metadata.push(("mcpg-event-id", event.event_id.clone()));
    metadata.push(("mcpg-action", event.action.clone()));
    metadata.push(("mcpg-outcome", event.outcome.clone()));
    metadata.push(("mcpg-sha256", durable_hash.to_owned()));
    metadata
}

/// The receipt for a completed write.
fn receipt_at(persisted_at: String, durable_hash: String) -> (receipt: AuditReceipt)
    ensures
        acknowledges(receipt, durable_hash@),
        receipt.persisted_at@ == persisted_at@,
{
    AuditReceipt { sink_id: PLUGIN_ID.to_owned(), persisted_at, durable_hash }
}

/// The answer to an emitted event whose write ended with `outcome`, given the
/// hash of the bytes and the time to put on the receipt.
pub fn finish_emit_at(persisted_at: String, durable_hash: String, outcome: PutOutcome) -> (r:
    Result<AuditReceipt, AuditError>)
    ensures
        match r {
            Ok(receipt) => outcome is Stored && acknowledges(receipt, durable_hash@)
                && receipt.persisted_at@ == persisted_at@,
            Err(err) => outcome.fault() == Some(err@),
        },
        r is Ok <==> outcome is Stored,
{
    match outcome.into_result() {
        Ok(()) => Ok(receipt_at(persisted_at, durable_hash)),
        Err(err) => Err(err),
    }
}

/// The answer to an emitted event whose write ended with `outcome`: a receipt
/// that bears the current time, only if the write durably completed.
pub fn finish_emit(durable_hash: String, outcome: PutOutcome) -> (r: Result<
    AuditReceipt,
    AuditError,
>)
    ensures
        match r {
            Ok(receipt) => outcome is Stored && acknowledges(receipt, durable_hash@)
                && clock::utc_millis_text(receipt.persisted_at@) && reading::clock_text(
                receipt.persisted_at@,
            ),
            Err(err) => outcome.fault() == Some(err@),
        },
        r is Ok <==> outcome is Stored,
{
    match outcome.into_result() {
        Ok(()) => Ok(receipt_at(clock::now_rfc3339(), durable_hash)),
        Err(err) => Err(err),
    }
}

/// The receipt carries the SHA-256 of exactly the bytes that were stored,
/// which are exactly the bytes that the event was serialized to; the stored
/// object is labelled with the same hash.
pub proof fn law_receipt_hash_is_of_the_stored_bytes(
    sink: S3WormAuditSink,
    event: AuditEvent,
    body: Seq<u8>,
    pending: PendingEmit,
    receipt: AuditReceipt,
)
    requires
        sink.stores(pending, event, body),
        acknowledges(receipt, pending.durable_hash@),
    ensures
        pending.request.body@ == body,
        receipt.durable_hash@ == digest::durable_hash_of(pending.request.body@),
        pending.request.metadata@[3].1@ == receipt.durable_hash@,
{
}

/// A sink set up under a configuration files every event below the
/// configured prefix, in the configured bucket and lock mode.
pub proof fn law_sink_stores_as_configured(
    cfg: WormConfig,
    version: Seq<char>,
    origin: Seq<char>,
    sink: S3WormAuditSink,
    pending: PendingEmit,
    event: AuditEvent,
    body: Seq<u8>,
)
    requires
        sink.built_from(cfg, version, origin),
        sink.stores(pending, event, body),
    ensures
        pending.request.key@ == key::key_of(
            crate::config::with_slash(cfg.prefix@),
            event.occurred_at@,
            event.event_id@,
        ),
        cfg.prefix@.is_prefix_of(pending.request.key@),
        pending.request.bucket@ == cfg.bucket@,
        pending.request.object_lock_mode == cfg.retention_mode,
        pending.request.timeout_ms == cfg.request_timeout_ms,
{
    let prefix = crate::config::with_slash(cfg.prefix@);
    crate::config::law_normalized_prefix(cfg.prefix@);
    key::law_id_cannot_inject_segments(prefix, event.occurred_at@, event.event_id@);
    assert(prefix.is_prefix_of(key::day_folder(prefix, event.occurred_at@)));
}

/// A sink set up under a valid configuration is well-formed.
pub proof fn law_loaded_sink_is_well_formed(
    cfg: WormConfig,
    version: Seq<char>,
    origin: Seq<char>,
    sink: S3WormAuditSink,
)
    requires
        cfg.valid(),
        sink.built_from(cfg, version, origin),
    ensures
        sink.well_formed(),
{
    crate::config::law_normalized_prefix(cfg.prefix@);
}

/// A well-formed sink locks every object for at least one day and at most a
/// hundred years of 365 days from the time of the write.
pub proof fn law_every_object_is_locked(sink: S3WormAuditSink, now: int)
    requires
        sink.well_formed(),
    ensures
        now + crate::s3_client::SECS_PER_DAY <= crate::s3_client::lock_end(now, sink.client.retention_days as int) <= now + 100 * 365
            * crate::s3_client::SECS_PER_DAY,
{
}

/// Emitting is stable: two writes of the same serialized event hold the same
/// bytes and bear the same hash, whichever sinks make them, and by sinks with
/// the same prefix they go to the same key.
pub proof fn law_emitting_again_asks_for_the_same_object(
    sink_1: S3WormAuditSink,
    sink_2: S3WormAuditSink,
    pending_1: PendingEmit,
    pending_2: PendingEmit,
    event: AuditEvent,
    body: Seq<u8>,
)
    requires
        sink_1.stores(pending_1, event, body),
        sink_2.stores(pending_2, event, body),
    ensures
        pending_1.request.body@ == pending_2.request.body@,
        pending_1.durable_hash@ == pending_2.durable_hash@,
        sink_1.prefix@ == sink_2.prefix@ ==> pending_1.request.key@ == pending_2.request.key@,
{
}

} // verus!
