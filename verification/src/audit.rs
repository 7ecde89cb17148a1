//! The audit vocabulary: the event as the sink reads it, the receipt it
//! hands back and the errors it reports.

use vstd::prelude::*;

verus! {

/// What the sink reads of an audit event. The stored bytes are the event's
/// serialization, which travels beside it.
#[derive(Debug)]
pub struct AuditEvent {
    /// Unique id of the event; it keys the stored object.
    pub event_id: String,
    /// RFC 3339 time at which the event occurred.
    pub occurred_at: String,
    /// What was done, e.g. `tool.call.denied`.
    pub action: String,
    /// How it ended, in its textual form.
    pub outcome: String,
}

/// Proof of durable storage of one event.
#[derive(Debug)]
pub struct AuditReceipt {
    /// The sink that stored the event.
    pub sink_id: String,
    /// RFC 3339 time at which the write was acknowledged.
    pub persisted_at: String,
    /// Lower-case hex SHA-256 of exactly the stored bytes.
    pub durable_hash: String,
}

/// Why an event could not be stored.
#[derive(Debug)]
pub enum AuditError {
    /// The write did not complete within its deadline.
    Timeout,
    /// The store asked the sink to slow down.
    Throttled,
    /// The write failed for any other reason.
    WriteFailed { reason: String },
}

/// Mathematical content of an [`AuditError`].
pub enum AuditFault {
    Timeout,
    Throttled,
    WriteFailed(Seq<char>),
}

impl View for AuditError {
    type V = AuditFault;

    open spec fn view(&self) -> AuditFault {
        match self {
            AuditError::Timeout => AuditFault::Timeout,
            AuditError::Throttled => AuditFault::Throttled,
            AuditError::WriteFailed { reason } => AuditFault::WriteFailed(reason@),
        }
    }
}

} // verus!
