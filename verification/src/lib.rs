//! Decision core of an audit sink that keeps every audit event as an
//! immutable S3 object under Object Lock: a tamper-evident, retention-protected
//! record.
//!
//! Each event is one JSON object, keyed by its event id and written with an
//! Object Lock retention date, `retain_until = now + retention_days`. A receipt
//! is handed out only after the write durably completed, and it carries the
//! SHA-256 of exactly the stored bytes.
//!
//! - [`config`]: the configuration, its defaults and the rules it must meet.
//! - [`key`]: the object key of an event.
//! - [`digest`]: the hash of the stored bytes.
//! - [`s3_client`]: the request for each event, and what its outcome means.
//! - [`sink`]: the sink itself, from its configuration to its receipts.
//! - [`audit`]: the audit vocabulary.
//! - [`calendar`]: calendar days.
//! - [`clock`]: readings of the wall clock.
//! - [`reading`]: what sets a clock reading apart from other values.
//! - [`text`]: helpers on strings.
//! - [`laws`]: what each operation does, stated over its calls.
//!
//! Decoding the configuration text, serializing events and talking to S3 are
//! left to the caller, who hands their results in as plain values.

pub mod audit;
pub mod calendar;
pub mod clock;
pub mod config;
pub mod digest;
pub mod key;
pub mod laws;
pub mod reading;
pub mod s3_client;
pub mod sink;
pub mod text;

pub use config::{ConfigError, ConfigFields, RetentionMode, StaticCredentials, WormConfig};
pub use sink::S3WormAuditSink;
