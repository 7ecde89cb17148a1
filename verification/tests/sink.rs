use audit_s3_worm::audit::{AuditError, AuditEvent};
use audit_s3_worm::calendar::is_calendar_day;
use audit_s3_worm::digest::durable_hash;
use audit_s3_worm::key::{object_key, sanitize_key_component};
use audit_s3_worm::s3_client::{
    classify_put_error, CredentialSource, PutFailure, PutOutcome, S3WormClient, ServiceError,
};
use audit_s3_worm::sink::{finish_emit, finish_emit_at, PluginClass, PLUGIN_ID};
use audit_s3_worm::{ConfigFields, RetentionMode, S3WormAuditSink, StaticCredentials, WormConfig};
use serde_json::Value;
use sha2::{Digest, Sha256};

fn sample_event(id: &str, occurred_at: &str) -> AuditEvent {
    AuditEvent {
        event_id: id.into(),
        occurred_at: occurred_at.into(),
        action: "tool.call.denied".into(),
        outcome: "denied".into(),
    }
}

fn serialized(event: &AuditEvent) -> Vec<u8> {
    let mut v = serde_json::Map::new();
    v.insert("event_id".into(), Value::from(event.event_id.as_str()));
    v.insert("occurred_at".into(), Value::from(event.occurred_at.as_str()));
    v.insert("action".into(), Value::from(event.action.as_str()));
    v.insert("outcome".into(), Value::from(event.outcome.as_str()));
    serde_json::to_vec(&Value::Object(v)).unwrap()
}

fn fields() -> ConfigFields {
    ConfigFields {
        bucket: "audit-bkt".into(),
        region: "us-east-1".into(),
        prefix: Some("audit".into()),
        endpoint_url: None,
        force_path_style: None,
        credentials: Some(StaticCredentials {
            access_key_id: "test".into(),
            secret_access_key: "test".into(),
            session_token: None,
        }),
        retention_mode: None,
        retention_days: None,
        request_timeout_ms: None,
    }
}

fn load(decoded: Result<ConfigFields, String>) -> S3WormAuditSink {
    match S3WormAuditSink::from_config_json(decoded, "1.2.3", "audit_plugin::entity") {
        Ok(sink) => sink,
        Err(why) => panic!("{}", why),
    }
}

fn plugin() -> S3WormAuditSink {
    load(Ok(fields()))
}

#[test]
fn manifest_is_audit_sink_kind() {
    let p = plugin();
    let m = p.manifest();
    assert_eq!(m.id, PLUGIN_ID);
    assert_eq!(m.plugin_class, PluginClass::AuditSink);
    assert!(m.required_capabilities.is_empty());
}

#[test]
fn object_key_partitions_by_date_and_id() {
    let ev = sample_event("01930000-0000-7000-8000-000000000000", "2026-06-22T12:00:00Z");
    let key = object_key("audit/", &ev);
    assert_eq!(key, "audit/events/2026-06-22/01930000-0000-7000-8000-000000000000.json");
}

#[test]
fn object_key_handles_undated_and_root_prefix() {
    let ev = sample_event("abc", "not-a-date");
    assert_eq!(object_key("", &ev), "events/undated/abc.json");
}

#[test]
fn object_key_sanitises_path_injection_in_id() {
    let ev = sample_event("../../etc/passwd", "2026-06-22T00:00:00Z");
    let key = object_key("p/", &ev);
    let id_component = &key["p/events/2026-06-22/".len()..];
    assert!(!id_component.contains('/'), "{key}");
    assert_eq!(id_component, ".._.._etc_passwd.json");
}

#[test]
fn sanitize_empty_falls_back() {
    assert_eq!(sanitize_key_component(""), "no-id");
    assert_eq!(sanitize_key_component("a/b c"), "a_b_c");
    assert_eq!(sanitize_key_component("Keep-_.1"), "Keep-_.1");
}

#[test]
fn hash_matches_stored_bytes() {
    let ev = sample_event("id-1", "2026-06-22T00:00:00Z");
    let body = serialized(&ev);
    let expected = hex::encode(Sha256::digest(&body));
    assert_eq!(expected.len(), 64);
    let body2 = serialized(&ev);
    assert_eq!(body, body2);
    assert_eq!(durable_hash(&body), expected);
    let pending = plugin().begin_emit(&ev, Ok(body)).unwrap();
    assert_eq!(pending.request.body, body2);
    assert_eq!(pending.durable_hash, expected);
}

#[test]
fn manifest_fields() {
    let p = plugin();
    let m = p.manifest();
    assert_eq!(m.id, "dev.mcpg.audit.s3-worm");
    assert_eq!(m.version, "1.2.3");
    assert_eq!(m.name, "S3 Object-Lock (WORM) Audit Sink");
    assert_eq!(m.protocol_version, "1.0");
    assert_eq!(m.module_path_prefix, "audit_plugin");
    assert!(m.license.is_none() && m.backend_profile.is_none());
    assert!(m.tags.is_empty() && m.provides.is_empty() && m.provides_schemes.is_empty());
}

#[test]
fn module_path_prefix_is_the_first_segment() {
    for path in ["a::b::c", "a", "", "::x", "a:b::c", "é::y", "a:", "a::"] {
        let cfg = fields().with_defaults();
        let sink = S3WormAuditSink::from_validated_config(cfg, "1", path);
        assert_eq!(sink.manifest.module_path_prefix, path.split("::").next().unwrap_or(""));
    }
}

#[test]
fn refusal_names_the_broken_rule() {
    let mut f = fields();
    f.retention_days = Some(36_501);
    let why = S3WormAuditSink::from_config_json(Ok(f), "1", "m").err().unwrap();
    assert_eq!(
        why,
        "audit.s3-worm config parse failed: audit.s3-worm: retention_days=36501 out of range \
         (must be 1..=36_500). A misconfigured compliance audit sink is a safety hole; refusing \
         to load."
    );
}

#[test]
fn day_is_a_calendar_day_or_undated() {
    for (occurred_at, day) in [
        ("2026-06-22", "2026-06-22"),
        ("2026-06-22é", "2026-06-22"),
        ("2024-02-29T00:00:00Z", "2024-02-29"),
        ("2000-02-29T00:00:00Z", "2000-02-29"),
        ("2026-12-31T00:00:00Z", "2026-12-31"),
        ("2026-04-30T00:00:00Z", "2026-04-30"),
        ("2026-06-2", "undated"),
        ("", "undated"),
        ("2026/06/22T", "undated"),
        ("2026-06/22T", "undated"),
        ("abcd-ef-ghi", "undated"),
        ("abcd-ef-ghT00:00:00Z", "undated"),
        ("a/b/-c/-d/", "undated"),
        ("2026-06-2é", "undated"),
        ("éé-12-é12", "undated"),
        ("２０２６-06-22", "undated"),
        (" 2026-06-22", "undated"),
        ("2023-02-29T00:00:00Z", "undated"),
        ("1900-02-29T00:00:00Z", "undated"),
        ("2026-00-10T00:00:00Z", "undated"),
        ("2026-13-10T00:00:00Z", "undated"),
        ("2026-04-31T00:00:00Z", "undated"),
        ("2026-01-32T00:00:00Z", "undated"),
        ("2026-06-00T00:00:00Z", "undated"),
    ] {
        let key = object_key("", &sample_event("abc", occurred_at));
        assert_eq!(key, format!("events/{day}/abc.json"), "{occurred_at}");
    }
}

#[test]
fn calendar_days_are_those_of_chrono() {
    for year in [0, 1, 4, 100, 400, 1900, 1970, 2000, 2023, 2024, 2100, 9999] {
        for month in 0..=14 {
            for day in 0..=33 {
                assert_eq!(
                    is_calendar_day(&format!("{year:04}-{month:02}-{day:02}")),
                    chrono::NaiveDate::from_ymd_opt(year, month, day).is_some(),
                    "{year}-{month}-{day}"
                );
            }
        }
    }
}

#[test]
fn event_text_adds_no_slashes() {
    for prefix in ["", "p/", "a/b/c/"] {
        for (id, occurred_at) in
            [("x", "2026-06-22T00:00:00Z"), ("../../x", "a/b/-c/-d/"), ("", "////-//-//")]
        {
            let key = object_key(prefix, &sample_event(id, occurred_at));
            assert_eq!(key.matches('/').count(), prefix.matches('/').count() + 2, "{key}");
        }
    }
}

#[test]
fn sanitizing_is_idempotent_and_safe() {
    for id in ["", "a", "a/b", "../x", "é\u{0}\n", "Keep-_.1", "\u{10ffff}"] {
        let once = sanitize_key_component(id);
        assert!(!once.is_empty());
        assert!(once.chars().all(|c| c.is_ascii_alphanumeric() || "._-".contains(c)));
        assert_eq!(sanitize_key_component(&once), once);
    }
    assert_eq!(sanitize_key_component("é\u{0}\n"), "___");
    assert_eq!(sanitize_key_component("azAZ09@[`{/:"), "azAZ09______");
}

#[test]
fn distinct_safe_ids_have_distinct_keys() {
    let day = "2026-06-22T00:00:00Z";
    let other = "2026-06-23T00:00:00Z";
    let a = object_key("p/", &sample_event("id-1", day));
    assert_ne!(a, object_key("p/", &sample_event("id-2", day)));
    assert_ne!(a, object_key("p/", &sample_event("id-2", other)));
    assert_ne!(a, object_key("p/", &sample_event("id-1", other)));
    // Ids that are not safe may share a key.
    assert_eq!(
        object_key("", &sample_event("a/b", day)),
        object_key("", &sample_event("a_b", day))
    );
}

#[test]
fn day_folder_holds_that_day_only() {
    let key = object_key("p/", &sample_event("x", "2026-06-22T01:02:03Z"));
    assert!(key.starts_with("p/events/2026-06-22/"));
    assert!(!key.starts_with("p/events/2026-06-23/"));
    assert!(!key.starts_with("p/events/undated/"));
}

#[test]
fn known_digests() {
    assert_eq!(
        durable_hash(b"hello world"),
        "b94d27b9934d3e08a52e52d7da7dabfac484efe37a5380ee9088f7ace2efcde9"
    );
    assert_eq!(
        durable_hash(b""),
        "e3b0c44298fc1c149afbf4c8996fb92427ae41e4649b934ca495991b7852b855"
    );
}

#[test]
fn request_is_complete_and_exact() {
    let mut f = fields();
    f.retention_mode = Some(RetentionMode::Compliance);
    f.retention_days = Some(2555);
    f.request_timeout_ms = Some(42);
    let ev = sample_event("id/1", "2026-06-22T00:00:00Z");
    let body = b"hello world".to_vec();
    let hash = "b94d27b9934d3e08a52e52d7da7dabfac484efe37a5380ee9088f7ace2efcde9";
    let pending = load(Ok(f)).begin_emit_at(1_000, &ev, Ok(body.clone())).ok().unwrap();
    let r = pending.request;
    assert_eq!(r.bucket, "audit-bkt");
    assert_eq!(r.key, "audit/events/2026-06-22/id_1.json");
    assert_eq!(r.body, body);
    assert_eq!(r.content_type, "application/json");
    assert_eq!(r.object_lock_mode, RetentionMode::Compliance);
    assert_eq!(r.retain_until, 1_000 + 2555 * 86_400);
    assert_eq!(r.timeout_ms, 42);
    assert_eq!(
        r.metadata,
        vec![
            ("mcpg-event-id", "id/1".to_owned()),
            ("mcpg-action", "tool.call.denied".to_owned()),
            ("mcpg-outcome", "denied".to_owned()),
            ("mcpg-sha256", hash.to_owned()),
        ]
    );
    assert_eq!(pending.durable_hash, hash);
}

#[test]
fn retention_starts_at_the_current_time() {
    let before = chrono::Utc::now().timestamp();
    let pending =
        plugin().begin_emit(&sample_event("a", ""), Ok(vec![1, 2, 3])).ok().unwrap();
    let after = chrono::Utc::now().timestamp();
    let start = pending.request.retain_until - 365 * 86_400;
    assert!(before <= start && start <= after);
    let client = S3WormClient::new(&fields().with_defaults());
    let request = client.put_event("k", vec![7], vec![("a", "b".to_owned())]);
    assert_eq!(request.key, "k");
    assert_eq!(request.body, vec![7]);
    assert_eq!(request.metadata, vec![("a", "b".to_owned())]);
    assert!(request.retain_until - 365 * 86_400 >= before);
}

#[test]
fn event_that_cannot_be_serialized_is_a_failed_write() {
    let err = plugin().begin_emit(&sample_event("a", ""), Err("key must be a string".into()));
    match err {
        Err(AuditError::WriteFailed { reason }) => {
            assert_eq!(reason, "serialize audit event: key must be a string")
        }
        _ => panic!("expected a failed write"),
    }
}

#[test]
fn receipt_only_for_a_completed_write() {
    let receipt = finish_emit_at("t".into(), "h".into(), PutOutcome::Stored).unwrap();
    assert_eq!(receipt.sink_id, "dev.mcpg.audit.s3-worm");
    assert_eq!(receipt.persisted_at, "t");
    assert_eq!(receipt.durable_hash, "h");
    assert!(matches!(
        finish_emit_at("t".into(), "h".into(), PutOutcome::DeadlineElapsed),
        Err(AuditError::Timeout)
    ));
    assert!(matches!(
        finish_emit("h".into(), PutOutcome::Failed(failure(false, None, None, true))),
        Err(AuditError::WriteFailed { .. })
    ));
}

#[test]
fn receipt_bears_the_current_time() {
    let before = chrono::Utc::now();
    let receipt = finish_emit("h".into(), PutOutcome::Stored).unwrap();
    let t = receipt.persisted_at;
    assert_eq!(t.len(), 24);
    assert!(t.ends_with('Z'));
    assert_eq!(&t[10..11], "T");
    assert_eq!(&t[19..20], ".");
    let parsed = chrono::DateTime::parse_from_rfc3339(&t).unwrap();
    assert!((parsed.timestamp() - before.timestamp()).abs() <= 5);
}

fn failure(
    sdk_timeout: bool,
    code: Option<&str>,
    message: Option<&str>,
    service: bool,
) -> PutFailure {
    PutFailure {
        sdk_timeout,
        service: if service {
            Some(ServiceError {
                code: code.map(str::to_owned),
                message: message.map(str::to_owned),
            })
        } else {
            None
        },
        display: "sdk text".into(),
    }
}

fn reason(f: PutFailure) -> String {
    match classify_put_error(f) {
        AuditError::WriteFailed { reason } => reason,
        other => panic!("unexpected {other:?}"),
    }
}

#[test]
fn timeouts_win_over_everything() {
    assert!(matches!(
        classify_put_error(failure(true, Some("SlowDown"), Some("m"), true)),
        AuditError::Timeout
    ));
    assert!(matches!(PutOutcome::DeadlineElapsed.into_result(), Err(AuditError::Timeout)));
    assert!(PutOutcome::Stored.into_result().is_ok());
}

#[test]
fn throttling_codes() {
    for code in ["Throttling", "ThrottlingException", "RequestLimitExceeded", "SlowDown"] {
        assert!(matches!(
            classify_put_error(failure(false, Some(code), None, true)),
            AuditError::Throttled
        ));
    }
    for code in ["slowdown", "SlowDown ", "Throttlin", "ThrottlingExceptions"] {
        assert_eq!(
            reason(failure(false, Some(code), Some("m"), true)),
            format!("S3 PutObject [{code}]: m")
        );
    }
}

#[test]
fn reasons_of_failed_writes() {
    assert_eq!(
        reason(failure(false, Some("AccessDenied"), Some("no"), true)),
        "S3 PutObject [AccessDenied]: no"
    );
    assert_eq!(
        reason(failure(false, Some("AccessDenied"), None, true)),
        "S3 PutObject [AccessDenied]: sdk text"
    );
    assert_eq!(reason(failure(false, None, Some("no"), true)), "no");
    assert_eq!(reason(failure(false, Some(""), Some("no"), true)), "no");
    assert_eq!(reason(failure(false, None, None, true)), "sdk text");
    assert_eq!(reason(failure(false, None, None, false)), "sdk text");
}

#[test]
fn client_takes_over_the_configuration() {
    let mut f = fields();
    f.endpoint_url = Some("http://localhost:9000".into());
    f.force_path_style = Some(true);
    f.retention_days = Some(7);
    let cfg: WormConfig = f.with_defaults();
    let client = S3WormClient::new(&cfg);
    assert_eq!(client.connection.region, "us-east-1");
    assert_eq!(client.connection.endpoint_url.as_deref(), Some("http://localhost:9000"));
    assert!(client.connection.force_path_style);
    match &client.connection.credentials {
        CredentialSource::Static { credentials, provider_name } => {
            assert_eq!(Some(credentials), cfg.credentials.as_ref());
            assert_eq!(*provider_name, "mcpg-worm-static");
        }
        CredentialSource::DefaultChain => panic!("static credentials were configured"),
    }
    assert_eq!(client.bucket, "audit-bkt");
    assert_eq!(client.retention_mode, RetentionMode::Governance);
    assert_eq!(client.retention_days, 7);
    assert_eq!(client.request_timeout_ms, 10_000);

    let mut f = fields();
    f.credentials = None;
    let client = S3WormClient::new(&f.with_defaults());
    assert!(matches!(client.connection.credentials, CredentialSource::DefaultChain));
}
