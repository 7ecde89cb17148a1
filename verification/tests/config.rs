use audit_s3_worm::config::{
    default_request_timeout_ms, default_retention_days, MAX_RETENTION_DAYS,
};
use audit_s3_worm::text::{is_blank, is_white_space};
use audit_s3_worm::{
    ConfigError, ConfigFields, RetentionMode, S3WormAuditSink, StaticCredentials, WormConfig,
};
use serde_json::Value;

fn text(v: &Value) -> Result<String, String> {
    v.as_str().map(str::to_owned).ok_or_else(|| "expected a string".to_owned())
}

fn optional_text(v: &Value) -> Result<Option<String>, String> {
    if v.is_null() {
        Ok(None)
    } else {
        text(v).map(Some)
    }
}

fn number(v: &Value) -> Result<u64, String> {
    v.as_u64().ok_or_else(|| "expected an unsigned number".to_owned())
}

fn decode_credentials(v: &Value) -> Result<StaticCredentials, String> {
    let mut access_key_id = None;
    let mut secret_access_key = None;
    let mut session_token = None;
    for (k, v) in v.as_object().ok_or("expected an object")? {
        match k.as_str() {
            "access_key_id" => access_key_id = Some(text(v)?),
            "secret_access_key" => secret_access_key = Some(text(v)?),
            "session_token" => session_token = optional_text(v)?,
            _ => return Err(format!("unknown field `{k}`")),
        }
    }
    Ok(StaticCredentials {
        access_key_id: access_key_id.ok_or("missing field `access_key_id`")?,
        secret_access_key: secret_access_key.ok_or("missing field `secret_access_key`")?,
        session_token,
    })
}

/// Decodes a configuration text into the fields that it names.
fn decode(json: &str) -> Result<ConfigFields, String> {
    let v: Value = serde_json::from_str(json).map_err(|e| e.to_string())?;
    let mut bucket = None;
    let mut region = None;
    let mut fields = ConfigFields {
        bucket: String::new(),
        region: String::new(),
        prefix: None,
        endpoint_url: None,
        force_path_style: None,
        credentials: None,
        retention_mode: None,
        retention_days: None,
        request_timeout_ms: None,
    };
    for (k, v) in v.as_object().ok_or("expected an object")? {
        match k.as_str() {
            "bucket" => bucket = Some(text(v)?),
            "region" => region = Some(text(v)?),
            "prefix" => fields.prefix = Some(text(v)?),
            "endpoint_url" => fields.endpoint_url = optional_text(v)?,
            "force_path_style" => {
                fields.force_path_style = Some(v.as_bool().ok_or("expected a bool")?)
            }
            "credentials" => fields.credentials = Some(decode_credentials(v)?),
            "retention_mode" => {
                fields.retention_mode = Some(match v.as_str() {
                    Some("governance") => RetentionMode::Governance,
                    Some("compliance") => RetentionMode::Compliance,
                    _ => return Err("unknown variant".to_owned()),
                })
            }
            "retention_days" => {
                fields.retention_days =
                    Some(u32::try_from(number(v)?).map_err(|e| e.to_string())?)
            }
            "request_timeout_ms" => fields.request_timeout_ms = Some(number(v)?),
            _ => return Err(format!("unknown field `{k}`")),
        }
    }
    fields.bucket = bucket.ok_or("missing field `bucket`")?;
    fields.region = region.ok_or("missing field `region`")?;
    Ok(fields)
}

fn parse(json: &str) -> Result<WormConfig, ConfigError> {
    WormConfig::parse(decode(json))
}

fn minimal() -> Value {
    let mut v = serde_json::Map::new();
    v.insert("bucket".into(), Value::from("audit-bkt"));
    v.insert("region".into(), Value::from("us-east-1"));
    Value::Object(v)
}

#[test]
fn parses_minimal_with_defaults() {
    let cfg = parse(&minimal().to_string()).unwrap();
    assert_eq!(cfg.bucket, "audit-bkt");
    assert_eq!(cfg.retention_mode, RetentionMode::Governance);
    assert_eq!(cfg.retention_days, 365);
    assert_eq!(cfg.request_timeout_ms, 10_000);
    assert_eq!(cfg.normalized_prefix(), "");
}

#[test]
fn normalizes_prefix_trailing_slash() {
    let mut v = minimal();
    v["prefix"] = Value::from("audit");
    let cfg = parse(&v.to_string()).unwrap();
    assert_eq!(cfg.normalized_prefix(), "audit/");
}

#[test]
fn rejects_unknown_field() {
    let mut v = minimal();
    v["bogus"] = Value::from(1);
    assert!(matches!(parse(&v.to_string()).unwrap_err(), ConfigError::InvalidJson(_)));
}

#[test]
fn rejects_empty_bucket() {
    let mut v = minimal();
    v["bucket"] = Value::from("  ");
    assert!(matches!(parse(&v.to_string()).unwrap_err(), ConfigError::EmptyBucket));
}

#[test]
fn rejects_bad_endpoint_scheme() {
    let mut v = minimal();
    v["endpoint_url"] = Value::from("ftp://s3.local");
    assert!(matches!(parse(&v.to_string()).unwrap_err(), ConfigError::InvalidEndpointScheme));
}

#[test]
fn rejects_zero_retention_days() {
    let mut v = minimal();
    v["retention_days"] = Value::from(0);
    assert!(matches!(parse(&v.to_string()).unwrap_err(), ConfigError::InvalidRetentionDays(0)));
}

#[test]
fn rejects_oversized_retention_days() {
    let mut v = minimal();
    v["retention_days"] = Value::from(36_501);
    assert!(matches!(parse(&v.to_string()).unwrap_err(), ConfigError::InvalidRetentionDays(_)));
}

#[test]
fn rejects_zero_timeout() {
    let mut v = minimal();
    v["request_timeout_ms"] = Value::from(0);
    assert!(matches!(parse(&v.to_string()).unwrap_err(), ConfigError::InvalidRequestTimeout));
}

#[test]
fn compliance_mode_parses() {
    let mut v = minimal();
    v["retention_mode"] = Value::from("compliance");
    let cfg = parse(&v.to_string()).unwrap();
    assert_eq!(cfg.retention_mode, RetentionMode::Compliance);
}

#[test]
fn rejects_empty_access_key() {
    let mut v = minimal();
    let mut creds = serde_json::Map::new();
    creds.insert("access_key_id".into(), Value::from(""));
    creds.insert("secret_access_key".into(), Value::from("x"));
    v["credentials"] = Value::Object(creds);
    assert!(matches!(parse(&v.to_string()).unwrap_err(), ConfigError::EmptyAccessKeyId));
}

fn load(json: &str) -> S3WormAuditSink {
    match S3WormAuditSink::from_config_json(decode(json), "1.0.0", "plugin") {
        Ok(sink) => sink,
        Err(why) => panic!("{}", why),
    }
}

#[test]
#[should_panic(expected = "audit.s3-worm config parse failed")]
fn malformed_config_panics() {
    load("{ not json");
}

#[test]
#[should_panic(expected = "audit.s3-worm config parse failed")]
fn missing_bucket_panics() {
    let mut v = serde_json::Map::new();
    v.insert("region".into(), Value::from("us-east-1"));
    load(&Value::Object(v).to_string());
}

fn fields() -> ConfigFields {
    decode(&minimal().to_string()).unwrap()
}

fn creds(id: &str, secret: &str) -> Option<StaticCredentials> {
    Some(StaticCredentials {
        access_key_id: id.to_owned(),
        secret_access_key: secret.to_owned(),
        session_token: None,
    })
}

#[test]
fn defaults_are_as_documented() {
    assert_eq!(default_retention_days(), 365);
    assert_eq!(default_request_timeout_ms(), 10_000);
    assert_eq!(RetentionMode::default(), RetentionMode::Governance);
    assert_eq!(MAX_RETENTION_DAYS, 36_500);
    let cfg = fields().with_defaults();
    assert!(cfg.validate().is_ok());
    assert_eq!(cfg.prefix, "");
    assert_eq!(cfg.endpoint_url, None);
    assert!(!cfg.force_path_style);
    assert_eq!(cfg.credentials, None);
}

#[test]
fn named_fields_are_kept() {
    let mut f = fields();
    f.prefix = Some("gw/".to_owned());
    f.endpoint_url = Some("https://minio.local".to_owned());
    f.force_path_style = Some(true);
    f.credentials = creds("id", "secret");
    f.retention_mode = Some(RetentionMode::Compliance);
    f.retention_days = Some(2555);
    f.request_timeout_ms = Some(1);
    let cfg = WormConfig::parse(Ok(f)).unwrap();
    assert_eq!(cfg.region, "us-east-1");
    assert_eq!(cfg.prefix, "gw/");
    assert_eq!(cfg.endpoint_url.as_deref(), Some("https://minio.local"));
    assert!(cfg.force_path_style);
    assert_eq!(cfg.credentials, creds("id", "secret"));
    assert_eq!(cfg.retention_mode, RetentionMode::Compliance);
    assert_eq!(cfg.retention_days, 2555);
    assert_eq!(cfg.request_timeout_ms, 1);
    assert_eq!(cfg.normalized_prefix(), "gw/");
}

#[test]
fn retention_bounds_are_inclusive() {
    for days in [1, 36_500] {
        let mut f = fields();
        f.retention_days = Some(days);
        assert!(WormConfig::parse(Ok(f)).is_ok());
    }
}

#[test]
fn rejects_blank_region() {
    let mut f = fields();
    f.region = "\u{3000}\t".to_owned();
    assert!(matches!(WormConfig::parse(Ok(f)).unwrap_err(), ConfigError::EmptyRegion));
}

#[test]
fn rejects_empty_secret_but_not_a_blank_one() {
    let mut f = fields();
    f.credentials = creds("id", "");
    assert!(matches!(WormConfig::parse(Ok(f)).unwrap_err(), ConfigError::EmptySecretAccessKey));
    let mut f = fields();
    f.credentials = creds("id", " ");
    assert!(WormConfig::parse(Ok(f)).is_ok());
}

#[test]
fn first_broken_rule_is_reported() {
    let mut f = fields();
    f.bucket = String::new();
    f.region = String::new();
    f.retention_days = Some(0);
    f.request_timeout_ms = Some(0);
    assert!(matches!(WormConfig::parse(Ok(f)).unwrap_err(), ConfigError::EmptyBucket));
    let mut f = fields();
    f.retention_days = Some(0);
    f.request_timeout_ms = Some(0);
    assert!(matches!(
        WormConfig::parse(Ok(f)).unwrap_err(),
        ConfigError::InvalidRetentionDays(0)
    ));
}

#[test]
fn both_http_schemes_are_accepted() {
    for (url, ok) in [
        ("http://localhost:4566", true),
        ("https://s3.local", true),
        ("http://", true),
        ("http:/", false),
        ("HTTP://x", false),
        ("", false),
        (" https://x", false),
    ] {
        let mut f = fields();
        f.endpoint_url = Some(url.to_owned());
        assert_eq!(WormConfig::parse(Ok(f)).is_ok(), ok, "{url}");
    }
}

#[test]
fn messages_of_the_errors() {
    let decoder = serde_json::from_str::<Value>("{ not json").unwrap_err().to_string();
    let err = parse("{ not json").unwrap_err();
    assert_eq!(err.message(), format!("invalid audit.s3-worm config JSON: {decoder}"));
    assert_eq!(ConfigError::EmptyBucket.message(), "audit.s3-worm: bucket is empty");
    assert_eq!(ConfigError::EmptyRegion.message(), "audit.s3-worm: region is empty");
    assert_eq!(
        ConfigError::InvalidEndpointScheme.message(),
        "audit.s3-worm: endpoint_url must start with http:// or https://"
    );
    assert_eq!(
        ConfigError::EmptyAccessKeyId.message(),
        "audit.s3-worm: credentials.access_key_id is empty"
    );
    assert_eq!(
        ConfigError::EmptySecretAccessKey.message(),
        "audit.s3-worm: credentials.secret_access_key is empty"
    );
    for days in [0, 9, 10, 36_501, u32::MAX] {
        assert_eq!(
            ConfigError::InvalidRetentionDays(days).message(),
            format!("audit.s3-worm: retention_days={days} out of range (must be 1..=36_500)")
        );
    }
    assert_eq!(
        ConfigError::InvalidRequestTimeout.message(),
        "audit.s3-worm: request_timeout_ms must be >= 1"
    );
}

#[test]
fn normalizing_is_idempotent() {
    for (prefix, want) in [("", ""), ("a", "a/"), ("a/", "a/"), ("/", "/"), ("é", "é/")] {
        let mut f = fields();
        f.prefix = Some(prefix.to_owned());
        let once = f.with_defaults().normalized_prefix();
        assert_eq!(once, want);
        let mut f = fields();
        f.prefix = Some(once.clone());
        assert_eq!(f.with_defaults().normalized_prefix(), once);
    }
}

#[test]
fn white_space_is_that_of_unicode() {
    for n in 0..=0x10ffffu32 {
        if let Some(c) = char::from_u32(n) {
            assert_eq!(is_white_space(c), c.is_whitespace(), "U+{n:04X}");
        }
    }
}

#[test]
fn blank_means_nothing_left_after_trimming() {
    for s in ["", " ", "\u{a0}\n", "x", " x ", "\u{200b}", "\u{2028}é"] {
        assert_eq!(is_blank(s), s.trim().is_empty(), "{s:?}");
    }
}
