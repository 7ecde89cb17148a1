//! Operator-supplied configuration of the sink and the rules it must meet.

use vstd::prelude::*;

use crate::text;

verus! {

/// Configuration of the sink.
#[derive(Debug, Clone)]
pub struct WormConfig {
    /// Target bucket. It must already exist with S3 Object Lock enabled; the
    /// sink writes locked objects but does not create or configure the
    /// bucket.
    pub bucket: String,
    /// AWS region the S3 client targets.
    pub region: String,
    /// Key prefix, e.g. `audit/`. A trailing slash is added if missing.
    /// Empty means the bucket root.
    pub prefix: String,
    /// Endpoint override for S3-compatible providers. Must be `http(s)://`.
    /// `None` means the AWS default resolver.
    pub endpoint_url: Option<String>,
    /// Path-style addressing.
    pub force_path_style: bool,
    /// Static credentials. `None` means the default AWS chain.
    pub credentials: Option<StaticCredentials>,
    /// Object Lock retention mode.
    pub retention_mode: RetentionMode,
    /// Retention window in days, at least one and at most
    /// [`MAX_RETENTION_DAYS`].
    pub retention_days: u32,
    /// Deadline of one write, in milliseconds.
    pub request_timeout_ms: u64,
}

/// The fields that a configuration text names. `None` stands for a field that
/// the text leaves to its default.
#[derive(Debug)]
pub struct ConfigFields {
    pub bucket: String,
    pub region: String,
    pub prefix: Option<String>,
    pub endpoint_url: Option<String>,
    pub force_path_style: Option<bool>,
    pub credentials: Option<StaticCredentials>,
    pub retention_mode: Option<RetentionMode>,
    pub retention_days: Option<u32>,
    pub request_timeout_ms: Option<u64>,
}

/// Credentials given in the configuration itself.
#[derive(Debug, Clone, PartialEq, Eq)]
pub struct StaticCredentials {
    pub access_key_id: String,
    pub secret_access_key: String,
    pub session_token: Option<String>,
}

/// Object Lock retention mode.
#[derive(Debug, Clone, Copy, PartialEq, Eq, Structural)]
pub enum RetentionMode {
    /// Deletable only by a principal that may bypass governance retention.
    /// The default.
    Governance,
    /// Immutable for everyone, the account root too, until the retention
    /// date passes.
    Compliance,
}

impl Default for RetentionMode {
    fn default() -> (mode: RetentionMode)
        ensures
            mode == RetentionMode::Governance,
    {
        RetentionMode::Governance
    }
}

/// Longest retention window in days: a hundred years.
pub const MAX_RETENTION_DAYS: u32 = 36_500;

/// Retention window where the configuration names none.
pub fn default_retention_days() -> (days: u32)
    ensures
        days == 365,
{
    365
}

/// Write deadline in milliseconds where the configuration names none.
pub fn default_request_timeout_ms() -> (ms: u64)
    ensures
        ms == 10_000,
{
    10_000
}

/// Why a configuration is refused.
#[derive(Debug)]
pub enum ConfigError {
    /// The configuration is no JSON of the expected shape; holds the
    /// decoder's message.
    InvalidJson(String),
    EmptyBucket,
    EmptyRegion,
    InvalidEndpointScheme,
    EmptyAccessKeyId,
    EmptySecretAccessKey,
    /// Holds the number of days that was asked for.
    InvalidRetentionDays(u32),
    InvalidRequestTimeout,
}

impl ConfigError {
    /// The message that [`ConfigError::message`] renders.
    pub open spec fn text(self) -> Seq<char> {
        match self {
            ConfigError::InvalidJson(reason) => "invalid audit.s3-worm config JSON: "@ + reason@,
            ConfigError::EmptyBucket => "audit.s3-worm: bucket is empty"@,
            ConfigError::EmptyRegion => "audit.s3-worm: region is empty"@,
            ConfigError::InvalidEndpointScheme =>
                "audit.s3-worm: endpoint_url must start with http:// or https://"@,
            ConfigError::EmptyAccessKeyId =>
                "audit.s3-worm: credentials.access_key_id is empty"@,
            ConfigError::EmptySecretAccessKey =>
                "audit.s3-worm: credentials.secret_access_key is empty"@,
            ConfigError::InvalidRetentionDays(days) => "audit.s3-worm: retention_days="@
                + text::decimal(days as nat) + " out of range (must be 1..=36_500)"@,
            ConfigError::InvalidRequestTimeout => "audit.s3-worm: request_timeout_ms must be >= 1"@,
        }
    }

    /// Human-readable message of the error.
    pub fn message(&self) -> (r: String)
        ensures
            r@ == self.text(),
    {
        match self {
            ConfigError::InvalidJson(reason) => {
                let mut r = "invalid audit.s3-worm config JSON: ".to_owned();
                r.append(reason.as_str());
                r
            },
            ConfigError::EmptyBucket => "audit.s3-worm: bucket is empty".to_owned(),
            ConfigError::EmptyRegion => "audit.s3-worm: region is empty".to_owned(),
            ConfigError::InvalidEndpointScheme =>
                "audit.s3-worm: endpoint_url must start with http:// or https://".to_owned(),
            ConfigError::EmptyAccessKeyId =>
                "audit.s3-worm: credentials.access_key_id is empty".to_owned(),
            ConfigError::EmptySecretAccessKey =>
                "audit.s3-worm: credentials.secret_access_key is empty".to_owned(),
            ConfigError::InvalidRetentionDays(days) => {
                let mut r = "audit.s3-worm: retention_days=".to_owned();
                text::append_decimal(&mut r, *days);
                r.append(" out of range (must be 1..=36_500)");
                r
            },
            ConfigError::InvalidRequestTimeout =>
                "audit.s3-worm: request_timeout_ms must be >= 1".to_owned(),
        }
    }
}

/// `url` has the scheme `http` or `https`.
pub open spec fn http_url(url: Seq<char>) -> bool {
    "http://"@.is_prefix_of(url) || "https://"@.is_prefix_of(url)
}

/// `prefix` with a slash at its end, unless it is empty or has one.
pub open spec fn with_slash(prefix: Seq<char>) -> Seq<char> {
    if prefix.len() == 0 || prefix.last() == '/' {
        prefix
    } else {
        prefix.push('/')
    }
}

/// The first rule that a configuration with these values breaks, in the order
/// in which the rules are looked at.
pub open spec fn first_fault(
    bucket: Seq<char>,
    region: Seq<char>,
    endpoint_url: Option<String>,
    credentials: Option<StaticCredentials>,
    retention_days: u32,
    request_timeout_ms: u64,
) -> Option<ConfigError> {
    if text::blank(bucket) {
        Some(ConfigError::EmptyBucket)
    } else if text::blank(region) {
        Some(ConfigError::EmptyRegion)
    } else if endpoint_url is Some && !http_url(endpoint_url->0@) {
        Some(ConfigError::InvalidEndpointScheme)
    } else if credentials is Some && text::blank(credentials->0.access_key_id@) {
        Some(ConfigError::EmptyAccessKeyId)
    } else if credentials is Some && credentials->0.secret_access_key@.len() == 0 {
        Some(ConfigError::EmptySecretAccessKey)
    } else if !(1 <= retention_days <= MAX_RETENTION_DAYS) {
        Some(ConfigError::InvalidRetentionDays(retention_days))
    } else if request_timeout_ms == 0 {
        Some(ConfigError::InvalidRequestTimeout)
    } else {
        None
    }
}

impl ConfigFields {
    /// The retention window that the text asks for.
    pub open spec fn days(self) -> u32 {
        match self.retention_days {
            Some(days) => days,
            None => 365,
        }
    }

    /// The write deadline that the text asks for.
    pub open spec fn timeout_ms(self) -> u64 {
        match self.request_timeout_ms {
            Some(ms) => ms,
            None => 10_000,
        }
    }

    /// The first rule that the configuration breaks.
    pub open spec fn fault(self) -> Option<ConfigError> {
        first_fault(
            self.bucket@,
            self.region@,
            self.endpoint_url,
            self.credentials,
            self.days(),
            self.timeout_ms(),
        )
    }

    /// Fills the fields that the text does not name with their defaults.
    pub fn with_defaults(self) -> (cfg: WormConfig)
        ensures
            cfg.completes(self),
    {
        WormConfig {
            bucket: self.bucket,
            region: self.region,
            prefix: match self.prefix {
                Some(prefix) => prefix,
                None => String::new(),
            },
            endpoint_url: self.endpoint_url,
            force_path_style: match self.force_path_style {
                Some(force) => force,
                None => false,
            },
            credentials: self.credentials,
            retention_mode: match self.retention_mode {
                Some(mode) => mode,
                None => RetentionMode::default(),
            },
            retention_days: match self.retention_days {
                Some(days) => days,
                None => default_retention_days(),
            },
            request_timeout_ms: match self.request_timeout_ms {
                Some(ms) => ms,
                None => default_request_timeout_ms(),
            },
        }
    }
}

impl WormConfig {
    /// The configuration has every value that `fields` names, and the
    /// default where `fields` names none.
    pub open spec fn completes(self, fields: ConfigFields) -> bool {
        &&& self.bucket == fields.bucket
        &&& self.region == fields.region
        &&& self.prefix@ == (match fields.prefix {
            Some(prefix) => prefix@,
            None => seq![],
        })
        &&& self.endpoint_url == fields.endpoint_url
        &&& self.force_path_style == (match fields.force_path_style {
            Some(force) => force,
            None => false,
        })
        &&& self.credentials == fields.credentials
        &&& self.retention_mode == (match fields.retention_mode {
            Some(mode) => mode,
            None => RetentionMode::Governance,
        })
        &&& self.retention_days == fields.days()
        &&& self.request_timeout_ms == fields.timeout_ms()
    }

    /// The first rule that the configuration breaks.
    pub open spec fn fault(self) -> Option<ConfigError> {
        first_fault(
            self.bucket@,
            self.region@,
            self.endpoint_url,
            self.credentials,
            self.retention_days,
            self.request_timeout_ms,
        )
    }

    /// The configuration meets every rule.
    pub open spec fn valid(self) -> bool {
        &&& !text::blank(self.bucket@)
        &&& !text::blank(self.region@)
        &&& self.endpoint_url matches Some(url) ==> http_url(url@)
        &&& self.credentials matches Some(creds) ==> !text::blank(creds.access_key_id@)
            && creds.secret_access_key@.len() > 0
        &&& 1 <= self.retention_days <= MAX_RETENTION_DAYS
        &&& self.request_timeout_ms >= 1
    }

    /// Takes what decoding the configuration text gave, the fields that it
    /// names or the decoder's message. Hands out the configuration, with its
    /// defaults filled in, only if it meets every rule.
    pub fn parse(decoded: Result<ConfigFields, String>) -> (r: Result<WormConfig, ConfigError>)
        ensures
            match decoded {
                Err(reason) => r == Err::<WormConfig, ConfigError>(
                    ConfigError::InvalidJson(reason),
                ),
                Ok(fields) => match fields.fault() {
                    Some(err) => r == Err::<WormConfig, ConfigError>(err),
                    None => r matches Ok(cfg) && cfg.completes(fields) && cfg.valid(),
                },
            },
    {
        match decoded {
            Err(reason) => Err(ConfigError::InvalidJson(reason)),
            Ok(fields) => {
                let cfg = fields.with_defaults();
                match cfg.validate() {
                    Err(err) => Err(err),
                    Ok(()) => Ok(cfg),
                }
            },
        }
    }

    /// Checks the rules one by one and reports the first one broken.
    pub fn validate(&self) -> (r: Result<(), ConfigError>)
        ensures
            r == (match self.fault() {
                Some(err) => Err::<(), ConfigError>(err),
                None => Ok(()),
            }),
            r is Ok <==> self.valid(),
    {
        if text::is_blank(self.bucket.as_str()) {
            return Err(ConfigError::EmptyBucket);
        }
        if text::is_blank(self.region.as_str()) {
            return Err(ConfigError::EmptyRegion);
        }
        if let Some(url) = &self.endpoint_url {
            if !text::starts_with(url.as_str(), "http://") && !text::starts_with(
                url.as_str(),
                "https://",
            ) {
                return Err(ConfigError::InvalidEndpointScheme);
            }
        }
        if let Some(creds) = &self.credentials {
            if text::is_blank(creds.access_key_id.as_str()) {
                return Err(ConfigError::EmptyAccessKeyId);
            }
            if creds.secret_access_key.as_str().is_empty() {
                return Err(ConfigError::EmptySecretAccessKey);
            }
        }
        if self.retention_days == 0 || self.retention_days > MAX_RETENTION_DAYS {
            return Err(ConfigError::InvalidRetentionDays(self.retention_days));
        }
        if self.request_timeout_ms == 0 {
            return Err(ConfigError::InvalidRequestTimeout);
        }
        Ok(())
    }

    /// Prefix with a guaranteed trailing slash; an empty prefix stays empty.
    pub fn normalized_prefix(&self) -> (r: String)
        ensures
            r@ == with_slash(self.prefix@),
    {
        let mut r = self.prefix.clone();
        let n: usize = self.prefix.as_str().unicode_len();
        if n > 0 && self.prefix.as_str().get_char(n - 1) != '/' {
            r.push('/');
        }
        r
    }
}

/// A normalized prefix begins with the prefix as configured, and is empty or
/// ends in a slash; normalizing it again changes nothing.
pub proof fn law_normalized_prefix(prefix: Seq<char>)
    ensures
        prefix.is_prefix_of(with_slash(prefix)),
        with_slash(prefix).len() == 0 <==> prefix.len() == 0,
        with_slash(prefix).len() > 0 ==> with_slash(prefix).last() == '/',
        with_slash(with_slash(prefix)) == with_slash(prefix),
{
}

/// The defaults break no rule: a text that names a bucket and a region, both
/// not blank, and leaves the rest to the defaults gives a valid configuration
/// in governance mode, for 365 days, at the bucket root.
pub proof fn law_defaults_are_valid(fields: ConfigFields, cfg: WormConfig)
    requires
        fields.prefix is None,
        fields.endpoint_url is None,
        fields.credentials is None,
        fields.retention_mode is None,
        fields.retention_days is None,
        fields.request_timeout_ms is None,
        cfg.completes(fields),
    ensures
        cfg.valid() <==> !text::blank(fields.bucket@) && !text::blank(fields.region@),
        cfg.retention_mode == RetentionMode::Governance,
        cfg.retention_days == 365,
        with_slash(cfg.prefix@).len() == 0,
{
}

/// A configuration is valid exactly if none of its rules is reported broken,
/// and filling in the defaults does not change which rule that is.
pub proof fn law_valid_means_no_fault(fields: ConfigFields, cfg: WormConfig)
    requires
        cfg.completes(fields),
    ensures
        cfg.fault() == fields.fault(),
        cfg.valid() <==> cfg.fault() is None,
{
}

} // verus!
