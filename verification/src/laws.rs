//! What each operation does, stated over its calls: whenever an operation,
//! called on some arguments, may return a result, that result stands in the
//! stated relation to the arguments.

use vstd::prelude::*;

use crate::audit::{AuditError, AuditEvent, AuditReceipt};
use crate::config::{ConfigError, ConfigFields, RetentionMode, WormConfig};
use crate::s3_client::{CredentialSource, PutFailure, PutOutcome, PutRequest, S3WormClient};
use crate::sink::{PendingEmit, PluginClass, S3WormAuditSink};
use crate::text;

verus! {

/// A text is blank exactly if every character of it is one of the 25 white
/// space characters of Unicode.
pub proof fn law_blank_text(s: Seq<char>)
    ensures
        text::blank(s) <==> forall|i: int|
            0 <= i < s.len() ==> {
                let c = #[trigger] s[i] as int;
                ||| 9 <= c <= 13
                ||| c == 32
                ||| c == 0x85
                ||| c == 0xa0
                ||| c == 0x1680
                ||| 0x2000 <= c <= 0x200a
                ||| c == 0x2028
                ||| c == 0x2029
                ||| c == 0x202f
                ||| c == 0x205f
                ||| c == 0x3000
            },
{
}

/// `is_blank` answers whether every character is white space; a text put
/// together from two is blank exactly if both are.
pub proof fn law_is_blank(a: &str, b: &str, ab: &str, ra: bool, rb: bool, rab: bool)
    requires
        ab@ == a@ + b@,
        call_ensures(text::is_blank, (a,), ra),
        call_ensures(text::is_blank, (b,), rb),
        call_ensures(text::is_blank, (ab,), rab),
    ensures
        ra == text::blank(a@),
        rab == (ra && rb),
{
    assert forall|i: int| 0 <= i < a@.len() implies ab@[i] == #[trigger] a@[i] by {}
    assert forall|i: int| 0 <= i < b@.len() implies ab@[a@.len() + i] == #[trigger] b@[i] by {}
    if rab {
        assert forall|i: int| 0 <= i < a@.len() implies text::white_space(#[trigger] a@[i]) by {
            assert(text::white_space(ab@[i]));
        }
        assert forall|i: int| 0 <= i < b@.len() implies text::white_space(#[trigger] b@[i]) by {
            assert(text::white_space(ab@[a@.len() + i]));
        }
    }
}

/// The decimal text of a number ends in its last digit, and what stands
/// before that digit is the decimal text of a tenth of the number, nothing
/// for a number below ten.
pub proof fn law_decimal_text(n: nat)
    ensures
        text::decimal(n).len() > 0,
        text::decimal(n).last() as int == 48 + n % 10,
        n < 10 ==> text::decimal(n).len() == 1,
        n >= 10 ==> text::decimal(n).drop_last() == text::decimal(n / 10),
{
    if n >= 10 {
        assert(text::decimal(n).drop_last() == text::decimal(n / 10));
    }
}

/// The root segment of a module path is a beginning of the path that holds no
/// `::` and is followed by one, or is all of the path.
pub proof fn law_root_segment(path: Seq<char>)
    ensures
        ({
            let n = text::root_segment(path).len() as int;
            &&& n <= path.len()
            &&& text::root_segment(path) == path.take(n)
            &&& n < path.len() ==> n + 1 < path.len() && path[n] == ':' && path[n + 1] == ':'
            &&& forall|i: int| 0 <= i < n && i + 1 < path.len() && #[trigger] path[i] == ':'
                ==> path[i + 1] != ':'
        }),
    decreases path.len(),
{
    let r = text::root_segment(path);
    if path.len() == 0 || text::separator_at(path, 0) {
        assert(r == path.take(0));
    } else {
        let rest = path.drop_first();
        law_root_segment(rest);
        let n = r.len() as int;
        assert(n == 1 + text::root_segment(rest).len());
        assert(r == path.take(n));
        assert forall|i: int| 0 <= i < n && i + 1 < path.len() && #[trigger] path[i]
            == ':' implies path[i + 1] != ':' by {
            if i > 0 {
                assert(rest[i - 1] == path[i]);
                assert(rest[i] == path[i + 1]);
            }
        }
    }
}

/// Filling in the defaults keeps every value that the text names; an absent
/// prefix is empty, addressing is virtual-hosted, the mode is governance, the
/// window 365 days and the deadline ten seconds.
pub proof fn law_with_defaults(fields: ConfigFields, cfg: WormConfig)
    requires
        call_ensures(ConfigFields::with_defaults, (fields,), cfg),
    ensures
        cfg.bucket@ == fields.bucket@,
        cfg.region@ == fields.region@,
        fields.prefix matches Some(prefix) ==> cfg.prefix@ == prefix@,
        fields.prefix is None ==> cfg.prefix@.len() == 0,
        cfg.endpoint_url == fields.endpoint_url,
        fields.force_path_style matches Some(force) ==> cfg.force_path_style == force,
        fields.force_path_style is None ==> !cfg.force_path_style,
        cfg.credentials == fields.credentials,
        fields.retention_mode matches Some(mode) ==> cfg.retention_mode == mode,
        fields.retention_mode is None ==> cfg.retention_mode == RetentionMode::Governance,
        fields.retention_days matches Some(days) ==> cfg.retention_days == days,
        fields.retention_days is None ==> cfg.retention_days == 365,
        fields.request_timeout_ms matches Some(ms) ==> cfg.request_timeout_ms == ms,
        fields.request_timeout_ms is None ==> cfg.request_timeout_ms == 10_000,
{
}

/// Which configurations are accepted, and which error each of the others
/// gets: the rules are looked at in this order, nothing else is looked at,
/// and the first rule broken is the one reported.
pub proof fn law_validate(cfg: &WormConfig, r: Result<(), ConfigError>)
    requires
        call_ensures(WormConfig::validate, (cfg,), r),
    ensures
        ({
            let bucket = !text::blank(cfg.bucket@);
            let region = !text::blank(cfg.region@);
            let endpoint = cfg.endpoint_url matches Some(url) ==> "http://"@.is_prefix_of(url@)
                || "https://"@.is_prefix_of(url@);
            let key_id = cfg.credentials matches Some(c) ==> !text::blank(c.access_key_id@);
            let secret = cfg.credentials matches Some(c) ==> c.secret_access_key@.len() > 0;
            let days = 1 <= cfg.retention_days <= 36_500;
            let timeout = cfg.request_timeout_ms >= 1;
            &&& !bucket ==> r == Err::<(), ConfigError>(ConfigError::EmptyBucket)
            &&& bucket && !region ==> r == Err::<(), ConfigError>(ConfigError::EmptyRegion)
            &&& bucket && region && !endpoint ==> r == Err::<(), ConfigError>(
                ConfigError::InvalidEndpointScheme,
            )
            &&& bucket && region && endpoint && !key_id ==> r == Err::<(), ConfigError>(
                ConfigError::EmptyAccessKeyId,
            )
            &&& bucket && region && endpoint && key_id && !secret ==> r == Err::<(), ConfigError>(
                ConfigError::EmptySecretAccessKey,
            )
            &&& bucket && region && endpoint && key_id && secret && !days ==> r == Err::<
                (),
                ConfigError,
            >(ConfigError::InvalidRetentionDays(cfg.retention_days))
            &&& bucket && region && endpoint && key_id && secret && days && !timeout ==> r == Err::<
                (),
                ConfigError,
            >(ConfigError::InvalidRequestTimeout)
            &&& bucket && region && endpoint && key_id && secret && days && timeout ==> r is Ok
        }),
{
}

/// Parsing hands out what filling in the defaults gives, and accepts or
/// refuses it as validating does. A text that cannot be decoded is refused
/// with the decoder's message.
pub proof fn law_parse(
    fields: ConfigFields,
    completed: WormConfig,
    validated: Result<(), ConfigError>,
    r: Result<WormConfig, ConfigError>,
    reason: String,
    undecoded: Result<WormConfig, ConfigError>,
)
    requires
        call_ensures(ConfigFields::with_defaults, (fields,), completed),
        call_ensures(WormConfig::validate, (&completed,), validated),
        call_ensures(WormConfig::parse, (Ok::<ConfigFields, String>(fields),), r),
        call_ensures(WormConfig::parse, (Err::<ConfigFields, String>(reason),), undecoded),
    ensures
        validated matches Err(err) ==> r == Err::<WormConfig, ConfigError>(err),
        validated is Ok ==> r is Ok,
        r matches Ok(cfg) ==> {
            &&& cfg.bucket@ == fields.bucket@
            &&& cfg.region@ == fields.region@
            &&& cfg.prefix@ == completed.prefix@
            &&& cfg.endpoint_url == fields.endpoint_url
            &&& cfg.force_path_style == completed.force_path_style
            &&& cfg.credentials == fields.credentials
            &&& cfg.retention_mode == completed.retention_mode
            &&& cfg.retention_days == completed.retention_days
            &&& cfg.request_timeout_ms == completed.request_timeout_ms
        },
        undecoded == Err::<WormConfig, ConfigError>(ConfigError::InvalidJson(reason)),
{
}

/// A normalized prefix is the configured one, with one slash more exactly if
/// the configured one is not empty and does not end in a slash.
pub proof fn law_normalized_prefix_call(cfg: &WormConfig, r: String)
    requires
        call_ensures(WormConfig::normalized_prefix, (cfg,), r),
    ensures
        cfg.prefix@.is_prefix_of(r@),
        r@.len() > 0 ==> r@.last() == '/',
        cfg.prefix@.len() == 0 ==> r@.len() == 0,
        cfg.prefix@.len() > 0 && cfg.prefix@.last() == '/' ==> r@.len() == cfg.prefix@.len(),
        cfg.prefix@.len() > 0 && cfg.prefix@.last() != '/' ==> r@.len() == cfg.prefix@.len() + 1,
{
}

/// The text of every configuration error.
pub proof fn law_message(err: &ConfigError, r: String)
    requires
        call_ensures(ConfigError::message, (err,), r),
    ensures
        err matches ConfigError::InvalidJson(reason) ==> r@ == "invalid audit.s3-worm config JSON: "@
            + reason@,
        err is EmptyBucket ==> r@ == "audit.s3-worm: bucket is empty"@,
        err is EmptyRegion ==> r@ == "audit.s3-worm: region is empty"@,
        err is InvalidEndpointScheme ==> r@
            == "audit.s3-worm: endpoint_url must start with http:// or https://"@,
        err is EmptyAccessKeyId ==> r@ == "audit.s3-worm: credentials.access_key_id is empty"@,
        err is EmptySecretAccessKey ==> r@
            == "audit.s3-worm: credentials.secret_access_key is empty"@,
        err matches ConfigError::InvalidRetentionDays(days) ==> r@
            == "audit.s3-worm: retention_days="@ + text::decimal(*days as nat)
            + " out of range (must be 1..=36_500)"@,
        err is InvalidRequestTimeout ==> r@ == "audit.s3-worm: request_timeout_ms must be >= 1"@,
{
}

/// Ten characters that write a year of four digits, a month and a day of two
/// digits each, with dashes between them, are a calendar day exactly if the
/// month is one of the twelve and has that day: every month has 28 days, all
/// but February have 30, seven have 31, and February has 29 in a leap year.
pub proof fn law_calendar_day_by_numbers(d: Seq<char>, year: int, month: int, day: int)
    requires
        0 <= year <= 9_999,
        0 <= month <= 99,
        0 <= day <= 99,
        d.len() == 10,
        d[0] as int == 48 + year / 1000,
        d[1] as int == 48 + year / 100 % 10,
        d[2] as int == 48 + year / 10 % 10,
        d[3] as int == 48 + year % 10,
        d[4] == '-',
        d[5] as int == 48 + month / 10,
        d[6] as int == 48 + month % 10,
        d[7] == '-',
        d[8] as int == 48 + day / 10,
        d[9] as int == 48 + day % 10,
    ensures
        crate::calendar::calendar_day(d) <==> {
            &&& 1 <= month <= 12
            &&& day >= 1
            &&& {
                ||| day <= 28
                ||| day <= 30 && month != 2
                ||| day == 31 && (month == 1 || month == 3 || month == 5 || month == 7 || month == 8
                    || month == 10 || month == 12)
                ||| day == 29 && month == 2 && year % 4 == 0 && (year % 100 != 0 || year % 400 == 0)
            }
        },
{
    assert(crate::calendar::four_digit_value(d, 0) == year);
    assert(crate::calendar::two_digit_value(d, 5) == month);
    assert(crate::calendar::two_digit_value(d, 8) == day);
}

/// A calendar day has ten characters: a dash at positions 4 and 7, decimal
/// digits at the others.
pub proof fn law_calendar_day_shape(d: Seq<char>)
    requires
        crate::calendar::calendar_day(d),
    ensures
        d.len() == 10,
        d[4] == '-',
        d[7] == '-',
        forall|i: int|
            0 <= i < 10 && i != 4 && i != 7 ==> 48 <= #[trigger] d[i] as int <= 57,
{
    assert forall|i: int| 0 <= i < 10 && i != 4 && i != 7 implies 48 <= #[trigger] d[i] as int
        <= 57 by {
        assert(i == 0 || i == 1 || i == 2 || i == 3 || i == 5 || i == 6 || i == 8 || i == 9);
    }
}

/// `is_calendar_day` accepts the ten characters that write a day of the first
/// to the 28th of a month, in any year from 0 to 9999, and refuses whatever
/// does not have the shape of a date.
pub proof fn law_is_calendar_day(d: &str, year: int, month: int, day: int, r: bool)
    requires
        call_ensures(crate::calendar::is_calendar_day, (d,), r),
    ensures
        r == crate::calendar::calendar_day(d@),
        r ==> d@.len() == 10 && d@[4] == '-' && d@[7] == '-',
        0 <= year <= 9_999 && 1 <= month <= 12 && 1 <= day <= 28 && d@.len() == 10 && d@[0] as int
            == 48 + year / 1000 && d@[1] as int == 48 + year / 100 % 10 && d@[2] as int == 48 + year
            / 10 % 10 && d@[3] as int == 48 + year % 10 && d@[4] == '-' && d@[5] as int == 48
            + month / 10 && d@[6] as int == 48 + month % 10 && d@[7] == '-' && d@[8] as int == 48
            + day / 10 && d@[9] as int == 48 + day % 10 ==> r,
{
    if 0 <= year <= 9_999 && 1 <= month <= 12 && 1 <= day <= 28 && d@.len() == 10 && d@[0] as int
        == 48 + year / 1000 && d@[1] as int == 48 + year / 100 % 10 && d@[2] as int == 48 + year
        / 10 % 10 && d@[3] as int == 48 + year % 10 && d@[4] == '-' && d@[5] as int == 48 + month
        / 10 && d@[6] as int == 48 + month % 10 && d@[7] == '-' && d@[8] as int == 48 + day / 10
        && d@[9] as int == 48 + day % 10 {
        law_calendar_day_by_numbers(d@, year, month, day);
    }
}

/// An event whose time stamp begins with the ten characters of a day that the
/// calendar has is filed under exactly these characters, whatever follows
/// them; one that begins with a month or a day that the calendar does not
/// have is filed under `undated`.
pub proof fn law_event_is_filed_under_its_day(
    prefix: &str,
    event: &AuditEvent,
    key: String,
    year: int,
    month: int,
    day: int,
)
    requires
        call_ensures(crate::key::object_key, (prefix, event), key),
        0 <= year <= 9_999,
        0 <= month <= 99,
        0 <= day <= 99,
        event.occurred_at@.len() >= 10,
        event.occurred_at@[0] as int == 48 + year / 1000,
        event.occurred_at@[1] as int == 48 + year / 100 % 10,
        event.occurred_at@[2] as int == 48 + year / 10 % 10,
        event.occurred_at@[3] as int == 48 + year % 10,
        event.occurred_at@[4] == '-',
        event.occurred_at@[5] as int == 48 + month / 10,
        event.occurred_at@[6] as int == 48 + month % 10,
        event.occurred_at@[7] == '-',
        event.occurred_at@[8] as int == 48 + day / 10,
        event.occurred_at@[9] as int == 48 + day % 10,
    ensures
        ({
            let exists_in_calendar = {
                &&& 1 <= month <= 12
                &&& day >= 1
                &&& {
                    ||| day <= 28
                    ||| day <= 30 && month != 2
                    ||| day == 31 && (month == 1 || month == 3 || month == 5 || month == 7 || month
                        == 8 || month == 10 || month == 12)
                    ||| day == 29 && month == 2 && year % 4 == 0 && (year % 100 != 0 || year % 400
                        == 0)
                }
            };
            let folder = if exists_in_calendar {
                event.occurred_at@.take(10)
            } else {
                "undated"@
            };
            &&& (prefix@ + "events/"@ + folder + "/"@).is_prefix_of(key@)
            &&& key@ == prefix@ + "events/"@ + folder + "/"@ + crate::key::sanitized(
                event.event_id@,
            ) + ".json"@
        }),
{
    law_calendar_day_by_numbers(event.occurred_at@.take(10), year, month, day);
    crate::key::law_id_cannot_inject_segments(prefix@, event.occurred_at@, event.event_id@);
}

/// An event whose time stamp does not begin with digits and dashes in the
/// places of a date is filed under `undated`.
pub proof fn law_event_without_a_date_is_undated(
    prefix: &str,
    event: &AuditEvent,
    key: String,
    i: int,
)
    requires
        call_ensures(crate::key::object_key, (prefix, event), key),
        0 <= i < 10,
        event.occurred_at@.len() <= i || ((i == 4 || i == 7) && event.occurred_at@[i] != '-') || (i
            != 4 && i != 7 && !(48 <= event.occurred_at@[i] as int <= 57)),
    ensures
        key@ == prefix@ + "events/"@ + "undated"@ + "/"@ + crate::key::sanitized(event.event_id@)
            + ".json"@,
{
    let t = event.occurred_at@;
    if t.len() >= 10 && crate::calendar::calendar_day(t.take(10)) {
        law_calendar_day_shape(t.take(10));
        assert(t.take(10)[i] == t[i]);
    }
}

/// What stands for an id in a key has the id's length and keeps the letters,
/// digits, dots, underscores and dashes of ASCII in their places; every other
/// character gives an underscore, and no id at all gives `no-id`.
pub proof fn law_sanitized_char_by_char(id: Seq<char>)
    ensures
        id.len() == 0 ==> crate::key::sanitized(id) == "no-id"@,
        id.len() > 0 ==> crate::key::sanitized(id).len() == id.len(),
        forall|i: int|
            0 <= i < id.len() ==> {
                let c = #[trigger] id[i];
                let kept = 'a' <= c <= 'z' || 'A' <= c <= 'Z' || '0' <= c <= '9' || c == '.' || c
                    == '_' || c == '-';
                crate::key::sanitized(id)[i] == if kept {
                    c
                } else {
                    '_'
                }
            },
{
}

/// `sanitize_key_component` gives what stands for an id in a key.
pub proof fn law_sanitize_key_component(s: &str, r: String)
    requires
        call_ensures(crate::key::sanitize_key_component, (s,), r),
    ensures
        s@.len() == 0 ==> r@ == "no-id"@,
        s@.len() > 0 ==> r@.len() == s@.len(),
        forall|i: int|
            0 <= i < s@.len() ==> {
                let c = #[trigger] s@[i];
                let kept = 'a' <= c <= 'z' || 'A' <= c <= 'Z' || '0' <= c <= '9' || c == '.' || c
                    == '_' || c == '-';
                r@[i] == if kept {
                    c
                } else {
                    '_'
                }
            },
{
}

/// The hash of a body has 64 characters: characters 2i and 2i+1 are the high
/// and the low hexadecimal digit, in lower case, of byte i of the SHA-256 of
/// the body.
pub proof fn law_durable_hash(body: &[u8], hash: String)
    requires
        call_ensures(crate::digest::durable_hash, (body,), hash),
    ensures
        crate::digest::sha256(body@).len() == 32,
        hash@.len() == 64,
        forall|i: int|
            #![trigger crate::digest::sha256(body@)[i]]
            0 <= i < 32 ==> hash@[2 * i] == "0123456789abcdef"@[crate::digest::sha256(body@)[i]
                as int / 16] && hash@[2 * i + 1] == "0123456789abcdef"@[crate::digest::sha256(
                body@,
            )[i] as int % 16],
{
}

/// The client is set up with, character for character, the values of the
/// configuration: region, endpoint, addressing style, bucket, mode, window,
/// deadline, and the static credentials with their session token, or else the
/// default chain.
pub proof fn law_client_is_as_configured(cfg: &WormConfig, client: S3WormClient)
    requires
        call_ensures(S3WormClient::new, (cfg,), client),
    ensures
        client.connection.region@ == cfg.region@,
        client.connection.endpoint_url is Some <==> cfg.endpoint_url is Some,
        cfg.endpoint_url matches Some(url) ==> client.connection.endpoint_url->0@ == url@,
        client.connection.force_path_style == cfg.force_path_style,
        cfg.credentials is None ==> client.connection.credentials is DefaultChain,
        cfg.credentials matches Some(given) ==> {
            &&& client.connection.credentials matches CredentialSource::Static {
                credentials: used,
                provider_name,
            }
            &&& used.access_key_id@ == given.access_key_id@
            &&& used.secret_access_key@ == given.secret_access_key@
            &&& used.session_token is Some <==> given.session_token is Some
            &&& given.session_token matches Some(token) ==> used.session_token->0@ == token@
            &&& provider_name@ == "mcpg-worm-static"@
        },
        client.bucket@ == cfg.bucket@,
        client.retention_mode == cfg.retention_mode,
        client.retention_days == cfg.retention_days,
        client.request_timeout_ms == cfg.request_timeout_ms,
{
}

/// A request made for a write at a given time stores exactly the given bytes,
/// under the given key and labels, as JSON, in the client's bucket and mode,
/// within its deadline, locked for its window of days of 86400 seconds from
/// that time on.
pub proof fn law_put_event_at(
    client: &S3WormClient,
    now: i64,
    key: &str,
    body: Vec<u8>,
    metadata: Vec<(&'static str, String)>,
    request: PutRequest,
)
    requires
        call_ensures(S3WormClient::put_event_at, (client, now, key, body, metadata), request),
    ensures
        request.bucket@ == client.bucket@,
        request.key@ == key@,
        request.body@ == body@,
        request.content_type@ == "application/json"@,
        request.object_lock_mode == client.retention_mode,
        request.metadata@ == metadata@,
        request.timeout_ms == client.request_timeout_ms,
        request.retain_until == now + client.retention_days * 86_400,
{
}

/// A request made for a write now is the one for a write at a time that was
/// read from the clock.
pub proof fn law_put_event(
    client: &S3WormClient,
    key: &str,
    body: Vec<u8>,
    metadata: Vec<(&'static str, String)>,
    request: PutRequest,
)
    requires
        call_ensures(S3WormClient::put_event, (client, key, body, metadata), request),
    ensures
        request.bucket@ == client.bucket@,
        request.key@ == key@,
        request.body@ == body@,
        request.content_type@ == "application/json"@,
        request.object_lock_mode == client.retention_mode,
        request.metadata@ == metadata@,
        request.timeout_ms == client.request_timeout_ms,
        crate::reading::clock_seconds(request.retain_until - client.retention_days * 86_400),
{
}

/// What each failed write is reported as. A timeout of the SDK is a timeout,
/// whatever else was reported; one of the four throttling codes is
/// throttling; anything else is a failed write, whose reason is the service's
/// message, or the SDK's text where there is none, after the service's code
/// where there is one that is not empty.
pub proof fn law_classify_put_error(err: PutFailure, r: AuditError)
    requires
        call_ensures(crate::s3_client::classify_put_error, (err,), r),
    ensures
        ({
            let code = if err.service is Some && err.service->0.code is Some {
                err.service->0.code->0@
            } else {
                Seq::<char>::empty()
            };
            let reason = if err.service is Some && err.service->0.message is Some {
                err.service->0.message->0@
            } else {
                err.display@
            };
            let throttling = code == "Throttling"@ || code == "ThrottlingException"@ || code
                == "RequestLimitExceeded"@ || code == "SlowDown"@;
            &&& err.sdk_timeout ==> r is Timeout
            &&& !err.sdk_timeout && throttling ==> r is Throttled
            &&& !err.sdk_timeout && !throttling ==> {
                &&& r matches AuditError::WriteFailed { reason: told }
                &&& code.len() == 0 ==> told@ == reason
                &&& code.len() > 0 ==> told@ == "S3 PutObject ["@ + code + "]: "@ + reason
            }
        }),
{
}

/// A write has succeeded exactly if it durably completed; a deadline that
/// passed is a timeout, and a failure is reported as classified.
pub proof fn law_into_result(
    outcome: PutOutcome,
    r: Result<(), AuditError>,
    failure: PutFailure,
    classified: AuditError,
)
    requires
        call_ensures(PutOutcome::into_result, (outcome,), r),
        call_ensures(crate::s3_client::classify_put_error, (failure,), classified),
    ensures
        outcome is Stored <==> r is Ok,
        outcome is DeadlineElapsed ==> r is Err && r->Err_0 is Timeout,
        outcome == PutOutcome::Failed(failure) ==> r is Err && r->Err_0@ == classified@,
{
}

/// Loading a sink from the fields of a configuration takes over, character
/// for character, what they name: region, endpoint, addressing style,
/// credentials with their session token, bucket, mode, window and deadline,
/// with the defaults for what they do not name; the prefix gets its slash.
pub proof fn law_loaded_sink_is_as_the_fields_say(
    fields: ConfigFields,
    version: &str,
    origin: &str,
    r: Result<S3WormAuditSink, String>,
)
    requires
        call_ensures(
            S3WormAuditSink::from_config_json,
            (Ok::<ConfigFields, String>(fields), version, origin),
            r,
        ),
    ensures
        r matches Ok(sink) ==> {
            &&& sink.client.connection.region@ == fields.region@
            &&& sink.client.connection.endpoint_url is Some <==> fields.endpoint_url is Some
            &&& fields.endpoint_url matches Some(url)
                ==> sink.client.connection.endpoint_url->0@ == url@
            &&& fields.force_path_style matches Some(force)
                ==> sink.client.connection.force_path_style == force
            &&& fields.force_path_style is None ==> !sink.client.connection.force_path_style
            &&& fields.credentials is None ==> sink.client.connection.credentials is DefaultChain
            &&& fields.credentials matches Some(given) ==> {
                &&& sink.client.connection.credentials matches CredentialSource::Static {
                    credentials: used,
                    provider_name,
                }
                &&& used.access_key_id@ == given.access_key_id@
                &&& used.secret_access_key@ == given.secret_access_key@
                &&& used.session_token is Some <==> given.session_token is Some
                &&& given.session_token matches Some(token) ==> used.session_token->0@ == token@
                &&& provider_name@ == "mcpg-worm-static"@
            }
            &&& sink.client.bucket@ == fields.bucket@
            &&& fields.retention_mode matches Some(mode) ==> sink.client.retention_mode == mode
            &&& fields.retention_mode is None ==> sink.client.retention_mode
                == RetentionMode::Governance
            &&& fields.retention_days matches Some(days) ==> sink.client.retention_days == days
            &&& fields.retention_days is None ==> sink.client.retention_days == 365
            &&& fields.request_timeout_ms matches Some(ms) ==> sink.client.request_timeout_ms == ms
            &&& fields.request_timeout_ms is None ==> sink.client.request_timeout_ms == 10_000
            &&& fields.prefix is None || fields.prefix->0@.len() == 0 ==> sink.prefix@.len() == 0
            &&& fields.prefix matches Some(prefix) ==> prefix@.len() > 0 ==> sink.prefix@ == (
            if prefix@.last() == '/' {
                prefix@
            } else {
                prefix@ + "/"@
            })
        },
{
    reveal_strlit("/");
    if let Ok(sink) = r {
        let cfg = choose|cfg: WormConfig| #[trigger]
            cfg.completes(fields) && cfg.valid() && sink.built_from(cfg, version@, origin@);
        assert(cfg.prefix@.push('/') == cfg.prefix@ + "/"@);
    }
}

/// A sink is loaded exactly if the configuration, its defaults filled in, is
/// accepted; otherwise the refusal tells the message of the error.
pub proof fn law_misconfigured_sink_is_refused(
    decoded: Result<ConfigFields, String>,
    version: &str,
    origin: &str,
    parsed: Result<WormConfig, ConfigError>,
    message: String,
    r: Result<S3WormAuditSink, String>,
)
    requires
        call_ensures(WormConfig::parse, (decoded,), parsed),
        parsed matches Err(err) ==> call_ensures(ConfigError::message, (&err,), message),
        call_ensures(S3WormAuditSink::from_config_json, (decoded, version, origin), r),
    ensures
        r is Ok <==> parsed is Ok,
        r matches Err(why) ==> why@ == "audit.s3-worm config parse failed: "@ + message@
            + ". A misconfigured compliance audit sink is a safety hole; refusing to load."@,
{
}

/// The manifest of a sink names it, the version and the crate it was built
/// from, and asks for nothing.
pub proof fn law_manifest(
    cfg: WormConfig,
    version: &str,
    origin: &str,
    sink: S3WormAuditSink,
    manifest: &crate::sink::PluginManifest,
)
    requires
        call_ensures(S3WormAuditSink::from_validated_config, (cfg, version, origin), sink),
        call_ensures(S3WormAuditSink::manifest, (&sink,), manifest),
    ensures
        manifest.id@ == "dev.mcpg.audit.s3-worm"@,
        manifest.version@ == version@,
        manifest.name@ == "S3 Object-Lock (WORM) Audit Sink"@,
        manifest.plugin_class == PluginClass::AuditSink,
        manifest.protocol_version@ == "1.0"@,
        manifest.license is None,
        manifest.required_capabilities@.len() == 0,
        manifest.tags@.len() == 0,
        manifest.provides@.len() == 0,
        manifest.provides_schemes@.len() == 0,
        manifest.module_path_prefix@ == text::root_segment(origin@),
        manifest.backend_profile is None,
{
}

/// A sink set up under a configuration has the client that the configuration
/// asks for, and its normalized prefix.
pub proof fn law_sink_is_as_configured(
    cfg: WormConfig,
    version: &str,
    origin: &str,
    sink: S3WormAuditSink,
    client: S3WormClient,
    prefix: String,
)
    requires
        call_ensures(S3WormAuditSink::from_validated_config, (cfg, version, origin), sink),
        call_ensures(S3WormClient::new, (&cfg,), client),
        call_ensures(WormConfig::normalized_prefix, (&cfg,), prefix),
    ensures
        sink.client.connection.region@ == client.connection.region@,
        sink.client.connection.endpoint_url == client.connection.endpoint_url,
        sink.client.connection.force_path_style == client.connection.force_path_style,
        sink.client.connection.credentials == client.connection.credentials,
        sink.client.bucket@ == client.bucket@,
        sink.client.retention_mode == client.retention_mode,
        sink.client.retention_days == client.retention_days,
        sink.client.request_timeout_ms == client.request_timeout_ms,
        sink.prefix@ == prefix@,
{
}

/// Emitting an event at a given time asks to store exactly its serialized
/// bytes: in the sink's bucket, mode and deadline, under the event's key,
/// labelled with the event's id, action and outcome and the hexadecimal
/// SHA-256 of those bytes, locked for the sink's window of days of 86400
/// seconds from that time on. An event that could not be serialized is a
/// failed write.
pub proof fn law_begin_emit_at(
    sink: &S3WormAuditSink,
    now: i64,
    event: &AuditEvent,
    body: Vec<u8>,
    r: Result<PendingEmit, AuditError>,
    reason: String,
    unserialized: Result<PendingEmit, AuditError>,
)
    requires
        call_ensures(
            S3WormAuditSink::begin_emit_at,
            (sink, now, event, Ok::<Vec<u8>, String>(body)),
            r,
        ),
        call_ensures(
            S3WormAuditSink::begin_emit_at,
            (sink, now, event, Err::<Vec<u8>, String>(reason)),
            unserialized,
        ),
    ensures
        r matches Ok(pending) && {
            &&& pending.request.bucket@ == sink.client.bucket@
            &&& pending.request.key@ == sink.prefix@ + "events/"@ + crate::key::day_of(
                event.occurred_at@,
            ) + "/"@ + crate::key::sanitized(event.event_id@) + ".json"@
            &&& pending.request.body@ == body@
            &&& pending.request.content_type@ == "application/json"@
            &&& pending.request.object_lock_mode == sink.client.retention_mode
            &&& pending.request.timeout_ms == sink.client.request_timeout_ms
            &&& pending.request.metadata@.len() == 4
            &&& pending.request.metadata@[0].0@ == "mcpg-event-id"@
            &&& pending.request.metadata@[0].1@ == event.event_id@
            &&& pending.request.metadata@[1].0@ == "mcpg-action"@
            &&& pending.request.metadata@[1].1@ == event.action@
            &&& pending.request.metadata@[2].0@ == "mcpg-outcome"@
            &&& pending.request.metadata@[2].1@ == event.outcome@
            &&& pending.request.metadata@[3].0@ == "mcpg-sha256"@
            &&& pending.request.metadata@[3].1@ == pending.durable_hash@
            &&& pending.durable_hash@.len() == 64
            &&& crate::digest::sha256(body@).len() == 32
            &&& forall|i: int|
                #![trigger crate::digest::sha256(body@)[i]]
                0 <= i < 32 ==> pending.durable_hash@[2 * i]
                    == "0123456789abcdef"@[crate::digest::sha256(body@)[i] as int / 16]
                    && pending.durable_hash@[2 * i + 1]
                    == "0123456789abcdef"@[crate::digest::sha256(body@)[i] as int % 16]
            &&& pending.request.retain_until == now + sink.client.retention_days * 86_400
        },
        unserialized matches Err(err) && (err matches AuditError::WriteFailed { reason: told }
            && told@ == "serialize audit event: "@ + reason@),
{
    crate::digest::law_hash_spells_the_digest(body@);
}

/// Emitting an event now asks for what emitting it at a time read from the
/// clock asks for: the lock starts at a reading of the clock and nowhere
/// else.
pub proof fn law_begin_emit(
    sink: &S3WormAuditSink,
    event: &AuditEvent,
    body: Vec<u8>,
    r: Result<PendingEmit, AuditError>,
    reason: String,
    unserialized: Result<PendingEmit, AuditError>,
)
    requires
        call_ensures(
            S3WormAuditSink::begin_emit,
            (sink, event, Ok::<Vec<u8>, String>(body)),
            r,
        ),
        call_ensures(
            S3WormAuditSink::begin_emit,
            (sink, event, Err::<Vec<u8>, String>(reason)),
            unserialized,
        ),
    ensures
        r matches Ok(pending) && {
            &&& pending.request.bucket@ == sink.client.bucket@
            &&& pending.request.key@ == sink.prefix@ + "events/"@ + crate::key::day_of(
                event.occurred_at@,
            ) + "/"@ + crate::key::sanitized(event.event_id@) + ".json"@
            &&& pending.request.body@ == body@
            &&& pending.request.content_type@ == "application/json"@
            &&& pending.request.object_lock_mode == sink.client.retention_mode
            &&& pending.request.timeout_ms == sink.client.request_timeout_ms
            &&& pending.request.metadata@.len() == 4
            &&& pending.request.metadata@[0].0@ == "mcpg-event-id"@
            &&& pending.request.metadata@[0].1@ == event.event_id@
            &&& pending.request.metadata@[1].0@ == "mcpg-action"@
            &&& pending.request.metadata@[1].1@ == event.action@
            &&& pending.request.metadata@[2].0@ == "mcpg-outcome"@
            &&& pending.request.metadata@[2].1@ == event.outcome@
            &&& pending.request.metadata@[3].0@ == "mcpg-sha256"@
            &&& pending.request.metadata@[3].1@ == pending.durable_hash@
            &&& pending.durable_hash@.len() == 64
            &&& crate::digest::sha256(body@).len() == 32
            &&& forall|i: int|
                #![trigger crate::digest::sha256(body@)[i]]
                0 <= i < 32 ==> pending.durable_hash@[2 * i]
                    == "0123456789abcdef"@[crate::digest::sha256(body@)[i] as int / 16]
                    && pending.durable_hash@[2 * i + 1]
                    == "0123456789abcdef"@[crate::digest::sha256(body@)[i] as int % 16]
            &&& crate::reading::clock_seconds(
                pending.request.retain_until - sink.client.retention_days * 86_400,
            )
        },
        unserialized matches Err(err) && (err matches AuditError::WriteFailed { reason: told }
            && told@ == "serialize audit event: "@ + reason@),
{
    crate::digest::law_hash_spells_the_digest(body@);
}

/// A loaded sink locks every object that it emits now for at least a day past
/// a reading of the clock, and for the number of days that the configuration
/// names.
pub proof fn law_emitted_object_is_locked(
    fields: ConfigFields,
    version: &str,
    origin: &str,
    sink: S3WormAuditSink,
    event: &AuditEvent,
    body: Vec<u8>,
    pending: PendingEmit,
) -> (now: int)
    requires
        call_ensures(
            S3WormAuditSink::from_config_json,
            (Ok::<ConfigFields, String>(fields), version, origin),
            Ok::<S3WormAuditSink, String>(sink),
        ),
        call_ensures(
            S3WormAuditSink::begin_emit,
            (&sink, event, Ok::<Vec<u8>, String>(body)),
            Ok::<PendingEmit, AuditError>(pending),
        ),
    ensures
        crate::reading::clock_seconds(now),
        pending.request.retain_until >= now + 86_400,
        fields.retention_days matches Some(days) ==> pending.request.retain_until == now + days
            * 86_400,
        fields.retention_days is None ==> pending.request.retain_until == now + 365 * 86_400,
        fields.retention_mode is None ==> pending.request.object_lock_mode
            == RetentionMode::Governance,
        fields.retention_mode matches Some(mode) ==> pending.request.object_lock_mode == mode,
{
    pending.request.retain_until - sink.client.retention_days * 86_400
}

/// A receipt comes exactly for a completed write; it is signed by the sink
/// and bears the given time and hash. A deadline that passed is a timeout,
/// and a failure is reported as classified.
pub proof fn law_finish_emit_at(
    persisted_at: String,
    durable_hash: String,
    outcome: PutOutcome,
    r: Result<AuditReceipt, AuditError>,
    failure: PutFailure,
    classified: AuditError,
)
    requires
        call_ensures(crate::sink::finish_emit_at, (persisted_at, durable_hash, outcome), r),
        call_ensures(crate::s3_client::classify_put_error, (failure,), classified),
    ensures
        r is Ok <==> outcome is Stored,
        r matches Ok(receipt) ==> {
            &&& receipt.sink_id@ == "dev.mcpg.audit.s3-worm"@
            &&& receipt.persisted_at@ == persisted_at@
            &&& receipt.durable_hash@ == durable_hash@
        },
        outcome is DeadlineElapsed ==> r is Err && r->Err_0 is Timeout,
        outcome == PutOutcome::Failed(failure) ==> r is Err && r->Err_0@ == classified@,
{
}

/// A receipt comes exactly for a completed write; it is signed by the sink,
/// bears the given hash, and its time is the text of a time read from the
/// clock and no other text. A deadline that passed is a timeout, and a
/// failure is reported as classified.
pub proof fn law_finish_emit(
    durable_hash: String,
    outcome: PutOutcome,
    r: Result<AuditReceipt, AuditError>,
    failure: PutFailure,
    classified: AuditError,
)
    requires
        call_ensures(crate::sink::finish_emit, (durable_hash, outcome), r),
        call_ensures(crate::s3_client::classify_put_error, (failure,), classified),
    ensures
        r is Ok <==> outcome is Stored,
        r matches Ok(receipt) ==> {
            &&& receipt.sink_id@ == "dev.mcpg.audit.s3-worm"@
            &&& crate::reading::clock_text(receipt.persisted_at@)
            &&& receipt.durable_hash@ == durable_hash@
        },
        outcome is DeadlineElapsed ==> r is Err && r->Err_0 is Timeout,
        outcome == PutOutcome::Failed(failure) ==> r is Err && r->Err_0@ == classified@,
{
}

/// From the event to the receipt: the receipt for an emitted event spells the
/// SHA-256 of exactly the bytes that were stored, two lower-case hexadecimal
/// digits for each byte of the digest, and so does the label of the object.
pub proof fn law_receipt_spells_the_stored_bytes(
    sink: &S3WormAuditSink,
    event: &AuditEvent,
    body: Vec<u8>,
    pending: PendingEmit,
    outcome: PutOutcome,
    receipt: AuditReceipt,
)
    requires
        call_ensures(
            S3WormAuditSink::begin_emit,
            (sink, event, Ok::<Vec<u8>, String>(body)),
            Ok::<PendingEmit, AuditError>(pending),
        ),
        call_ensures(
            crate::sink::finish_emit,
            (pending.durable_hash, outcome),
            Ok::<AuditReceipt, AuditError>(receipt),
        ),
    ensures
        outcome is Stored,
        pending.request.body@ == body@,
        receipt.durable_hash@.len() == 64,
        crate::digest::sha256(body@).len() == 32,
        forall|i: int|
            #![trigger crate::digest::sha256(body@)[i]]
            0 <= i < 32 ==> receipt.durable_hash@[2 * i]
                == "0123456789abcdef"@[crate::digest::sha256(body@)[i] as int / 16]
                && receipt.durable_hash@[2 * i + 1]
                == "0123456789abcdef"@[crate::digest::sha256(body@)[i] as int % 16],
        pending.request.metadata@[3].1@ == receipt.durable_hash@,
{
    crate::digest::law_hash_spells_the_digest(body@);
}

} // verus!
