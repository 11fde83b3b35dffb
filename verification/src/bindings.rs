//! Declarations of the std and outside-crate items that the verified modules
//! call, each with the contract that Verus takes on trust.
use vstd::prelude::*;

use crate::kafka::{is_hyphenated_uuid, KafkaLogLevel};
use rdkafka::config::RDKafkaLogLevel;

verus! {

// ---------------------------------------------------------------------------
// Types that are carried through the verified code without being looked into.
// ---------------------------------------------------------------------------

/// `std::time::Instant`: a reading of the monotonic clock.
#[verifier::external_type_specification]
#[verifier::external_body]
pub struct ExInstant(std::time::Instant);

/// `std::time::SystemTime`: a reading of the wall clock.
#[verifier::external_type_specification]
#[verifier::external_body]
pub struct ExSystemTime(std::time::SystemTime);

/// `reqwest::StatusCode` (the `http` crate's `StatusCode`): an HTTP status.
#[verifier::external_type_specification]
#[verifier::external_body]
pub struct ExStatusCode(reqwest::StatusCode);

/// `reqwest::Error`: why a request failed.
#[verifier::external_type_specification]
#[verifier::external_body]
pub struct ExRequestError(reqwest::Error);

/// `rdkafka::ClientConfig`: the settings a Kafka client is created from.
#[verifier::external_type_specification]
#[verifier::external_body]
pub struct ExClientConfig(rdkafka::ClientConfig);

// ---------------------------------------------------------------------------
// URL parsing (the `url` crate, re-exported by reqwest).
// ---------------------------------------------------------------------------

/// What `reqwest::Url::parse` makes of `input`: `None` where it refuses the
/// input, else the serialization (`Url::as_str`) of the parsed URL.
pub uninterp spec fn url_serialization(input: Seq<char>) -> Option<Seq<char>>;

/// Calls `reqwest::Url::parse` (that is `url::Url::parse`, the WHATWG URL
/// parser) on `input` and hands back `Url::as_str` of the result as a
/// `String`. The contract claims only that the outcome is a function of the
/// input text (named by `url_serialization`); what the parser accepts and how
/// it normalizes is not stated.
#[verifier::external_body]
pub fn parse_url(input: &str) -> (r: Option<String>)
    ensures
        match r {
            Some(s) => url_serialization(input@) == Some(s@),
            None => url_serialization(input@) is None,
        },
{
    match reqwest::Url::parse(input) {
        Ok(url) => Some(url.as_str().to_string()),
        Err(_) => None,
    }
}

// ---------------------------------------------------------------------------
// Equality of carried values. Each of these types derives `PartialEq` over
// all of its fields, so `==` holds exactly of identical values.
// ---------------------------------------------------------------------------

/// `<std::time::Instant as PartialEq>::eq`: true exactly of equal instants.
#[verifier::external_body]
pub fn instant_eq(a: &std::time::Instant, b: &std::time::Instant) -> (r: bool)
    ensures
        r == (*a == *b),
{
    a == b
}

/// `<std::time::SystemTime as PartialEq>::eq`: true exactly of equal times.
#[verifier::external_body]
pub fn system_time_eq(a: &std::time::SystemTime, b: &std::time::SystemTime) -> (r: bool)
    ensures
        r == (*a == *b),
{
    a == b
}

/// `<reqwest::StatusCode as PartialEq>::eq`: true exactly of equal codes.
#[verifier::external_body]
pub fn status_code_eq(a: &reqwest::StatusCode, b: &reqwest::StatusCode) -> (r: bool)
    ensures
        r == (*a == *b),
{
    a == b
}

// ---------------------------------------------------------------------------
// Readings of the clock and of the random number generator.
// ---------------------------------------------------------------------------

/// `std::time::SystemTime::now`: the current wall-clock time. Nothing is
/// claimed of the value.
#[verifier::external_body]
pub fn system_time_now() -> std::time::SystemTime {
    std::time::SystemTime::now()
}

/// `uuid::Uuid::new_v4`, rendered with `to_string`: a fresh random
/// identifier. The claim is only of its form, which `Display` for `Uuid`
/// writes as the 36-character lowercase hyphenated encoding; which UUID it
/// is (random) is not stated.
#[verifier::external_body]
pub fn random_uuid_string() -> (r: String)
    ensures
        is_hyphenated_uuid(r@),
{
    uuid::Uuid::new_v4().to_string()
}

// ---------------------------------------------------------------------------
// Kafka client settings (rdkafka). A `ClientConfig` holds a map from
// parameter names to values and a log level.
// ---------------------------------------------------------------------------

/// The parameters held by an `rdkafka::ClientConfig` (its private `conf_map`).
pub uninterp spec fn client_config_entries(config: rdkafka::ClientConfig) -> Map<Seq<char>, Seq<char>>;

/// The log level held by an `rdkafka::ClientConfig` (its `log_level` field).
pub uninterp spec fn client_config_log_level(config: rdkafka::ClientConfig) -> KafkaLogLevel;

/// `rdkafka::ClientConfig::new`: a configuration that holds no parameter.
/// Its log level is derived from the `log` crate's global level, which is
/// not stated.
#[verifier::external_body]
pub fn client_config_new() -> (r: rdkafka::ClientConfig)
    ensures
        client_config_entries(r) =~= Map::empty(),
{
    rdkafka::ClientConfig::new()
}

/// `rdkafka::ClientConfig::set`: inserts `key => value` into the parameter
/// map (replacing an earlier value of `key`) and leaves the log level alone.
#[verifier::external_body]
pub fn client_config_set(config: &mut rdkafka::ClientConfig, key: &str, value: &str)
    ensures
        client_config_entries(*final(config)) == client_config_entries(*old(config)).insert(
            key@,
            value@,
        ),
        client_config_log_level(*final(config)) == client_config_log_level(*old(config)),
{
    config.set(key, value);
}

/// `rdkafka::ClientConfig::set_log_level`: stores the log level (each of the
/// library's levels is the rdkafka level of the same name) and leaves the
/// parameter map alone.
#[verifier::external_body]
pub fn client_config_set_log_level(config: &mut rdkafka::ClientConfig, level: KafkaLogLevel)
    ensures
        client_config_entries(*final(config)) == client_config_entries(*old(config)),
        client_config_log_level(*final(config)) == level,
{
    config.set_log_level(
        match level {
            KafkaLogLevel::Emerg => RDKafkaLogLevel::Emerg,
            KafkaLogLevel::Alert => RDKafkaLogLevel::Alert,
            KafkaLogLevel::Critical => RDKafkaLogLevel::Critical,
            KafkaLogLevel::Error => RDKafkaLogLevel::Error,
            KafkaLogLevel::Warning => RDKafkaLogLevel::Warning,
            KafkaLogLevel::Notice => RDKafkaLogLevel::Notice,
            KafkaLogLevel::Info => RDKafkaLogLevel::Info,
            KafkaLogLevel::Debug => RDKafkaLogLevel::Debug,
        },
    );
}

} // verus!
