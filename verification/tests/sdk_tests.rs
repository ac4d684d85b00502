use cargo_stripe::sdk::config::{Config, ConfigError};
use cargo_stripe::sdk::error::{Error, ErrorType, TransportFailure};
use cargo_stripe::sdk::params::{
    ApiVersion, DelayDays, DelayDaysOther, OffSessionOther, PaymentIntentOffSession, Scheduled,
    ScheduledOther, UpTo, UpToOther,
};
use cargo_stripe::sdk::request_strategy::StatusCode;
use cargo_stripe::sdk::types::{Id, List, Timestamp};

#[test]
fn id_holds_its_text() {
    let id = Id::new("cus_123".to_string());
    assert_eq!(id.as_str(), "cus_123");
    assert_eq!(id, Id("cus_123".to_string()));
}

#[test]
fn new_list_is_empty() {
    let mut list: List<u8> = List::new();
    assert!(list.is_empty());
    assert_eq!(list.len(), 0);
    assert_eq!(list.url, "");
    assert!(!list.has_more);
    assert_eq!(list.total_count, None);
    list.data.push(3);
    list.data.push(4);
    assert!(!list.is_empty());
    assert_eq!(list.len(), 2);
    let other: List<u8> = List::default();
    assert!(other.is_empty());
}

#[test]
fn timestamp_holds_its_seconds() {
    assert_eq!(Timestamp::new(1_700_000_000).as_i64(), 1_700_000_000);
    assert_eq!(Timestamp::new(-5).as_i64(), -5);
    assert!(Timestamp::new(1) < Timestamp::new(2));
}

#[test]
fn parameter_constructors() {
    assert_eq!(ApiVersion::V2025_03_31.as_str(), "2025-03-31.basil");
    assert_eq!(DelayDays::days(3), DelayDays::Days(3));
    assert_eq!(DelayDays::minimum(), DelayDays::Other(DelayDaysOther::Minimum));
    assert_eq!(Scheduled::at(Timestamp::new(9)), Scheduled::Timestamp(Timestamp(9)));
    assert_eq!(Scheduled::now(), Scheduled::Other(ScheduledOther::Now));
    assert_eq!(UpTo::max(10), UpTo::Max(10));
    assert_eq!(UpTo::now(), UpTo::Other(UpToOther::Inf));
    assert_eq!(PaymentIntentOffSession::with_exists(true), PaymentIntentOffSession::Exists(true));
    assert_eq!(
        PaymentIntentOffSession::frequency(OffSessionOther::OneOff),
        PaymentIntentOffSession::Other(OffSessionOther::OneOff)
    );
    assert_eq!(
        PaymentIntentOffSession::frequency(OffSessionOther::Recurring),
        PaymentIntentOffSession::Other(OffSessionOther::Recurring)
    );
}

#[test]
fn default_config() {
    let config = Config::default();
    assert_eq!(config.api_key, "");
    assert_eq!(config.api_base, "https://api.stripe.com/v1");
    assert_eq!(config.api_version, "2023-10-16");
    assert_eq!(config.timeout, 30);
    assert_eq!(config.validate(), Err(ConfigError::MissingApiKey));
    let with_key = Config { api_key: "sk_test_12345".to_string(), ..Config::default() };
    assert_eq!(with_key.validate(), Ok(()));
    assert_eq!(with_key.authorization(), "Bearer sk_test_12345");
}

fn failure(t: bool, c: bool, s: bool, status: Option<u16>) -> TransportFailure {
    TransportFailure {
        is_timeout: t,
        is_connect: c,
        is_status: s,
        status: status.map(StatusCode),
    }
}

#[test]
fn transport_failures_are_sorted_out() {
    let m = || "boom".to_string();
    assert!(matches!(Error::from_transport(failure(true, true, true, Some(401)), m()), Error::Timeout(t) if t == "boom"));
    assert!(matches!(Error::from_transport(failure(false, true, true, Some(401)), m()), Error::Connection(t) if t == "boom"));
    assert!(matches!(Error::from_transport(failure(false, false, true, Some(401)), m()), Error::Authentication(t) if t == "boom"));
    assert!(matches!(Error::from_transport(failure(false, false, true, Some(429)), m()), Error::RateLimit(t) if t == "boom"));
    assert!(matches!(Error::from_transport(failure(false, false, false, Some(429)), m()), Error::Unexpected(t) if t == "boom"));
    match Error::from_transport(failure(false, false, true, Some(500)), m()) {
        Error::Api(api) => {
            assert_eq!(api.message(), "boom");
            assert_eq!(api.error.param, None);
            assert_eq!(api.error.code, None);
            assert_eq!(api.error.decline_code, None);
            assert_eq!(api.error.doc_url, None);
            assert_eq!(api.error.type_, ErrorType::Unknown);
        }
        _ => panic!("not an API error"),
    }
    assert!(matches!(Error::from_transport(failure(false, false, true, None), m()), Error::Api(_)));
}

#[test]
fn conversions_keep_the_value() {
    assert_eq!(Id::from("ch_1".to_string()), Id("ch_1".to_string()));
    assert_eq!(Timestamp::from(42), Timestamp(42));
    let id: Id = "re_1".to_string().into();
    assert_eq!(id.as_str(), "re_1");
}

#[test]
fn errors_say_their_kind() {
    let m = || "boom".to_string();
    assert_eq!(Error::Authentication(m()).message(), "Authentication failed: boom");
    assert_eq!(Error::RateLimit(m()).message(), "Rate limit exceeded: boom");
    assert_eq!(Error::InvalidRequest(m()).message(), "Invalid request: boom");
    assert_eq!(Error::Connection(m()).message(), "Connection error: boom");
    assert_eq!(Error::Timeout(m()).message(), "Request timed out: boom");
    assert_eq!(Error::Configuration(m()).message(), "Configuration error: boom");
    assert_eq!(Error::Serialization(m()).message(), "Serialization error: boom");
    assert_eq!(Error::Unexpected(m()).message(), "Unexpected error: boom");
    let api = Error::from_transport(failure(false, false, true, Some(500)), m());
    assert_eq!(api.message(), "Stripe API error: boom");
}
