use cargo_stripe::sdk::request_strategy::{calculate_backoff, Outcome, RequestStrategy, StatusCode};

#[test]
fn test_once_strategy() {
    let strategy = RequestStrategy::Once;
    assert_eq!(strategy.get_key(), None);
    assert_eq!(strategy.test(None, None, 0), Outcome::Continue(None));
    assert_eq!(strategy.test(None, None, 1), Outcome::Stop);
}

#[test]
fn test_idempotent_strategy() {
    let strategy = RequestStrategy::Idempotent("key".to_string());
    assert_eq!(strategy.get_key(), Some("key".to_string()));
    assert_eq!(strategy.test(None, None, 0), Outcome::Continue(None));
    assert_eq!(strategy.test(None, None, 1), Outcome::Stop);
}

#[test]
fn test_retry_strategy() {
    let strategy = RequestStrategy::Retry(3);
    assert_eq!(strategy.test(None, None, 0), Outcome::Continue(None));
    assert_eq!(strategy.test(None, None, 1), Outcome::Continue(None));
    assert_eq!(strategy.test(None, None, 2), Outcome::Continue(None));
    assert_eq!(strategy.test(None, None, 3), Outcome::Stop);
}

#[test]
fn test_backoff_strategy() {
    let strategy = RequestStrategy::ExponentialBackoff(3);
    assert_eq!(strategy.test(None, None, 0), Outcome::Continue(Some(1)));
    assert_eq!(strategy.test(None, None, 1), Outcome::Continue(Some(2)));
    assert_eq!(strategy.test(None, None, 2), Outcome::Continue(Some(4)));
    assert_eq!(strategy.test(None, None, 3), Outcome::Stop);
}

#[test]
fn test_retry_header() {
    let strategy = RequestStrategy::Retry(3);
    assert_eq!(strategy.test(None, Some(false), 0), Outcome::Stop);
}

#[test]
fn client_error_stops_a_retry_but_not_the_first_attempt_of_once() {
    let not_found = Some(StatusCode(404));
    assert_eq!(RequestStrategy::Retry(3).test(not_found, None, 1), Outcome::Stop);
    assert_eq!(RequestStrategy::ExponentialBackoff(3).test(not_found, None, 0), Outcome::Stop);
    assert_eq!(RequestStrategy::Once.test(not_found, None, 0), Outcome::Continue(None));
    assert_eq!(RequestStrategy::Once.test(not_found, Some(true), 0), Outcome::Continue(None));
    assert_eq!(RequestStrategy::Once.test(not_found, Some(false), 0), Outcome::Stop);
}

#[test]
fn server_error_is_retried() {
    let unavailable = Some(StatusCode(503));
    assert_eq!(RequestStrategy::Retry(2).test(unavailable, None, 1), Outcome::Continue(None));
    assert_eq!(
        RequestStrategy::ExponentialBackoff(5).test(unavailable, Some(true), 4),
        Outcome::Continue(Some(16))
    );
    assert_eq!(RequestStrategy::Retry(2).test(unavailable, None, 2), Outcome::Stop);
}

#[test]
fn client_error_range_is_400_to_499() {
    assert!(!StatusCode(399).is_client_error());
    assert!(StatusCode(400).is_client_error());
    assert!(StatusCode(499).is_client_error());
    assert!(!StatusCode(500).is_client_error());
}

#[test]
fn backoff_doubles_and_saturates() {
    assert_eq!(calculate_backoff(0), 1);
    assert_eq!(calculate_backoff(10), 1024);
    assert_eq!(calculate_backoff(63), 1u64 << 63);
    assert_eq!(calculate_backoff(64), u64::MAX);
    assert_eq!(calculate_backoff(u32::MAX), u64::MAX);
}

#[test]
fn retrying_strategies_get_a_fresh_key_each_time() {
    let strategy = RequestStrategy::Retry(2);
    let a = strategy.get_key().unwrap();
    let b = strategy.get_key().unwrap();
    assert_eq!(a.len(), 36);
    assert_eq!(b.len(), 36);
    assert_ne!(a, b);
    assert_eq!(a.matches('-').count(), 4);
    let c = RequestStrategy::ExponentialBackoff(1).get_key().unwrap();
    assert_eq!(c.len(), 36);
}

#[test]
fn idempotent_with_uuid_holds_a_key() {
    match RequestStrategy::idempotent_with_uuid() {
        RequestStrategy::Idempotent(key) => assert_eq!(key.len(), 36),
        _ => panic!("not idempotent"),
    }
}
