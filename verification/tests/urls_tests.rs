use cargo_stripe::sdk::request_strategy::{Attempts, Outcome, RequestStrategy, StatusCode};
use cargo_stripe::sdk::urls::{
    action_url, collection_url, list_charges_url, list_customers_url, list_prices_url,
    list_products_url, list_refunds_url, object_url, query_url, search_customers_url,
};

const BASE: &str = "https://api.stripe.com/v1";

#[test]
fn plain_urls() {
    assert_eq!(collection_url(BASE, "charges"), "https://api.stripe.com/v1/charges");
    assert_eq!(object_url(BASE, "charges", "ch_1"), "https://api.stripe.com/v1/charges/ch_1");
    assert_eq!(
        action_url(BASE, "charges", "ch_1", "capture"),
        "https://api.stripe.com/v1/charges/ch_1/capture"
    );
}

#[test]
fn query_is_joined_by_ampersands() {
    assert_eq!(query_url("u".to_string(), &Vec::new()), "u");
    assert_eq!(query_url("u".to_string(), &vec!["a=1".to_string()]), "u?a=1");
    assert_eq!(
        query_url("u".to_string(), &vec!["a=1".to_string(), "b=2".to_string(), "c=".to_string()]),
        "u?a=1&b=2&c="
    );
}

#[test]
fn customers_list_url() {
    assert_eq!(list_customers_url(BASE, None, None, None, None), "https://api.stripe.com/v1/customers");
    assert_eq!(
        list_customers_url(BASE, Some(10), Some("a@b.c"), None, Some("cus_9")),
        "https://api.stripe.com/v1/customers?limit=10&email=a@b.c&ending_before=cus_9"
    );
    assert_eq!(
        list_customers_url(BASE, Some(u32::MAX), Some("e"), Some("s"), Some("b")),
        "https://api.stripe.com/v1/customers?limit=4294967295&email=e&starting_after=s&ending_before=b"
    );
    assert_eq!(
        list_customers_url(BASE, None, None, Some("cus_1"), None),
        "https://api.stripe.com/v1/customers?starting_after=cus_1"
    );
}

#[test]
fn customers_search_url() {
    assert_eq!(
        search_customers_url(BASE, "name:'x'", None, None),
        "https://api.stripe.com/v1/customers/search?query=name:'x'"
    );
    assert_eq!(
        search_customers_url(BASE, "q", Some(5), Some("p2")),
        "https://api.stripe.com/v1/customers/search?query=q&limit=5&page=p2"
    );
}

#[test]
fn other_list_urls() {
    assert_eq!(list_charges_url(BASE, None, None), "https://api.stripe.com/v1/charges");
    assert_eq!(
        list_charges_url(BASE, Some(0), Some("cus_1")),
        "https://api.stripe.com/v1/charges?limit=0&customer=cus_1"
    );
    assert_eq!(
        list_prices_url(BASE, Some(3), Some(true), Some("prod_1")),
        "https://api.stripe.com/v1/prices?limit=3&active=true&product=prod_1"
    );
    assert_eq!(
        list_prices_url(BASE, None, Some(false), None),
        "https://api.stripe.com/v1/prices?active=false"
    );
    assert_eq!(
        list_products_url(BASE, None, Some(true)),
        "https://api.stripe.com/v1/products?active=true"
    );
    assert_eq!(
        list_products_url(BASE, Some(3), Some(false)),
        "https://api.stripe.com/v1/products?limit=3&active=false"
    );
    assert_eq!(list_products_url(BASE, Some(7), None), "https://api.stripe.com/v1/products?limit=7");
    assert_eq!(
        list_refunds_url(BASE, Some(100), Some("ch_1")),
        "https://api.stripe.com/v1/refunds?limit=100&charge=ch_1"
    );
    assert_eq!(list_refunds_url(BASE, None, Some("ch_1")), "https://api.stripe.com/v1/refunds?charge=ch_1");
}

#[test]
fn success_range_is_200_to_299() {
    assert!(!StatusCode(199).is_success());
    assert!(StatusCode(200).is_success());
    assert!(StatusCode(299).is_success());
    assert!(!StatusCode(300).is_success());
}

#[test]
fn attempts_of_a_retried_request() {
    let strategy = RequestStrategy::ExponentialBackoff(3);
    let mut attempts = Attempts::new();
    assert_eq!(attempts.next(&strategy), Outcome::Continue(Some(1)));
    attempts.record_no_response();
    assert_eq!(attempts.tries, 1);
    assert_eq!(attempts.last_status, None);
    assert_eq!(attempts.next(&strategy), Outcome::Continue(Some(2)));
    assert!(!attempts.record_response(StatusCode(503), Some(true)));
    assert_eq!(attempts.tries, 2);
    assert_eq!(attempts.last_status, Some(StatusCode(503)));
    assert_eq!(attempts.last_retry_header, Some(true));
    assert_eq!(attempts.next(&strategy), Outcome::Continue(Some(4)));
    assert!(attempts.record_response(StatusCode(200), None));
    assert_eq!(attempts.tries, 2);
    assert_eq!(attempts.last_status, Some(StatusCode(503)));
}

#[test]
fn attempts_stop_on_client_error_and_on_the_servers_word() {
    let strategy = RequestStrategy::Retry(5);
    let mut attempts = Attempts::new();
    assert_eq!(attempts.next(&strategy), Outcome::Continue(None));
    assert!(!attempts.record_response(StatusCode(404), None));
    assert_eq!(attempts.next(&strategy), Outcome::Stop);

    let mut other = Attempts::new();
    assert!(!other.record_response(StatusCode(500), Some(false)));
    assert_eq!(other.next(&strategy), Outcome::Stop);

    let mut once = Attempts::new();
    assert_eq!(once.next(&RequestStrategy::Once), Outcome::Continue(None));
    once.record_no_response();
    assert_eq!(once.next(&RequestStrategy::Once), Outcome::Stop);
}
