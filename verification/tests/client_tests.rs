use pjhoy::cookies::deduplicate_cookies;
use pjhoy::schedule::{construct_api_url, ConfigError};

#[test]
fn client_test_url_construction() {
    // Test case 1: Standard username format
    let username = "02-2891001-00";
    let customer_numbers = vec!["00".to_string(), "01".to_string(), "02".to_string()];

    let url = construct_api_url(username, &customer_numbers).unwrap();

    // Verify URL contains expected customer numbers
    assert!(url.contains("customerNumbers%5B%5D=02-2891001-00"));
    assert!(url.contains("customerNumbers%5B%5D=02-2891001-01"));
    assert!(url.contains("customerNumbers%5B%5D=02-2891001-02"));

    // Test case 2: Different username format
    let username2 = "02-2030045-99";
    let customer_numbers2 = vec!["99".to_string(), "98".to_string()];

    let url2 = construct_api_url(username2, &customer_numbers2).unwrap();

    assert!(url2.contains("customerNumbers%5B%5D=02-2030045-99"));
    assert!(url2.contains("customerNumbers%5B%5D=02-2030045-98"));
}

#[test]
fn client_test_cookie_deduplication() {
    let cookie_str = "JSESSIONID=test123; JSESSIONIDVERSION=test456; JSESSIONIDVERSION=test789";
    let deduped = deduplicate_cookies(cookie_str);
    assert_eq!(deduped, "JSESSIONID=test123; JSESSIONIDVERSION=test456");
}

#[test]
fn main_test_url_construction() {
    // Test case 1: Standard username format
    let username = "02-2891001-00";
    let customer_numbers = vec!["00".to_string(), "01".to_string(), "02".to_string()];

    let url = construct_api_url(username, &customer_numbers).unwrap();

    // Verify URL contains expected customer numbers
    assert!(url.contains("customerNumbers%5B%5D=02-2891001-00"));
    assert!(url.contains("customerNumbers%5B%5D=02-2891001-01"));
    assert!(url.contains("customerNumbers%5B%5D=02-2891001-02"));

    // Test case 2: Different username format
    let username2 = "02-2030045-99";
    let customer_numbers2 = vec!["99".to_string(), "98".to_string()];

    let url2 = construct_api_url(username2, &customer_numbers2).unwrap();

    assert!(url2.contains("customerNumbers%5B%5D=02-2030045-99"));
    assert!(url2.contains("customerNumbers%5B%5D=02-2030045-98"));
}

#[test]
fn main_test_cookie_deduplication() {
    let cookie_str = "JSESSIONID=test123; JSESSIONIDVERSION=test456; JSESSIONIDVERSION=test789";

    let deduped_cookie_str = deduplicate_cookies(cookie_str);

    // Verify that duplicates were removed
    assert_eq!(
        deduped_cookie_str,
        "JSESSIONID=test123; JSESSIONIDVERSION=test456"
    );

    // Verify that we have exactly 2 cookies (no duplicates)
    let deduped_cookies: Vec<&str> = deduped_cookie_str.split("; ").collect();
    assert_eq!(deduped_cookies.len(), 2);

    // Verify that JSESSIONIDVERSION appears only once
    let names: std::collections::HashSet<&str> = deduped_cookies
        .iter()
        .map(|c| c.split('=').next().unwrap_or(""))
        .collect();
    assert_eq!(names.len(), 2);
}

#[test]
fn url_construction_exact_query_order_preserved() {
    let username = "02-2891001-00";
    let customer_numbers = vec!["00".to_string(), "01".to_string()];
    let url = construct_api_url(username, &customer_numbers).unwrap();
    assert_eq!(
        url,
        "https://extranet.pjhoy.fi/pirkka/secure/get_services_by_customer_numbers.do?\
         customerNumbers%5B%5D=02-2891001-00&customerNumbers%5B%5D=02-2891001-01"
    );
}

#[test]
fn url_construction_empty_customer_numbers_is_refused() {
    let err = construct_api_url("02-2891001-00", &Vec::new()).unwrap_err();
    assert_eq!(err, ConfigError::NoCustomerNumbers);
}

#[test]
fn url_construction_username_without_separator_is_refused() {
    let err = construct_api_url("nodashes", &vec!["00".to_string()]).unwrap_err();
    assert_eq!(err, ConfigError::InvalidUsername);
}

#[test]
fn url_construction_empty_customer_numbers_wins_over_bad_username() {
    let err = construct_api_url("nodashes", &Vec::new()).unwrap_err();
    assert_eq!(err, ConfigError::NoCustomerNumbers);
}

#[test]
fn cookie_deduplication_keeps_order_and_trims() {
    assert_eq!(deduplicate_cookies("A=1; B=2; B=3"), "A=1; B=2");
    assert_eq!(deduplicate_cookies(""), "");
    assert_eq!(deduplicate_cookies("  a=1 ;; b=2  ;a=9"), "a=1; b=2");
    // A segment without `=` counts as a name of its own.
    assert_eq!(deduplicate_cookies("flag; flag; x=1"), "flag; x=1");
}

#[test]
fn cookie_segments_split_and_trim() {
    let segs = pjhoy::cookies::cookie_segments(" a=1 ; ; b=2 ");
    assert_eq!(segs, vec!["a=1".to_string(), "b=2".to_string()]);
    let none = pjhoy::cookies::cookie_segments("   ");
    assert!(none.is_empty());
}
