use link_scraper::request::{fixed_request, TARGET_URL, TIMEOUT_SECS};
use reqwest::header::{CONTENT_TYPE, REFERER, USER_AGENT};

#[test]
fn the_request_goes_to_the_fixed_address() {
    assert_eq!(TARGET_URL, "https://example.com/");
    assert_eq!(fixed_request().unwrap().url, "https://example.com/");
}

#[test]
fn the_request_is_given_up_after_thirty_seconds() {
    assert_eq!(TIMEOUT_SECS, 30);
    assert_eq!(fixed_request().unwrap().timeout_secs, 30);
}

#[test]
fn the_request_carries_the_three_headers() {
    let request = fixed_request().unwrap();
    assert_eq!(request.headers.len(), 3);
    assert_eq!(
        request.headers.get(USER_AGENT).unwrap(),
        "Mozilla/5.0 (Windows NT 10.0; Win64; x64; rv:105.0) Gecko/20100101 Firefox/105.0"
    );
    assert_eq!(request.headers.get(REFERER).unwrap(), "https://google.com/");
    assert_eq!(
        request.headers.get(CONTENT_TYPE).unwrap(),
        "application/x-www-form-urlencoded"
    );
}

#[test]
fn the_request_is_never_refused() {
    assert!(fixed_request().is_ok());
}
