use async_php::http::retry::RetryConfig;

#[test]
fn test_should_retry_status() {
    let config = RetryConfig::new();

    assert!(config.should_retry_status(429)); // Too Many Requests
    assert!(config.should_retry_status(500)); // Internal Server Error
    assert!(config.should_retry_status(502)); // Bad Gateway
    assert!(config.should_retry_status(503)); // Service Unavailable
    assert!(config.should_retry_status(504)); // Gateway Timeout

    assert!(!config.should_retry_status(200)); // OK
    assert!(!config.should_retry_status(404)); // Not Found
    assert!(!config.should_retry_status(400)); // Bad Request
}

#[test]
fn test_retry_config_default() {
    let config = RetryConfig::default();
    assert_eq!(config.max_retries, 3);
    assert!(config.retry_on_timeout);
    assert_eq!(config.retry_status_codes, vec![429, 500, 502, 503, 504]);
}

#[test]
fn custom_status_codes() {
    let config = RetryConfig { max_retries: 1, retry_on_timeout: false, retry_status_codes: vec![418] };
    assert!(config.should_retry_status(418));
    assert!(!config.should_retry_status(500));
    let none = RetryConfig { max_retries: 0, retry_on_timeout: false, retry_status_codes: vec![] };
    assert!(!none.should_retry_status(503));
}
