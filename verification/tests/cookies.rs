use async_php::http::cookies::{cookie_header, CookieJar};

#[test]
fn test_cookie_jar_basic() {
    let mut jar = CookieJar::new();

    // Store a cookie
    jar.store_cookies_from_response(
        "https://example.com/path",
        vec!["session=abc123; Path=/; HttpOnly"],
    );

    // Retrieve cookies for the same URL
    let cookies = jar.get_cookies_for_url("https://example.com/path");
    assert!(cookies.is_some());
    assert!(cookies.unwrap().contains("session=abc123"));
}

#[test]
fn test_cookie_jar_domain_matching() {
    let mut jar = CookieJar::new();

    // Store cookie for subdomain
    jar.store_cookies_from_response(
        "https://api.example.com/",
        vec!["token=xyz; Domain=example.com"],
    );

    // Should be available for main domain
    let cookies = jar.get_cookies_for_url("https://example.com/");
    assert!(cookies.is_some());
}

#[test]
fn test_cookie_jar_clear() {
    let mut jar = CookieJar::new();

    jar.store_cookies_from_response("https://example.com/", vec!["session=abc"]);

    jar.clear();

    let cookies = jar.get_cookies_for_url("https://example.com/");
    assert!(cookies.is_none());
}

#[test]
fn cookie_header_joins_pairs_in_order() {
    let pairs = vec![
        ("a".to_string(), "1".to_string()),
        ("b".to_string(), "2".to_string()),
        ("c".to_string(), "".to_string()),
    ];
    assert_eq!(cookie_header(&pairs), Some("a=1; b=2; c=".to_string()));
}

#[test]
fn cookie_header_of_single_pair() {
    let pairs = vec![("session".to_string(), "abc123".to_string())];
    assert_eq!(cookie_header(&pairs), Some("session=abc123".to_string()));
}

#[test]
fn cookie_header_of_no_pair_is_none() {
    assert_eq!(cookie_header(&Vec::new()), None);
}

#[test]
fn new_jar_sends_no_cookie() {
    let jar = CookieJar::new();
    assert_eq!(jar.get_cookies_for_url("https://example.com/"), None);
    assert_eq!(jar.debug_cookies(), "");
}

#[test]
fn invalid_url_gives_no_cookie_and_stores_nothing() {
    let mut jar = CookieJar::new();
    jar.store_cookies_from_response("not a url", vec!["a=1"]);
    assert_eq!(jar.debug_cookies(), "");
    jar.store_cookies_from_response("https://example.com/", vec!["a=1"]);
    assert_eq!(jar.get_cookies_for_url("not a url"), None);
    assert_eq!(jar.get_cookies_for_url("https://example.com/"), Some("a=1".to_string()));
}

#[test]
fn unparsable_header_is_skipped() {
    let mut jar = CookieJar::new();
    jar.store_cookies_from_response("https://example.com/", vec!["=novalue", "b=2"]);
    assert_eq!(jar.get_cookies_for_url("https://example.com/"), Some("b=2".to_string()));
}

#[test]
fn debug_cookies_has_one_line_per_cookie() {
    let mut jar = CookieJar::new();
    jar.store_cookies_from_response("https://example.com/", vec!["a=1", "b=2"]);
    let text = jar.debug_cookies();
    assert_eq!(text.lines().count(), 2);
    assert!(text.contains("a=1 (domain="));
    assert!(text.contains("b=2 (domain="));
}

#[test]
fn cookie_for_other_domain_is_not_sent() {
    let mut jar = CookieJar::new();
    jar.store_cookies_from_response("https://example.com/", vec!["a=1"]);
    assert_eq!(jar.get_cookies_for_url("https://other.org/"), None);
}

#[test]
fn debug_cookies_describes_each_cookie() {
    let mut jar = CookieJar::new();
    jar.store_cookies_from_response(
        "https://example.com/",
        vec!["a=1", "c=3; Domain=example.com; Path=/x"],
    );
    let text = jar.debug_cookies();
    let mut lines: Vec<&str> = text.lines().collect();
    lines.sort();
    assert_eq!(
        lines,
        vec![
            "a=1 (domain=None, path=None)",
            "c=3 (domain=Some(\"example.com\"), path=Some(\"/x\"))",
        ]
    );
}

#[test]
fn later_header_of_the_same_name_replaces_the_cookie() {
    let mut jar = CookieJar::new();
    jar.store_cookies_from_response("https://example.com/", vec!["a=1", "b=2", "a=3"]);
    let header = jar.get_cookies_for_url("https://example.com/").unwrap();
    let mut entries: Vec<&str> = header.split("; ").collect();
    entries.sort();
    assert_eq!(entries, vec!["a=3", "b=2"]);
}

#[test]
fn cookies_of_other_names_stay_when_a_new_one_is_stored() {
    let mut jar = CookieJar::new();
    jar.store_cookies_from_response("https://example.com/", vec!["a=1"]);
    jar.store_cookies_from_response("https://example.com/", vec!["b=2", "bad"]);
    let header = jar.get_cookies_for_url("https://example.com/").unwrap();
    assert!(header.contains("a=1"));
    assert!(header.contains("b=2"));
}
