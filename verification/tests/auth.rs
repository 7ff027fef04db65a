use base64::Engine;
use async_php::http::auth::{basic_auth, bearer_auth};

#[test]
fn test_basic_auth() {
    let auth = basic_auth("user", "pass");
    assert_eq!(auth, "Basic dXNlcjpwYXNz");
}

#[test]
fn test_basic_auth_with_special_chars() {
    let auth = basic_auth("admin", "p@ssw0rd!");
    // Verify it starts with "Basic " and is valid base64
    assert!(auth.starts_with("Basic "));
}

#[test]
fn test_bearer_auth() {
    let auth = bearer_auth("my-token-123");
    assert_eq!(auth, "Bearer my-token-123");
}

#[test]
fn test_bearer_auth_empty_token() {
    let auth = bearer_auth("");
    assert_eq!(auth, "Bearer ");
}

#[test]
fn basic_auth_pads_and_encodes_utf8() {
    assert_eq!(basic_auth("a", "b"), "Basic YTpi");
    assert_eq!(basic_auth("", ""), "Basic Og==");
    assert_eq!(basic_auth("é", ""), "Basic w6k6");
}

#[test]
fn basic_auth_decodes_back() {
    for (u, p) in [("user", "pass"), ("a:b", "\u{e9}t\u{e9}"), ("", "")] {
        let r = basic_auth(u, p);
        assert!(r.starts_with("Basic "));
        let decoded = base64::engine::general_purpose::STANDARD.decode(&r[6..]).unwrap();
        assert_eq!(decoded, format!("{}:{}", u, p).into_bytes());
        assert!(r[6..].chars().all(|c| c.is_ascii_alphanumeric() || c == '+' || c == '/' || c == '='));
    }
}
