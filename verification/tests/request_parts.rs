use async_php::http::client::client_setup;
use async_php::http::request::{
    form_body, form_encode, json_body, post_json_body, request_parts, response_json,
    uri_with_query, QueryError, TargetError,
};
use async_php::http::transport::request_target;

#[test]
fn transport_parses_method_then_uri() {
    let (m, u) = request_target("GET", "https://example.com/a?b=c").unwrap();
    assert_eq!(m.as_str(), "GET");
    assert_eq!(u.to_string(), "https://example.com/a?b=c");
    assert!(matches!(request_target("G ET", "https://example.com/").err(), Some(TargetError::InvalidMethod(_))));
    assert!(matches!(request_target("GET", "http://exa mple.com/").err(), Some(TargetError::InvalidUri(_))));
    assert!(matches!(request_target("G ET", "http://exa mple.com/").err(), Some(TargetError::InvalidMethod(_))));
}

#[test]
fn request_constructor_parses_uri_then_method() {
    assert!(request_parts("PATCH", "/relative/path").is_ok());
    assert!(matches!(request_parts("G ET", "http://exa mple.com/").err(), Some(TargetError::InvalidUri(_))));
    assert!(matches!(request_parts("G ET", "https://example.com/").err(), Some(TargetError::InvalidMethod(_))));
}

#[test]
fn json_bodies() {
    assert_eq!(
        json_body("{\"a\": 1}"),
        Ok(("application/json".to_string(), "{\"a\": 1}".to_string()))
    );
    assert!(json_body("{bad").unwrap_err().starts_with("Invalid JSON: "));
    assert_eq!(post_json_body("{ \"a\" : [1, 2,  3] }"), Ok("{\"a\":[1,2,3]}".to_string()));
    assert!(post_json_body("").unwrap_err().starts_with("Invalid JSON: "));
    assert_eq!(response_json(b" [true, null, \"x\"] "), Ok("[true,null,\"x\"]".to_string()));
    assert!(response_json(b"nope").unwrap_err().starts_with("Failed to parse JSON: "));
}

#[test]
fn form_encoding() {
    let pairs = vec![
        ("a b".to_string(), "x&y".to_string()),
        ("\u{e9}".to_string(), "*-._~".to_string()),
        (String::new(), String::new()),
    ];
    assert_eq!(form_encode(&pairs), "a+b=x%26y&%C3%A9=*-._%7E&=");
    assert_eq!(form_encode(&vec![]), "");
    let (ct, body) = form_body(&vec![("k".to_string(), "v".to_string())]);
    assert_eq!(ct, "application/x-www-form-urlencoded");
    assert_eq!(body, "k=v");
}

#[test]
fn query_parameters_are_appended() {
    let (s, _) = uri_with_query(
        "https://example.com/p?x=1#frag",
        &vec![("a".to_string(), "b c".to_string()), ("d".to_string(), "&".to_string())],
    )
    .unwrap();
    assert_eq!(s, "https://example.com/p?x=1&a=b+c&d=%26#frag");
    let (s, _) = uri_with_query("https://example.com", &vec![("q".to_string(), "1".to_string())]).unwrap();
    assert_eq!(s, "https://example.com/?q=1");
    assert!(matches!(
        uri_with_query("/relative", &vec![]).err(),
        Some(QueryError::InvalidUrl(_))
    ));
}

#[test]
fn client_identity_and_certificate() {
    let s = client_setup(None, None, None, None, Some("not a pem".to_string()), None, None, None, None)
        .unwrap();
    assert!(s.ca_certificate.is_some());
    assert!(s.identity.is_none());
    let e = client_setup(
        None,
        None,
        None,
        None,
        None,
        Some("CERT".to_string()),
        Some("KEY".to_string()),
        None,
        None,
    )
    .err()
    .unwrap();
    assert!(e.starts_with("Failed to create client identity: "));
    let e = client_setup(
        None,
        None,
        None,
        None,
        None,
        Some("CERT".to_string()),
        Some("KEY".to_string()),
        Some("9".to_string()),
        None,
    )
    .err()
    .unwrap();
    assert_eq!(e, "Invalid TLS version: 9");
}
