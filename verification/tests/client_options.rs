use async_php::http::client::{client_options, parse_tls_version, RedirectPolicy, TlsVersion};

#[test]
fn tls_versions() {
    assert_eq!(parse_tls_version("1.0"), Ok(TlsVersion::Tls10));
    assert_eq!(parse_tls_version("1.1"), Ok(TlsVersion::Tls11));
    assert_eq!(parse_tls_version("1.2"), Ok(TlsVersion::Tls12));
    assert_eq!(parse_tls_version("1.3"), Ok(TlsVersion::Tls13));
    assert_eq!(parse_tls_version("2.0"), Err("Invalid TLS version: 2.0".to_string()));
}

#[test]
fn defaults_when_nothing_given() {
    let o = client_options(None, None, None, None, None, None, None, None).unwrap();
    assert_eq!(o.pool_max_idle_per_host, None);
    assert_eq!(o.redirect, RedirectPolicy::Default);
    assert!(!o.cookie_store);
    assert!(!o.http1_only);
    assert_eq!(o.min_tls_version, None);
    assert!(!o.accept_invalid_certs);
    assert_eq!(o.identity_pem, None);
}

#[test]
fn options_given() {
    let o = client_options(
        Some(4),
        Some(0),
        Some(true),
        Some(false),
        Some("CERT".to_string()),
        Some("KEY".to_string()),
        Some("1.2".to_string()),
        Some(true),
    )
    .unwrap();
    assert_eq!(o.pool_max_idle_per_host, Some(4));
    assert_eq!(o.redirect, RedirectPolicy::NoRedirects);
    assert!(o.cookie_store);
    assert!(o.http1_only);
    assert_eq!(o.min_tls_version, Some(TlsVersion::Tls12));
    assert!(o.accept_invalid_certs);
    assert_eq!(o.identity_pem, Some("CERTKEY".to_string()));
}

#[test]
fn redirect_limit_and_partial_identity() {
    let o = client_options(None, Some(5), Some(false), Some(true), Some("C".to_string()), None, None, Some(false))
        .unwrap();
    assert_eq!(o.redirect, RedirectPolicy::Limited(5));
    assert!(!o.cookie_store);
    assert!(!o.http1_only);
    assert_eq!(o.identity_pem, None);
}

#[test]
fn invalid_tls_version_is_refused() {
    let r = client_options(None, None, None, None, None, None, Some("1.4".to_string()), None);
    assert_eq!(r.err(), Some("Invalid TLS version: 1.4".to_string()));
}
