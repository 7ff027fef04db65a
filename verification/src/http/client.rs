//! The options an HTTP client is built with, decided from what PHP passed
//! to its constructor. The client itself is built by the glue; timeouts,
//! which PHP gives in floating-point seconds, are applied there too.

use vstd::prelude::*;
use crate::text::{chars_to_string, push_all, str_to_chars};

verus! {

/// A minimum TLS protocol version.
#[derive(Debug, Clone, Copy, PartialEq, Eq)]
pub enum TlsVersion {
    Tls10,
    Tls11,
    Tls12,
    Tls13,
}

/// How redirects are followed.
#[derive(Debug, Clone, Copy, PartialEq, Eq)]
pub enum RedirectPolicy {
    /// The client's default policy.
    Default,
    /// Redirects are not followed.
    NoRedirects,
    /// At most this many redirects are followed.
    Limited(usize),
}

/// The TLS version a name stands for: "1.0" to "1.3".
pub open spec fn tls_version_spec(name: Seq<char>) -> Option<TlsVersion> {
    if name == "1.0"@ {
        Some(TlsVersion::Tls10)
    } else if name == "1.1"@ {
        Some(TlsVersion::Tls11)
    } else if name == "1.2"@ {
        Some(TlsVersion::Tls12)
    } else if name == "1.3"@ {
        Some(TlsVersion::Tls13)
    } else {
        None
    }
}

/// The message for a TLS version name that names none.
pub open spec fn invalid_tls_message(name: Seq<char>) -> Seq<char> {
    "Invalid TLS version: "@ + name
}

/// The TLS version a name stands for, or the message refusing it.
pub fn parse_tls_version(name: &str) -> (r: Result<TlsVersion, String>)
    ensures
        match tls_version_spec(name@) {
            Some(v) => r == Ok::<TlsVersion, String>(v),
            None => r matches Err(m) && m@ == invalid_tls_message(name@),
        },
{
    let v = str_to_chars(name);
    if crate::text::chars_eq(&v, &str_to_chars("1.0")) {
        Ok(TlsVersion::Tls10)
    } else if crate::text::chars_eq(&v, &str_to_chars("1.1")) {
        Ok(TlsVersion::Tls11)
    } else if crate::text::chars_eq(&v, &str_to_chars("1.2")) {
        Ok(TlsVersion::Tls12)
    } else if crate::text::chars_eq(&v, &str_to_chars("1.3")) {
        Ok(TlsVersion::Tls13)
    } else {
        let mut out = str_to_chars("Invalid TLS version: ");
        push_all(&mut out, &v);
        Err(chars_to_string(&out))
    }
}

/// The redirect policy for a requested maximum: none given keeps the
/// default, zero follows none, any other number is the limit (taken as an
/// unsigned count).
pub open spec fn redirect_policy_spec(max_redirects: Option<i64>) -> RedirectPolicy {
    match max_redirects {
        None => RedirectPolicy::Default,
        Some(m) => if m == 0 {
            RedirectPolicy::NoRedirects
        } else {
            RedirectPolicy::Limited(m as usize)
        },
    }
}

/// The options of an HTTP client.
pub struct ClientOptions {
    pub pool_max_idle_per_host: Option<usize>,
    pub redirect: RedirectPolicy,
    pub cookie_store: bool,
    pub http1_only: bool,
    pub min_tls_version: Option<TlsVersion>,
    pub accept_invalid_certs: bool,
    /// The client certificate followed by its key, when both are given.
    pub identity_pem: Option<String>,
}

/// Whether `o` holds the options for the constructor's arguments.
pub open spec fn options_for(
    o: ClientOptions,
    pool_max_idle_per_host: Option<i64>,
    max_redirects: Option<i64>,
    enable_cookies: Option<bool>,
    enable_http2: Option<bool>,
    client_cert_pem: Option<String>,
    client_key_pem: Option<String>,
    min_tls_version: Option<String>,
    accept_invalid_certs: Option<bool>,
) -> bool {
    &&& o.pool_max_idle_per_host == (match pool_max_idle_per_host {
        Some(n) => Some(n as usize),
        None => None::<usize>,
    })
    &&& o.redirect == redirect_policy_spec(max_redirects)
    &&& o.cookie_store == (enable_cookies == Some(true))
    &&& o.http1_only == (enable_http2 == Some(false))
    &&& o.min_tls_version == (match min_tls_version {
        Some(v) => tls_version_spec(v@),
        None => None::<TlsVersion>,
    })
    &&& o.accept_invalid_certs == (accept_invalid_certs == Some(true))
    &&& match (client_cert_pem, client_key_pem) {
        (Some(c), Some(k)) => o.identity_pem matches Some(p) && p@ == c@ + k@,
        _ => o.identity_pem is None,
    }
}

/// The client options for the constructor's arguments: cookies and
/// invalid certificates only when asked for, HTTP/1 only when HTTP/2 is
/// turned off, and a client identity only when both a certificate and a
/// key are given. A TLS version name that names none is refused.
pub fn client_options(
    pool_max_idle_per_host: Option<i64>,
    max_redirects: Option<i64>,
    enable_cookies: Option<bool>,
    enable_http2: Option<bool>,
    client_cert_pem: Option<String>,
    client_key_pem: Option<String>,
    min_tls_version: Option<String>,
    accept_invalid_certs: Option<bool>,
) -> (r: Result<ClientOptions, String>)
    ensures
        r is Err <==> (min_tls_version matches Some(v) && tls_version_spec(v@) is None),
        r matches Err(m) ==> (min_tls_version matches Some(v) && m@ == invalid_tls_message(v@)),
        r matches Ok(o) ==> options_for(
            o,
            pool_max_idle_per_host,
            max_redirects,
            enable_cookies,
            enable_http2,
            client_cert_pem,
            client_key_pem,
            min_tls_version,
            accept_invalid_certs,
        ),
{
    let pool = match pool_max_idle_per_host {
        Some(n) => Some(n as usize),
        None => None,
    };
    let redirect = match max_redirects {
        None => RedirectPolicy::Default,
        Some(m) => if m == 0 {
            RedirectPolicy::NoRedirects
        } else {
            RedirectPolicy::Limited(m as usize)
        },
    };
    let cookie_store = match enable_cookies {
        Some(b) => b,
        None => false,
    };
    let http1_only = match enable_http2 {
        Some(h2) => !h2,
        None => false,
    };
    let tls = match min_tls_version {
        Some(v) => match parse_tls_version(v.as_str()) {
            Ok(t) => Some(t),
            Err(e) => {
                return Err(e);
            },
        },
        None => None,
    };
    let accept = match accept_invalid_certs {
        Some(b) => b,
        None => false,
    };
    let identity = match (client_cert_pem, client_key_pem) {
        (Some(c), Some(k)) => {
            let mut out = str_to_chars(c.as_str());
            let kv = str_to_chars(k.as_str());
            push_all(&mut out, &kv);
            Some(chars_to_string(&out))
        },
        _ => None,
    };
    Ok(
        ClientOptions {
            pool_max_idle_per_host: pool,
            redirect,
            cookie_store,
            http1_only,
            min_tls_version: tls,
            accept_invalid_certs: accept,
            identity_pem: identity,
        },
    )
}

/// A client identity of `reqwest` (certificate chain and private key),
/// opaque to proofs.
#[verifier::external_type_specification]
#[verifier::external_body]
pub struct ExIdentity(reqwest::Identity);

/// A root certificate of `reqwest`, opaque to proofs.
#[verifier::external_type_specification]
#[verifier::external_body]
pub struct ExCertificate(reqwest::Certificate);

/// Whether `reqwest::Identity::from_pem` (rustls backend) accepts a PEM
/// text: its sections parse, each is a certificate or a private key, and
/// there is at least one certificate and one key.
pub uninterp spec fn identity_pem_parses(pem: Seq<char>) -> bool;

/// `reqwest::Identity::from_pem` on the bytes of `pem`: the identity when
/// the PEM text holds one, else the error's message.
#[verifier::external_body]
fn identity_from_pem(pem: &str) -> (r: Result<reqwest::Identity, String>)
    ensures
        r is Ok <==> identity_pem_parses(pem@),
{
    reqwest::Identity::from_pem(pem.as_bytes()).map_err(|e| e.to_string())
}

/// `reqwest::Certificate::from_pem` on the bytes of `pem`. With the rustls
/// backend this crate builds `reqwest` with, it keeps the PEM text for
/// later and always succeeds; the text is read when the client is built.
#[verifier::external_body]
fn ca_certificate_from_pem(pem: &str) -> (r: Result<reqwest::Certificate, String>)
    ensures
        r is Ok,
{
    reqwest::Certificate::from_pem(pem.as_bytes()).map_err(|e| e.to_string())
}

/// The options of an HTTP client together with its root certificate and
/// its client identity.
pub struct ClientSetup {
    pub options: ClientOptions,
    pub ca_certificate: Option<reqwest::Certificate>,
    pub identity: Option<reqwest::Identity>,
}

/// Whether `m` is the message of a refused client identity: the words
/// `Failed to create client identity: ` and the error's message.
pub open spec fn identity_message(m: Seq<char>) -> bool {
    exists|d: Seq<char>| m == "Failed to create client identity: "@ + d
}

/// Everything an HTTP client is built with, decided and parsed in the
/// constructor's order: the options (a TLS version name that names none is
/// refused), then the root certificate when one is given, then the client
/// identity from the certificate followed by the key when both are given
/// (refused when that PEM text holds no identity).
pub fn client_setup(
    pool_max_idle_per_host: Option<i64>,
    max_redirects: Option<i64>,
    enable_cookies: Option<bool>,
    enable_http2: Option<bool>,
    ca_cert_pem: Option<String>,
    client_cert_pem: Option<String>,
    client_key_pem: Option<String>,
    min_tls_version: Option<String>,
    accept_invalid_certs: Option<bool>,
) -> (r: Result<ClientSetup, String>)
    ensures
        r is Err <==> (min_tls_version matches Some(v) && tls_version_spec(v@) is None) || (
        client_cert_pem matches Some(c) && client_key_pem matches Some(k) && !identity_pem_parses(
            c@ + k@,
        )),
        r matches Err(m) ==> if min_tls_version matches Some(v) && tls_version_spec(v@) is None {
            min_tls_version matches Some(v) && m@ == invalid_tls_message(v@)
        } else {
            identity_message(m@)
        },
        r matches Ok(s) ==> {
            &&& options_for(
                s.options,
                pool_max_idle_per_host,
                max_redirects,
                enable_cookies,
                enable_http2,
                client_cert_pem,
                client_key_pem,
                min_tls_version,
                accept_invalid_certs,
            )
            &&& (s.ca_certificate is Some <==> ca_cert_pem is Some)
            &&& (s.identity is Some <==> (client_cert_pem is Some && client_key_pem is Some))
        },
{
    let options = match client_options(
        pool_max_idle_per_host,
        max_redirects,
        enable_cookies,
        enable_http2,
        client_cert_pem,
        client_key_pem,
        min_tls_version,
        accept_invalid_certs,
    ) {
        Ok(o) => o,
        Err(e) => {
            return Err(e);
        },
    };
    let ca_certificate = match ca_cert_pem {
        Some(pem) => match ca_certificate_from_pem(pem.as_str()) {
            Ok(c) => Some(c),
            Err(e) => {
                let mut out = str_to_chars("Failed to parse CA certificate: ");
                let d = str_to_chars(e.as_str());
                push_all(&mut out, &d);
                return Err(chars_to_string(&out));
            },
        },
        None => None,
    };
    let identity = match &options.identity_pem {
        Some(pem) => match identity_from_pem(pem.as_str()) {
            Ok(i) => Some(i),
            Err(e) => {
                let mut out = str_to_chars("Failed to create client identity: ");
                let d = str_to_chars(e.as_str());
                push_all(&mut out, &d);
                let m = chars_to_string(&out);
                assert(m@ == "Failed to create client identity: "@ + e@);
                return Err(m);
            },
        },
        None => None,
    };
    Ok(ClientSetup { options, ca_certificate, identity })
}

} // verus!
