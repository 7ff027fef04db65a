//! What an HTTP request is built from: its method and URI, parsed by the
//! `http` crate (through `hyper`), its query parameters, and its JSON or
//! form body.

use vstd::prelude::*;
use vstd::utf8::encode_utf8;
use crate::text::{chars_to_string, push_all, str_to_chars};

verus! {

/// An HTTP method of the `http` crate, opaque to proofs.
#[verifier::external_type_specification]
#[verifier::external_body]
pub struct ExMethod(hyper::Method);

/// A URI of the `http` crate, opaque to proofs.
#[verifier::external_type_specification]
#[verifier::external_body]
pub struct ExUri(hyper::Uri);

/// Whether `hyper::Method` parses a text (a standard method name, or an
/// extension method made of token characters).
pub uninterp spec fn method_parses(m: Seq<char>) -> bool;

/// Whether `hyper::Uri` parses a text.
pub uninterp spec fn uri_parses(u: Seq<char>) -> bool;

/// `str::parse::<hyper::Method>`: the method when the text parses as one,
/// else the parser's error message.
#[verifier::external_body]
pub(crate) fn parse_method(m: &str) -> (r: Result<hyper::Method, String>)
    ensures
        r is Ok <==> method_parses(m@),
{
    m.parse::<hyper::Method>().map_err(|e| e.to_string())
}

/// `str::parse::<hyper::Uri>`: the URI when the text parses as one, else
/// the parser's error message.
#[verifier::external_body]
pub(crate) fn parse_uri(u: &str) -> (r: Result<hyper::Uri, String>)
    ensures
        r is Ok <==> uri_parses(u@),
{
    u.parse::<hyper::Uri>().map_err(|e| e.to_string())
}

/// Why the method or the URI of a request was refused; each holds the
/// parser's message.
#[derive(Debug, Clone, PartialEq, Eq)]
pub enum TargetError {
    InvalidMethod(String),
    InvalidUri(String),
}

/// The method and URI of a new request, as the request constructor parses
/// them: the URI first, then the method.
pub fn request_parts(method: &str, uri: &str) -> (r: Result<(hyper::Method, hyper::Uri), TargetError>)
    ensures
        r is Ok <==> method_parses(method@) && uri_parses(uri@),
        !uri_parses(uri@) ==> r matches Err(TargetError::InvalidUri(_)),
        uri_parses(uri@) && !method_parses(method@) ==> r matches Err(
            TargetError::InvalidMethod(_),
        ),
{
    let u = match parse_uri(uri) {
        Ok(u) => u,
        Err(e) => {
            return Err(TargetError::InvalidUri(e));
        },
    };
    match parse_method(method) {
        Ok(m) => Ok((m, u)),
        Err(e) => Err(TargetError::InvalidMethod(e)),
    }
}

// ---------------------------------------------------------------------------
// JSON bodies.
// ---------------------------------------------------------------------------

/// Whether `serde_json::from_str::<serde_json::Value>` accepts a text.
pub uninterp spec fn json_parses(s: Seq<char>) -> bool;

/// The compact text `serde_json::to_string` writes for the value that
/// `serde_json::from_str::<serde_json::Value>` reads from a text (object
/// keys in sorted order).
pub uninterp spec fn json_compact(s: Seq<char>) -> Seq<char>;

/// Whether `serde_json::from_slice::<serde_json::Value>` accepts bytes.
pub uninterp spec fn json_bytes_parse(b: Seq<u8>) -> bool;

/// The compact text `serde_json::to_string` writes for the value that
/// `serde_json::from_slice::<serde_json::Value>` reads from bytes.
pub uninterp spec fn json_bytes_compact(b: Seq<u8>) -> Seq<char>;

/// `serde_json::from_str::<serde_json::Value>`, keeping only whether it
/// succeeded: nothing when the text is JSON, else the parser's message.
#[verifier::external_body]
fn json_is_valid(s: &str) -> (r: Result<(), String>)
    ensures
        r is Ok <==> json_parses(s@),
{
    serde_json::from_str::<serde_json::Value>(s).map(|_| ()).map_err(|e| e.to_string())
}

/// `serde_json::from_str::<serde_json::Value>` followed by
/// `serde_json::to_string`: the compact text of the value, else the
/// parser's message. Writing a parsed value does not fail.
#[verifier::external_body]
fn compact_json(s: &str) -> (r: Result<String, String>)
    ensures
        r is Ok <==> json_parses(s@),
        r matches Ok(t) ==> t@ == json_compact(s@),
{
    match serde_json::from_str::<serde_json::Value>(s) {
        Ok(v) => Ok(v.to_string()),
        Err(e) => Err(e.to_string()),
    }
}

/// `serde_json::from_slice::<serde_json::Value>` followed by
/// `serde_json::to_string`: the compact text of the value, else the
/// parser's message.
#[verifier::external_body]
fn compact_json_bytes(b: &[u8]) -> (r: Result<String, String>)
    ensures
        r is Ok <==> json_bytes_parse(b@),
        r matches Ok(t) ==> t@ == json_bytes_compact(b@),
{
    match serde_json::from_slice::<serde_json::Value>(b) {
        Ok(v) => Ok(v.to_string()),
        Err(e) => Err(e.to_string()),
    }
}

/// `prefix` followed by `detail`.
fn prefixed(prefix: &str, detail: &str) -> (s: String)
    ensures
        s@ == prefix@ + detail@,
{
    let mut out = str_to_chars(prefix);
    let d = str_to_chars(detail);
    push_all(&mut out, &d);
    chars_to_string(&out)
}

/// The content type and body of a request with a JSON body: the text is
/// sent as it is, once it is known to be JSON; otherwise
/// `Invalid JSON: ` and the parser's message.
pub fn json_body(json: &str) -> (r: Result<(String, String), String>)
    ensures
        r is Ok <==> json_parses(json@),
        r matches Ok(p) ==> p.0@ == "application/json"@ && p.1@ == json@,
        r matches Err(m) ==> exists|d: Seq<char>| m@ == "Invalid JSON: "@ + d,
{
    match json_is_valid(json) {
        Ok(()) => Ok((String::from_str("application/json"), String::from_str(json))),
        Err(e) => Err(prefixed("Invalid JSON: ", e.as_str())),
    }
}

/// The body a quick JSON POST sends: the compact text of the JSON value;
/// otherwise `Invalid JSON: ` and the parser's message.
pub fn post_json_body(json: &str) -> (r: Result<String, String>)
    ensures
        r is Ok <==> json_parses(json@),
        r matches Ok(t) ==> t@ == json_compact(json@),
        r matches Err(m) ==> exists|d: Seq<char>| m@ == "Invalid JSON: "@ + d,
{
    match compact_json(json) {
        Ok(t) => Ok(t),
        Err(e) => Err(prefixed("Invalid JSON: ", e.as_str())),
    }
}

/// A response body read as JSON: the compact text of the value; otherwise
/// `Failed to parse JSON: ` and the parser's message.
pub fn response_json(body: &[u8]) -> (r: Result<String, String>)
    ensures
        r is Ok <==> json_bytes_parse(body@),
        r matches Ok(t) ==> t@ == json_bytes_compact(body@),
        r matches Err(m) ==> exists|d: Seq<char>| m@ == "Failed to parse JSON: "@ + d,
{
    match compact_json_bytes(body) {
        Ok(t) => Ok(t),
        Err(e) => Err(prefixed("Failed to parse JSON: ", e.as_str())),
    }
}

// ---------------------------------------------------------------------------
// Form bodies: application/x-www-form-urlencoded.
// ---------------------------------------------------------------------------

/// Bytes that form encoding leaves as they are: ASCII letters, digits, `*`,
/// `-`, `.` and `_`.
pub open spec fn form_byte_unchanged(b: u8) -> bool {
    (48 <= b <= 57) || (65 <= b <= 90) || (97 <= b <= 122) || b == 42 || b == 45 || b == 46
        || b == 95
}

/// Upper-case hexadecimal digit for `d < 16`.
pub open spec fn hex_digit(d: u8) -> char {
    if d < 10 {
        ((48 + d) as u8) as char
    } else {
        ((55 + d) as u8) as char
    }
}

/// Form encoding of bytes: unchanged bytes stay, a space becomes `+`, and
/// every other byte becomes `%XX` with upper-case hexadecimal digits.
pub open spec fn form_bytes(bytes: Seq<u8>) -> Seq<char>
    decreases bytes.len(),
{
    if bytes.len() == 0 {
        Seq::empty()
    } else {
        let b = bytes[0];
        (if form_byte_unchanged(b) {
            seq![b as char]
        } else if b == 32 {
            seq!['+']
        } else {
            seq!['%', hex_digit(b / 16), hex_digit(b % 16)]
        }) + form_bytes(bytes.drop_first())
    }
}

/// One pair: the encoded UTF-8 name, `=`, the encoded UTF-8 value.
pub open spec fn form_pair(name: Seq<char>, value: Seq<char>) -> Seq<char> {
    form_bytes(encode_utf8(name)) + seq!['='] + form_bytes(encode_utf8(value))
}

/// The view of a pair of strings.
pub open spec fn string_pair(p: (String, String)) -> (Seq<char>, Seq<char>) {
    (p.0@, p.1@)
}

/// Pairs in order, separated by `&`.
pub open spec fn form_encoded(ps: Seq<(Seq<char>, Seq<char>)>) -> Seq<char>
    decreases ps.len(),
{
    if ps.len() == 0 {
        Seq::empty()
    } else if ps.len() == 1 {
        form_pair(ps[0].0, ps[0].1)
    } else {
        form_encoded(ps.drop_last()) + seq!['&'] + form_pair(ps.last().0, ps.last().1)
    }
}

/// `form_urlencoded::Serializer::append_pair` on a serializer over
/// `target`: a `&` when the target already holds text, then the pair.
#[verifier::external_body]
fn append_form_pair(target: &mut String, name: &str, value: &str)
    ensures
        final(target)@ == old(target)@ + (if old(target)@.len() > 0 {
            seq!['&']
        } else {
            Seq::empty()
        }) + form_pair(name@, value@),
{
    url::form_urlencoded::Serializer::new(target).append_pair(name, value);
}

/// The `application/x-www-form-urlencoded` text of the pairs, in order.
pub fn form_encode(pairs: &Vec<(String, String)>) -> (s: String)
    ensures
        s@ == form_encoded(pairs@.map_values(|p: (String, String)| string_pair(p))),
{
    let ghost ps = pairs@.map_values(|p: (String, String)| string_pair(p));
    let mut out = String::new();
    let mut i: usize = 0;
    while i < pairs.len()
        invariant
            ps == pairs@.map_values(|p: (String, String)| string_pair(p)),
            i <= pairs@.len(),
            out@ == form_encoded(ps.take(i as int)),
        decreases pairs@.len() - i,
    {
        let ghost before = out@;
        append_form_pair(&mut out, pairs[i].0.as_str(), pairs[i].1.as_str());
        proof {
            let t = ps.take(i + 1);
            assert(t.drop_last() =~= ps.take(i as int));
            assert(t.last() == ps[i as int]);
            if i == 0 {
                assert(ps.take(0) =~= Seq::<(Seq<char>, Seq<char>)>::empty());
                assert(before.len() == 0);
                assert(out@ =~= form_pair(ps[0].0, ps[0].1));
            } else {
                lemma_form_encoded_nonempty(ps.take(i as int));
            }
        }
        i = i + 1;
    }
    assert(ps.take(i as int) =~= ps);
    out
}

proof fn lemma_form_encoded_nonempty(ps: Seq<(Seq<char>, Seq<char>)>)
    requires
        ps.len() > 0,
    ensures
        form_encoded(ps).len() > 0,
    decreases ps.len(),
{
    if ps.len() > 1 {
        lemma_form_encoded_nonempty(ps.drop_last());
    }
}

/// The content type and body of a request with a form body.
pub fn form_body(pairs: &Vec<(String, String)>) -> (r: (String, String))
    ensures
        r.0@ == "application/x-www-form-urlencoded"@,
        r.1@ == form_encoded(pairs@.map_values(|p: (String, String)| string_pair(p))),
{
    (String::from_str("application/x-www-form-urlencoded"), form_encode(pairs))
}

// ---------------------------------------------------------------------------
// Query parameters.
// ---------------------------------------------------------------------------

/// The text of the URL that `url::Url::parse` gives for `url` after
/// `query_pairs_mut().append_pair` appended each pair in order
/// (`Url::as_str`).
pub uninterp spec fn url_with_query_pairs(
    url: Seq<char>,
    pairs: Seq<(Seq<char>, Seq<char>)>,
) -> Seq<char>;

/// `url::Url::parse`, then `query_pairs_mut().append_pair` for each pair,
/// then `Url::as_str`: the new URL text, else the parser's message.
#[verifier::external_body]
fn append_query_pairs(url: &str, pairs: &Vec<(String, String)>) -> (r: Result<String, String>)
    ensures
        r is Ok <==> crate::http::cookies::url_parses(url@),
        r matches Ok(s) ==> s@ == url_with_query_pairs(
            url@,
            pairs@.map_values(|p: (String, String)| string_pair(p)),
        ),
{
    match url::Url::parse(url) {
        Ok(mut u) => {
            u.query_pairs_mut().extend_pairs(pairs.iter().map(|(k, v)| (k.as_str(), v.as_str())));
            Ok(u.as_str().to_string())
        },
        Err(e) => Err(e.to_string()),
    }
}

/// Why query parameters could not be added to a request's URI.
#[derive(Debug, Clone, PartialEq, Eq)]
pub enum QueryError {
    /// The URI does not parse as a URL; holds the parser's message.
    InvalidUrl(String),
    /// The URL with the parameters does not parse as a URI.
    InvalidUri(String),
}

/// A request URI with query parameters appended in order: the URI read as
/// a URL, the pairs appended to its query, and the result parsed back as
/// a URI.
pub fn uri_with_query(uri: &str, pairs: &Vec<(String, String)>) -> (r: Result<
    (String, hyper::Uri),
    QueryError,
>)
    ensures
        !crate::http::cookies::url_parses(uri@) <==> r matches Err(QueryError::InvalidUrl(_)),
        r is Ok <==> crate::http::cookies::url_parses(uri@) && uri_parses(
            url_with_query_pairs(uri@, pairs@.map_values(|p: (String, String)| string_pair(p))),
        ),
        r matches Ok(p) ==> p.0@ == url_with_query_pairs(
            uri@,
            pairs@.map_values(|p: (String, String)| string_pair(p)),
        ),
{
    match append_query_pairs(uri, pairs) {
        Err(e) => Err(QueryError::InvalidUrl(e)),
        Ok(s) => match parse_uri(s.as_str()) {
            Ok(u) => Ok((s, u)),
            Err(e) => Err(QueryError::InvalidUri(e)),
        },
    }
}

} // verus!
