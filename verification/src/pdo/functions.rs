//! Helpers behind the PDO layer: conversion of a PDO data source name to an
//! SQLx connection URI, and normalisation of parameter keys.

use vstd::prelude::*;
use vstd::utf8::encode_utf8;
use crate::text::{
    chars_model, find_char_from, find_from, lemma_find_from, lowercase, occurs_from,
    push_all, replace_chars, replace_from, split_chars, split_from, str_to_chars,
    string_from_chars, chars_to_string, sub_chars, to_lowercase, trim, trim_chars, chars_eq, contains_chars,
};

verus! {

// ---------------------------------------------------------------------------
// Percent-encoding, as `urlencoding::encode` performs it.
// ---------------------------------------------------------------------------

/// Bytes that `urlencoding::encode` leaves as they are: ASCII letters,
/// digits, `-`, `.`, `_` and `~`.
pub open spec fn is_unreserved(b: u8) -> bool {
    (48 <= b <= 57) || (65 <= b <= 90) || (97 <= b <= 122) || b == 45 || b == 46 || b == 95
        || b == 126
}

/// Upper-case hexadecimal digit for `d < 16`.
pub open spec fn hex_upper(d: u8) -> char {
    if d < 10 {
        ((48 + d) as u8) as char
    } else {
        ((55 + d) as u8) as char
    }
}

/// Every byte kept or written as `%XX` with upper-case hex digits.
pub open spec fn percent_encode(bytes: Seq<u8>) -> Seq<char>
    decreases bytes.len(),
{
    if bytes.len() == 0 {
        Seq::empty()
    } else {
        let b = bytes[0];
        (if is_unreserved(b) {
            seq![b as char]
        } else {
            seq!['%', hex_upper(b / 16), hex_upper(b % 16)]
        }) + percent_encode(bytes.drop_first())
    }
}

/// The percent-encoding of the UTF-8 bytes of `s`.
pub open spec fn url_encoded(s: Seq<char>) -> Seq<char> {
    percent_encode(encode_utf8(s))
}

/// `urlencoding::encode` on the characters of `v`: every byte of the UTF-8
/// encoding except ASCII letters, digits, `-`, `.`, `_` and `~` becomes
/// `%XX` with upper-case hexadecimal digits.
#[verifier::external_body]
fn url_encode(v: &Vec<char>) -> (r: Vec<char>)
    ensures
        r@ == url_encoded(v@),
{
    urlencoding::encode(&v.iter().collect::<String>()).chars().collect()
}

// ---------------------------------------------------------------------------
// Ordered key/value lists: a later entry for a key replaces the value of the
// earlier one in place.
// ---------------------------------------------------------------------------

/// First index at or after `j` whose key is `k`.
pub open spec fn assoc_find(m: Seq<(Seq<char>, Seq<char>)>, k: Seq<char>, j: int) -> Option<int>
    decreases m.len() - j,
{
    if j < 0 || j >= m.len() {
        None
    } else if m[j].0 == k {
        Some(j)
    } else {
        assoc_find(m, k, j + 1)
    }
}

proof fn lemma_assoc_find(m: Seq<(Seq<char>, Seq<char>)>, k: Seq<char>, j: int)
    ensures
        assoc_find(m, k, j) matches Some(r) ==> j <= r < m.len() && m[r].0 == k,
    decreases m.len() - j,
{
    if 0 <= j < m.len() && m[j].0 != k {
        lemma_assoc_find(m, k, j + 1);
    }
}

/// The value stored for `k`.
pub open spec fn assoc_get(m: Seq<(Seq<char>, Seq<char>)>, k: Seq<char>) -> Option<Seq<char>> {
    match assoc_find(m, k, 0) {
        Some(i) => Some(m[i].1),
        None => None,
    }
}

/// `m` with the value for `k` set to `v`.
pub open spec fn assoc_insert(m: Seq<(Seq<char>, Seq<char>)>, k: Seq<char>, v: Seq<char>) -> Seq<
    (Seq<char>, Seq<char>),
> {
    match assoc_find(m, k, 0) {
        Some(i) => m.update(i, (k, v)),
        None => m.push((k, v)),
    }
}

/// The value stored for `k`, or `d`.
pub open spec fn get_or(m: Seq<(Seq<char>, Seq<char>)>, k: Seq<char>, d: Seq<char>) -> Seq<char> {
    match assoc_get(m, k) {
        Some(v) => v,
        None => d,
    }
}

/// The views of a vector of key/value pairs.
pub open spec fn pairs_model(v: Seq<(Vec<char>, Vec<char>)>) -> Seq<(Seq<char>, Seq<char>)> {
    v.map_values(|p: (Vec<char>, Vec<char>)| (p.0@, p.1@))
}

fn assoc_find_exec(m: &Vec<(Vec<char>, Vec<char>)>, k: &Vec<char>) -> (r: Option<usize>)
    ensures
        match r {
            Some(i) => assoc_find(pairs_model(m@), k@, 0) == Some(i as int) && i < m@.len(),
            None => assoc_find(pairs_model(m@), k@, 0) is None,
        },
{
    let mut j: usize = 0;
    while j < m.len()
        invariant
            j <= m@.len(),
            assoc_find(pairs_model(m@), k@, 0) == assoc_find(pairs_model(m@), k@, j as int),
        decreases m@.len() - j,
    {
        if chars_eq(&m[j].0, k) {
            return Some(j);
        }
        j = j + 1;
    }
    None
}

fn assoc_get_exec(m: &Vec<(Vec<char>, Vec<char>)>, k: &Vec<char>) -> (r: Option<Vec<char>>)
    ensures
        match r {
            Some(v) => assoc_get(pairs_model(m@), k@) == Some(v@),
            None => assoc_get(pairs_model(m@), k@) is None,
        },
{
    match assoc_find_exec(m, k) {
        Some(i) => {
            let v = &m[i].1;
            Some(sub_chars(v, 0, v.len()))
        },
        None => None,
    }
}

fn assoc_insert_exec(m: &mut Vec<(Vec<char>, Vec<char>)>, k: Vec<char>, v: Vec<char>)
    ensures
        pairs_model(final(m)@) == assoc_insert(pairs_model(old(m)@), k@, v@),
{
    match assoc_find_exec(m, &k) {
        Some(i) => {
            let ghost kv = (k@, v@);
            m.set(i, (k, v));
            assert(pairs_model(m@) =~= pairs_model(old(m)@).update(i as int, kv));
        },
        None => {
            let ghost kv = (k@, v@);
            m.push((k, v));
            assert(pairs_model(m@) =~= pairs_model(old(m)@).push(kv));
        },
    }
}

// ---------------------------------------------------------------------------
// The data source name.
// ---------------------------------------------------------------------------

/// Folds the `;`-separated pieces from index `k` into `acc`: a trimmed piece
/// `key=value` stores the trimmed value under the trimmed key, a piece
/// without `=` stores an empty value, an empty piece is skipped.
pub open spec fn chunk_pairs(chunks: Seq<Seq<char>>, k: int, acc: Seq<(Seq<char>, Seq<char>)>) -> Seq<
    (Seq<char>, Seq<char>),
>
    decreases chunks.len() - k,
{
    if k < 0 || k >= chunks.len() {
        acc
    } else {
        let c = trim(chunks[k]);
        let acc2 = if c.len() == 0 {
            acc
        } else {
            match find_from(c, '=', 0) {
                Some(e) => assoc_insert(
                    acc,
                    trim(c.subrange(0, e)),
                    trim(c.subrange(e + 1, c.len() as int)),
                ),
                None => assoc_insert(acc, c, Seq::empty()),
            }
        };
        chunk_pairs(chunks, k + 1, acc2)
    }
}

/// The key under which a DSN that is itself a URI is kept.
pub open spec fn uri_key() -> Seq<char> {
    seq!['_', '_', 'u', 'r', 'i']
}

/// The key/value pairs of the part of a DSN after the scheme: empty when
/// the trimmed text is empty, the whole trimmed text under `__uri` when it
/// holds `://`, else the `;`-separated `key=value` pieces.
pub open spec fn dsn_pairs(rest: Seq<char>) -> Seq<(Seq<char>, Seq<char>)> {
    let r = trim(rest);
    if r.len() == 0 {
        Seq::empty()
    } else if occurs_from(r, seq![':', '/', '/'], 0) {
        seq![(uri_key(), r)]
    } else {
        chunk_pairs(split_from(r, ';', 0), 0, Seq::empty())
    }
}

fn parse_dsn_pairs(rest: &Vec<char>) -> (r: Vec<(Vec<char>, Vec<char>)>)
    ensures
        pairs_model(r@) == dsn_pairs(rest@),
{
    let t = trim_chars(rest, 0, rest.len());
    assert(rest@.subrange(0, rest@.len() as int) =~= rest@);
    let mut result: Vec<(Vec<char>, Vec<char>)> = Vec::new();
    if t.len() == 0 {
        assert(pairs_model(result@) =~= Seq::<(Seq<char>, Seq<char>)>::empty());
        return result;
    }
    let sep = str_to_chars("://");
    proof {
        reveal_strlit("://");
    }
    assert(sep@ =~= seq![':', '/', '/']);
    if contains_chars(&t, &sep) {
        let key = str_to_chars("__uri");
        proof {
            reveal_strlit("__uri");
        }
        assert(key@ =~= uri_key());
        let ghost tv = t@;
        result.push((key, t));
        assert(pairs_model(result@) =~= seq![(uri_key(), tv)]);
        return result;
    }
    let chunks = split_chars(&t, ';');
    let mut k: usize = 0;
    assert(pairs_model(result@) =~= Seq::<(Seq<char>, Seq<char>)>::empty());
    while k < chunks.len()
        invariant
            k <= chunks@.len(),
            chars_model(chunks@) == split_from(t@, ';', 0),
            dsn_pairs(rest@) == chunk_pairs(chars_model(chunks@), k as int, pairs_model(result@)),
        decreases chunks@.len() - k,
    {
        let chunk = &chunks[k];
        let c = trim_chars(chunk, 0, chunk.len());
        assert(chunk@.subrange(0, chunk@.len() as int) =~= chunk@);
        assert(chars_model(chunks@)[k as int] == chunk@);
        if c.len() > 0 {
            proof {
                lemma_find_from(c@, '=', 0);
            }
            match find_char_from(&c, '=', 0) {
                Some(e) => {
                    let key = trim_chars(&c, 0, e);
                    let value = trim_chars(&c, e + 1, c.len());
                    assoc_insert_exec(&mut result, key, value);
                },
                None => {
                    assoc_insert_exec(&mut result, c, Vec::new());
                },
            }
        }
        k = k + 1;
    }
    result
}

// ---------------------------------------------------------------------------
// From DSN to SQLx URI.
// ---------------------------------------------------------------------------

/// Keys that describe the connection itself and so are not passed on as
/// query parameters.
pub open spec fn is_connection_key(k: Seq<char>) -> bool {
    ||| k == "host"@
    ||| k == "port"@
    ||| k == "dbname"@
    ||| k == "user"@
    ||| k == "username"@
    ||| k == "password"@
    ||| k == "pass"@
}

/// Query parameters from the pairs at index `k` on, added to `acc`: keys
/// are lower-cased, connection keys skipped, and for MySQL `unix_socket`
/// becomes `socket`.
pub open spec fn query_params_from(
    mysql: bool,
    pairs: Seq<(Seq<char>, Seq<char>)>,
    k: int,
    acc: Seq<(Seq<char>, Seq<char>)>,
) -> Seq<(Seq<char>, Seq<char>)>
    decreases pairs.len() - k,
{
    if k < 0 || k >= pairs.len() {
        acc
    } else {
        let lk = lowercase(pairs[k].0);
        let acc2 = if is_connection_key(lk) {
            acc
        } else {
            assoc_insert(
                acc,
                if mysql && lk == "unix_socket"@ {
                    "socket"@
                } else {
                    lk
                },
                pairs[k].1,
            )
        };
        query_params_from(mysql, pairs, k + 1, acc2)
    }
}

/// `key=value` pairs from index `k` on, percent-encoded and joined by `&`.
pub open spec fn params_text(qp: Seq<(Seq<char>, Seq<char>)>, k: int) -> Seq<char>
    decreases qp.len() - k,
{
    if k < 0 || k >= qp.len() {
        Seq::empty()
    } else {
        (if k == 0 {
            Seq::empty()
        } else {
            seq!['&']
        }) + url_encoded(qp[k].0) + seq!['='] + url_encoded(qp[k].1) + params_text(qp, k + 1)
    }
}

/// The host when the DSN gives none.
pub open spec fn default_host() -> Seq<char> {
    "localhost"@
}

/// The user name: the one given, else the DSN's `user`, else empty.
pub open spec fn dsn_user(pairs: Seq<(Seq<char>, Seq<char>)>, username: Option<Seq<char>>) -> Seq<
    char,
> {
    match username {
        Some(u) => u,
        None => get_or(pairs, "user"@, Seq::empty()),
    }
}

/// The password: the one given, else the DSN's `password`, else its
/// `pass`, else empty.
pub open spec fn dsn_password(pairs: Seq<(Seq<char>, Seq<char>)>, password: Option<Seq<char>>) -> Seq<
    char,
> {
    match password {
        Some(p) => p,
        None => match assoc_get(pairs, "password"@) {
            Some(p) => p,
            None => get_or(pairs, "pass"@, Seq::empty()),
        },
    }
}

/// `user:password@`, `user@` or nothing, percent-encoded.
pub open spec fn auth_part(user: Seq<char>, pass: Seq<char>) -> Seq<char> {
    if user.len() > 0 {
        if pass.len() > 0 {
            url_encoded(user) + seq![':'] + url_encoded(pass) + seq!['@']
        } else {
            url_encoded(user) + seq!['@']
        }
    } else {
        Seq::empty()
    }
}

/// A PostgreSQL host given as a socket directory.
pub open spec fn is_socket_host(pg: bool, host: Seq<char>) -> bool {
    pg && host.len() > 0 && host[0] == '/'
}

/// The host, followed by `:port` when a non-empty port is given.
pub open spec fn host_part(host: Seq<char>, port: Option<Seq<char>>) -> Seq<char> {
    match port {
        Some(p) => if p.len() > 0 {
            host + seq![':'] + p
        } else {
            host
        },
        None => host,
    }
}

/// `/dbname`, percent-encoded, or nothing.
pub open spec fn path_part(dbname: Seq<char>) -> Seq<char> {
    if dbname.len() > 0 {
        seq!['/'] + url_encoded(dbname)
    } else {
        Seq::empty()
    }
}

/// `?key=value&...`, percent-encoded, or nothing.
pub open spec fn query_part(qp: Seq<(Seq<char>, Seq<char>)>) -> Seq<char> {
    if qp.len() > 0 {
        seq!['?'] + params_text(qp, 0)
    } else {
        Seq::empty()
    }
}

/// The URI that SQLx connects with, for a `mysql` or `pgsql` DSN whose
/// pairs are `pairs`.
pub open spec fn sqlx_uri(
    scheme: Seq<char>,
    pairs: Seq<(Seq<char>, Seq<char>)>,
    username: Option<Seq<char>>,
    password: Option<Seq<char>>,
) -> Seq<char> {
    let pg = scheme == "pgsql"@;
    let host = get_or(pairs, "host"@, default_host());
    let qp0 = query_params_from(scheme == "mysql"@, pairs, 0, Seq::empty());
    let socket = is_socket_host(pg, host);
    let qp = if socket {
        assoc_insert(qp0, "host"@, host)
    } else {
        qp0
    };
    let host_base = if socket {
        default_host()
    } else {
        host
    };
    (if pg {
        "postgres"@
    } else {
        "mysql"@
    }) + "://"@ + auth_part(dsn_user(pairs, username), dsn_password(pairs, password)) + host_part(
        host_base,
        assoc_get(pairs, "port"@),
    ) + path_part(get_or(pairs, "dbname"@, Seq::empty())) + query_part(qp)
}

/// Why a DSN could not be converted.
pub enum DsnErrorModel {
    /// The DSN has no `:` after a driver name; holds the DSN.
    MissingScheme(Seq<char>),
    /// The driver is neither `mysql` nor `pgsql`; holds the lower-cased driver.
    UnsupportedDriver(Seq<char>),
}

/// The driver and SQLx URI for a PDO DSN, or why there is none.
pub open spec fn dsn_to_sqlx(
    dsn: Seq<char>,
    username: Option<Seq<char>>,
    password: Option<Seq<char>>,
) -> Result<(Seq<char>, Seq<char>), DsnErrorModel> {
    match find_from(dsn, ':', 0) {
        None => Err(DsnErrorModel::MissingScheme(dsn)),
        Some(c) => {
            let scheme = lowercase(dsn.subrange(0, c));
            if scheme != "mysql"@ && scheme != "pgsql"@ {
                Err(DsnErrorModel::UnsupportedDriver(scheme))
            } else {
                let pairs = dsn_pairs(dsn.subrange(c + 1, dsn.len() as int));
                match assoc_get(pairs, uri_key()) {
                    Some(u) => Ok(
                        (
                            scheme,
                            if scheme == "pgsql"@ {
                                replace_from(u, "pgsql://"@, "postgres://"@, 0)
                            } else {
                                u
                            },
                        ),
                    ),
                    None => Ok((scheme, sqlx_uri(scheme, pairs, username, password))),
                }
            }
        },
    }
}

/// Why a DSN could not be converted.
#[derive(Debug)]
pub enum DsnError {
    /// The DSN has no `:` after a driver name; holds the DSN.
    MissingScheme(String),
    /// The driver is neither `mysql` nor `pgsql`; holds the lower-cased driver.
    UnsupportedDriver(String),
}

impl View for DsnError {
    type V = DsnErrorModel;

    open spec fn view(&self) -> DsnErrorModel {
        match self {
            DsnError::MissingScheme(d) => DsnErrorModel::MissingScheme(d@),
            DsnError::UnsupportedDriver(d) => DsnErrorModel::UnsupportedDriver(d@),
        }
    }
}

/// The message of the PHP exception for a DSN error.
pub open spec fn dsn_error_message(e: DsnErrorModel) -> Seq<char> {
    match e {
        DsnErrorModel::MissingScheme(d) => "Invalid DSN (missing scheme): "@ + d,
        DsnErrorModel::UnsupportedDriver(d) => "Unsupported PDO driver: "@ + d,
    }
}

impl DsnError {
    /// The message of the PHP exception for this error.
    pub fn message(&self) -> (s: String)
        ensures
            s@ == dsn_error_message(self@),
    {
        let (prefix, detail) = match self {
            DsnError::MissingScheme(d) => (str_to_chars("Invalid DSN (missing scheme): "), d),
            DsnError::UnsupportedDriver(d) => (str_to_chars("Unsupported PDO driver: "), d),
        };
        let mut out = prefix;
        let tail = str_to_chars(detail.as_str());
        push_all(&mut out, &tail);
        chars_to_string(&out)
    }
}

/// The driver (`mysql` or `pgsql`) and the URI that SQLx connects with.
#[derive(Debug)]
pub struct SqlxTarget {
    pub driver: String,
    pub uri: String,
}

/// The view of an optional string.
pub open spec fn opt_chars(o: Option<String>) -> Option<Seq<char>> {
    match o {
        Some(s) => Some(s@),
        None => None,
    }
}

fn lit(s: &str) -> (r: Vec<char>)
    ensures
        r@ == s@,
{
    str_to_chars(s)
}

fn opt_to_chars(o: &Option<String>) -> (r: Option<Vec<char>>)
    ensures
        match r {
            Some(v) => opt_chars(*o) == Some(v@),
            None => o is None,
        },
{
    match o {
        Some(s) => Some(str_to_chars(s.as_str())),
        None => None,
    }
}

fn query_params(mysql: bool, pairs: &Vec<(Vec<char>, Vec<char>)>) -> (r: Vec<(Vec<char>, Vec<char>)>)
    ensures
        pairs_model(r@) == query_params_from(mysql, pairs_model(pairs@), 0, Seq::empty()),
{
    let mut r: Vec<(Vec<char>, Vec<char>)> = Vec::new();
    let host = lit("host");
    let port = lit("port");
    let dbname = lit("dbname");
    let user = lit("user");
    let username = lit("username");
    let password = lit("password");
    let pass = lit("pass");
    let unix_socket = lit("unix_socket");
    let mut k: usize = 0;
    assert(pairs_model(r@) =~= Seq::<(Seq<char>, Seq<char>)>::empty());
    while k < pairs.len()
        invariant
            k <= pairs@.len(),
            host@ == "host"@,
            port@ == "port"@,
            dbname@ == "dbname"@,
            user@ == "user"@,
            username@ == "username"@,
            password@ == "password"@,
            pass@ == "pass"@,
            unix_socket@ == "unix_socket"@,
            query_params_from(mysql, pairs_model(pairs@), 0, Seq::empty()) == query_params_from(
                mysql,
                pairs_model(pairs@),
                k as int,
                pairs_model(r@),
            ),
        decreases pairs@.len() - k,
    {
        let lk = to_lowercase(&pairs[k].0);
        let skip = chars_eq(&lk, &host) || chars_eq(&lk, &port) || chars_eq(&lk, &dbname)
            || chars_eq(&lk, &user) || chars_eq(&lk, &username) || chars_eq(&lk, &password)
            || chars_eq(&lk, &pass);
        if !skip {
            let key = if mysql && chars_eq(&lk, &unix_socket) {
                lit("socket")
            } else {
                lk
            };
            let value = sub_chars(&pairs[k].1, 0, pairs[k].1.len());
            assert(pairs[k as int].1@.subrange(0, pairs[k as int].1@.len() as int) =~= pairs[k as int].1@);
            assoc_insert_exec(&mut r, key, value);
        }
        k = k + 1;
    }
    r
}

fn push_params_text(out: &mut Vec<char>, qp: &Vec<(Vec<char>, Vec<char>)>)
    ensures
        final(out)@ == old(out)@ + params_text(pairs_model(qp@), 0),
{
    let ghost start = out@;
    let mut k: usize = 0;
    while k < qp.len()
        invariant
            k <= qp@.len(),
            start + params_text(pairs_model(qp@), 0) == out@ + params_text(
                pairs_model(qp@),
                k as int,
            ),
        decreases qp@.len() - k,
    {
        let ghost before = out@;
        if k > 0 {
            out.push('&');
        }
        let ek = url_encode(&qp[k].0);
        push_all(out, &ek);
        out.push('=');
        let ev = url_encode(&qp[k].1);
        push_all(out, &ev);
        assert(out@ + params_text(pairs_model(qp@), k + 1) =~= before + params_text(
            pairs_model(qp@),
            k as int,
        ));
        k = k + 1;
    }
    assert(params_text(pairs_model(qp@), k as int) =~= Seq::<char>::empty());
    assert(out@ + Seq::<char>::empty() =~= out@);
}

fn get_or_exec(pairs: &Vec<(Vec<char>, Vec<char>)>, k: &str, d: &str) -> (r: Vec<char>)
    ensures
        r@ == get_or(pairs_model(pairs@), k@, d@),
{
    match assoc_get_exec(pairs, &lit(k)) {
        Some(v) => v,
        None => lit(d),
    }
}

fn get_or_empty(pairs: &Vec<(Vec<char>, Vec<char>)>, k: &str) -> (r: Vec<char>)
    ensures
        r@ == get_or(pairs_model(pairs@), k@, Seq::empty()),
{
    match assoc_get_exec(pairs, &lit(k)) {
        Some(v) => v,
        None => Vec::new(),
    }
}

fn copy_chars(v: &Vec<char>) -> (r: Vec<char>)
    ensures
        r@ == v@,
{
    let r = sub_chars(v, 0, v.len());
    assert(v@.subrange(0, v@.len() as int) =~= v@);
    r
}

fn dsn_user_exec(pairs: &Vec<(Vec<char>, Vec<char>)>, username: &Option<Vec<char>>) -> (r: Vec<
    char,
>)
    ensures
        r@ == dsn_user(pairs_model(pairs@), opt_vec(*username)),
{
    match username {
        Some(u) => copy_chars(u),
        None => get_or_empty(pairs, "user"),
    }
}

fn dsn_password_exec(pairs: &Vec<(Vec<char>, Vec<char>)>, password: &Option<Vec<char>>) -> (r: Vec<
    char,
>)
    ensures
        r@ == dsn_password(pairs_model(pairs@), opt_vec(*password)),
{
    match password {
        Some(p) => copy_chars(p),
        None => match assoc_get_exec(pairs, &lit("password")) {
            Some(p) => p,
            None => get_or_empty(pairs, "pass"),
        },
    }
}

fn push_auth(out: &mut Vec<char>, user: &Vec<char>, pass: &Vec<char>)
    ensures
        final(out)@ == old(out)@ + auth_part(user@, pass@),
{
    if user.len() > 0 {
        push_all(out, &url_encode(user));
        if pass.len() > 0 {
            out.push(':');
            push_all(out, &url_encode(pass));
        }
        out.push('@');
    }
    assert(out@ =~= old(out)@ + auth_part(user@, pass@));
}

fn push_host_part(out: &mut Vec<char>, host: &Vec<char>, pairs: &Vec<(Vec<char>, Vec<char>)>)
    ensures
        final(out)@ == old(out)@ + host_part(host@, assoc_get(pairs_model(pairs@), "port"@)),
{
    push_all(out, host);
    match assoc_get_exec(pairs, &lit("port")) {
        Some(p) => {
            if p.len() > 0 {
                out.push(':');
                push_all(out, &p);
            }
        },
        None => {},
    }
    assert(out@ =~= old(out)@ + host_part(host@, assoc_get(pairs_model(pairs@), "port"@)));
}

fn push_path(out: &mut Vec<char>, dbname: &Vec<char>)
    ensures
        final(out)@ == old(out)@ + path_part(dbname@),
{
    if dbname.len() > 0 {
        out.push('/');
        push_all(out, &url_encode(dbname));
    }
    assert(out@ =~= old(out)@ + path_part(dbname@));
}

fn push_query(out: &mut Vec<char>, qp: &Vec<(Vec<char>, Vec<char>)>)
    ensures
        final(out)@ == old(out)@ + query_part(pairs_model(qp@)),
{
    if qp.len() > 0 {
        out.push('?');
        push_params_text(out, qp);
    }
    assert(out@ =~= old(out)@ + query_part(pairs_model(qp@)));
}

/// The view of an optional character vector.
pub open spec fn opt_vec(o: Option<Vec<char>>) -> Option<Seq<char>> {
    match o {
        Some(v) => Some(v@),
        None => None,
    }
}

fn build_sqlx_uri(
    scheme: &Vec<char>,
    pg: bool,
    mysql: bool,
    pairs: &Vec<(Vec<char>, Vec<char>)>,
    username: &Option<Vec<char>>,
    password: &Option<Vec<char>>,
) -> (r: Vec<char>)
    requires
        pg == (scheme@ == "pgsql"@),
        mysql == (scheme@ == "mysql"@),
    ensures
        r@ == sqlx_uri(scheme@, pairs_model(pairs@), opt_vec(*username), opt_vec(*password)),
{
    let host = get_or_exec(pairs, "host", "localhost");
    let mut qp = query_params(mysql, pairs);
    let socket = pg && host.len() > 0 && host[0] == '/';
    let host_base = if socket {
        assoc_insert_exec(&mut qp, lit("host"), copy_chars(&host));
        lit("localhost")
    } else {
        host
    };
    let mut out = if pg {
        lit("postgres")
    } else {
        lit("mysql")
    };
    push_all(&mut out, &lit("://"));
    push_auth(&mut out, &dsn_user_exec(pairs, username), &dsn_password_exec(pairs, password));
    push_host_part(&mut out, &host_base, pairs);
    push_path(&mut out, &get_or_empty(pairs, "dbname"));
    push_query(&mut out, &qp);
    out
}

/// Converts a PDO data source name (`mysql:host=...;dbname=...` or
/// `pgsql:...`, or a driver followed by a URI) to the driver name and the
/// URI that SQLx connects with. A user name or password given here takes
/// precedence over the one in the DSN.
pub fn pdo_dsn_to_sqlx(dsn: &str, username: Option<String>, password: Option<String>) -> (r:
    Result<SqlxTarget, DsnError>)
    ensures
        match r {
            Ok(t) => dsn_to_sqlx(dsn@, opt_chars(username), opt_chars(password)) == Ok::<
                (Seq<char>, Seq<char>),
                DsnErrorModel,
            >((t.driver@, t.uri@)),
            Err(e) => dsn_to_sqlx(dsn@, opt_chars(username), opt_chars(password)) == Err::<
                (Seq<char>, Seq<char>),
                DsnErrorModel,
            >(e@),
        },
{
    let d = str_to_chars(dsn);
    proof {
        lemma_find_from(d@, ':', 0);
    }
    let colon = match find_char_from(&d, ':', 0) {
        Some(c) => c,
        None => {
            return Err(DsnError::MissingScheme(chars_to_string(&d)));
        },
    };
    assert(colon < d.len());
    let scheme = to_lowercase(&sub_chars(&d, 0, colon));
    let pg = chars_eq(&scheme, &lit("pgsql"));
    let mysql = chars_eq(&scheme, &lit("mysql"));
    if !pg && !mysql {
        return Err(DsnError::UnsupportedDriver(chars_to_string(&scheme)));
    }
    let rest = sub_chars(&d, colon + 1, d.len());
    let pairs = parse_dsn_pairs(&rest);
    let driver = chars_to_string(&scheme);
    let uri_k = lit("__uri");
    proof {
        reveal_strlit("__uri");
        assert(uri_k@ =~= uri_key());
    }
    match assoc_get_exec(&pairs, &uri_k) {
        Some(u) => {
            let uri = if pg {
                let from = lit("pgsql://");
                proof {
                    reveal_strlit("pgsql://");
                }
                replace_chars(&u, &from, &lit("postgres://"))
            } else {
                u
            };
            Ok(SqlxTarget { driver, uri: chars_to_string(&uri) })
        },
        None => {
            let uv = opt_to_chars(&username);
            let pv = opt_to_chars(&password);
            let uri = build_sqlx_uri(&scheme, pg, mysql, &pairs, &uv, &pv);
            Ok(SqlxTarget { driver, uri: chars_to_string(&uri) })
        },
    }
}

/// Index of the first character at or after `j` that is not `c`.
pub open spec fn skip_char_from(s: Seq<char>, c: char, j: int) -> int
    decreases s.len() - j,
{
    if 0 <= j < s.len() && s[j] == c {
        skip_char_from(s, c, j + 1)
    } else {
        j
    }
}

/// A parameter key without its leading colons (as
/// `str::trim_start_matches(':')`), so that `:id`, `::id` and `id` name the
/// same parameter.
pub fn pdo_normalize_param_key(param: &str) -> (r: String)
    ensures
        r@ == normalized_key(param@),
{
    let v = str_to_chars(param);
    let mut j: usize = 0;
    while j < v.len() && v[j] == ':'
        invariant
            j <= v@.len(),
            v@ == param@,
            skip_char_from(v@, ':', 0) == skip_char_from(v@, ':', j as int),
        decreases v@.len() - j,
    {
        j = j + 1;
    }
    string_from_chars(v.as_slice(), j, v.len())
}

/// A parameter key without its leading colons.
pub open spec fn normalized_key(s: Seq<char>) -> Seq<char> {
    s.subrange(skip_char_from(s, ':', 0), s.len() as int)
}

/// A statement parameter key as PHP hands it over: a name, an integer
/// index, or a value of another type, which is left as it is.
#[derive(Debug, Clone, PartialEq)]
pub enum ParamKey {
    Name(String),
    Index(i64),
    Other,
}

/// Mathematical model of a parameter key.
pub enum ParamKeyModel {
    Name(Seq<char>),
    Index(i64),
    Other,
}

impl View for ParamKey {
    type V = ParamKeyModel;

    open spec fn view(&self) -> ParamKeyModel {
        match self {
            ParamKey::Name(s) => ParamKeyModel::Name(s@),
            ParamKey::Index(i) => ParamKeyModel::Index(*i),
            ParamKey::Other => ParamKeyModel::Other,
        }
    }
}

/// A parameter key normalized: a name loses its leading colons, any other
/// key stays as it is.
pub open spec fn normalized_param(k: ParamKeyModel) -> ParamKeyModel {
    match k {
        ParamKeyModel::Name(s) => ParamKeyModel::Name(normalized_key(s)),
        _ => k,
    }
}

/// Normalizes a parameter key: a name loses its leading colons, an index
/// or a key of another type is returned unchanged.
pub fn normalize_param(key: ParamKey) -> (r: ParamKey)
    ensures
        r@ == normalized_param(key@),
{
    match key {
        ParamKey::Name(s) => ParamKey::Name(pdo_normalize_param_key(s.as_str())),
        ParamKey::Index(i) => ParamKey::Index(i),
        ParamKey::Other => ParamKey::Other,
    }
}

proof fn lemma_skip_char_from(s: Seq<char>, c: char, j: int)
    requires
        0 <= j <= s.len(),
    ensures
        j <= skip_char_from(s, c, j) <= s.len(),
        skip_char_from(s, c, j) < s.len() ==> s[skip_char_from(s, c, j)] != c,
        forall|i: int| j <= i < skip_char_from(s, c, j) ==> s[i] == c,
    decreases s.len() - j,
{
    if j < s.len() && s[j] == c {
        lemma_skip_char_from(s, c, j + 1);
    }
}

/// Normalizing a key twice changes nothing more: a normalized key starts
/// with no colon.
pub proof fn law_normalize_idempotent(s: Seq<char>)
    ensures
        normalized_key(normalized_key(s)) == normalized_key(s),
        normalized_key(s).len() > 0 ==> normalized_key(s)[0] != ':',
{
    lemma_skip_char_from(s, ':', 0);
    let n = normalized_key(s);
    if n.len() > 0 {
        assert(n[0] == s[skip_char_from(s, ':', 0)]);
    }
    lemma_skip_char_from(n, ':', 0);
    assert(skip_char_from(n, ':', 0) == 0);
    assert(n.subrange(0, n.len() as int) =~= n);
}

/// `:id`, `::id` and `id` name the same parameter: a leading colon does not
/// change the normalized key.
pub proof fn law_leading_colon_ignored(s: Seq<char>)
    ensures
        normalized_key(seq![':'] + s) == normalized_key(s),
{
    let t = seq![':'] + s;
    assert(t[0] == ':');
    assert forall|j: int| 0 <= j <= s.len() implies #[trigger] skip_char_from(t, ':', j + 1)
        == skip_char_from(s, ':', j) + 1 by {
        lemma_skip_shift(s, j);
    }
    assert(skip_char_from(t, ':', 0) == skip_char_from(t, ':', 1));
    assert(skip_char_from(t, ':', 1) == skip_char_from(s, ':', 0) + 1);
    lemma_skip_char_from(s, ':', 0);
    assert(t.subrange(skip_char_from(t, ':', 0), t.len() as int) =~= s.subrange(
        skip_char_from(s, ':', 0),
        s.len() as int,
    ));
}

proof fn lemma_skip_shift(s: Seq<char>, j: int)
    requires
        0 <= j <= s.len(),
    ensures
        skip_char_from(seq![':'] + s, ':', j + 1) == skip_char_from(s, ':', j) + 1,
    decreases s.len() - j,
{
    let t = seq![':'] + s;
    if j < s.len() {
        assert(t[j + 1] == s[j]);
        if s[j] == ':' {
            lemma_skip_shift(s, j + 1);
        }
    }
}

/// The scheme prefix of the SQLx URI for a driver.
pub open spec fn uri_prefix(driver: Seq<char>) -> Seq<char> {
    if driver == "pgsql"@ {
        "postgres://"@
    } else {
        "mysql://"@
    }
}

/// A DSN that converts names one of the two drivers, and without an
/// explicit `uri` its SQLx URI starts with that driver's scheme:
/// `mysql://` for `mysql`, `postgres://` for `pgsql`.
pub proof fn law_dsn_driver_and_scheme(
    dsn: Seq<char>,
    username: Option<Seq<char>>,
    password: Option<Seq<char>>,
)
    ensures
        dsn_to_sqlx(dsn, username, password) matches Ok((driver, uri)) ==> {
            &&& (driver == "mysql"@ || driver == "pgsql"@)
            &&& (find_from(dsn, ':', 0) matches Some(c) && assoc_get(
                dsn_pairs(dsn.subrange(c + 1, dsn.len() as int)),
                uri_key(),
            ) is None ==> uri.len() >= uri_prefix(driver).len() && uri.take(
                uri_prefix(driver).len() as int,
            ) == uri_prefix(driver))
        },
{
    reveal_strlit("postgres");
    reveal_strlit("mysql");
    reveal_strlit("://");
    reveal_strlit("postgres://");
    reveal_strlit("mysql://");
    match find_from(dsn, ':', 0) {
        None => {},
        Some(c) => {
            let scheme = lowercase(dsn.subrange(0, c));
            if scheme == "mysql"@ || scheme == "pgsql"@ {
                let pairs = dsn_pairs(dsn.subrange(c + 1, dsn.len() as int));
                if assoc_get(pairs, uri_key()) is None {
                    let uri = sqlx_uri(scheme, pairs, username, password);
                    let head = if scheme == "pgsql"@ {
                        "postgres"@
                    } else {
                        "mysql"@
                    };
                    let p = uri_prefix(scheme);
                    assert(p =~= head + "://"@);
                    assert(uri.take(p.len() as int) =~= p);
                }
            }
        },
    }
}

/// Normalizing any parameter key twice changes nothing more: a normalized
/// name starts with no colon, and other keys are never changed.
pub proof fn law_normalize_param_idempotent(k: ParamKeyModel)
    ensures
        normalized_param(normalized_param(k)) == normalized_param(k),
        normalized_param(k) matches ParamKeyModel::Name(n) ==> (n.len() > 0 ==> n[0] != ':'),
        !(k is Name) ==> normalized_param(k) == k,
{
    if let ParamKeyModel::Name(s) = k {
        law_normalize_idempotent(s);
    }
}

proof fn lemma_first_colon(s: Seq<char>, j: int, k: int)
    requires
        0 <= j <= k < s.len(),
        s[k] == ':',
        forall|t: int| j <= t < k ==> s[t] != ':',
    ensures
        find_from(s, ':', j) == Some(k),
    decreases k - j,
{
    if j < k {
        lemma_first_colon(s, j + 1, k);
    }
}

/// When a DSN is refused: exactly when it holds no `:` (the error holds the
/// DSN), or when the text before its first `:`, lower-cased, names neither
/// `mysql` nor `pgsql` (the error holds that name).
pub proof fn law_dsn_errors(
    dsn: Seq<char>,
    username: Option<Seq<char>>,
    password: Option<Seq<char>>,
)
    ensures
        !dsn.contains(':') <==> dsn_to_sqlx(dsn, username, password) == Err::<
            (Seq<char>, Seq<char>),
            DsnErrorModel,
        >(DsnErrorModel::MissingScheme(dsn)),
        forall|c: int|
            0 <= c < dsn.len() && #[trigger] dsn[c] == ':' && !dsn.subrange(0, c).contains(':')
                ==> {
                &&& (dsn_to_sqlx(dsn, username, password) is Err <==> (lowercase(
                    dsn.subrange(0, c),
                ) != "mysql"@ && lowercase(dsn.subrange(0, c)) != "pgsql"@))
                &&& (dsn_to_sqlx(dsn, username, password) is Err ==> dsn_to_sqlx(
                    dsn,
                    username,
                    password,
                ) == Err::<(Seq<char>, Seq<char>), DsnErrorModel>(
                    DsnErrorModel::UnsupportedDriver(lowercase(dsn.subrange(0, c))),
                ))
            },
{
    lemma_find_from(dsn, ':', 0);
    if dsn.contains(':') {
        assert(find_from(dsn, ':', 0) is Some);
    }
    assert forall|c: int|
        0 <= c < dsn.len() && #[trigger] dsn[c] == ':' && !dsn.subrange(0, c).contains(
            ':',
        ) implies find_from(dsn, ':', 0) == Some(c) by {
        assert forall|t: int| 0 <= t < c implies dsn[t] != ':' by {
            if dsn[t] == ':' {
                assert(dsn.subrange(0, c)[t] == ':');
            }
        }
        lemma_first_colon(dsn, 0, c);
    }
}

/// The credentials of a converted DSN without an explicit `uri`: right
/// after the scheme the SQLx URI holds the percent-encoded user, then, when
/// there is a password, `:` and the percent-encoded password, then `@`.
/// The user is the one given, else the DSN's `user`; the password is the
/// one given, else the DSN's `password`, and its `pass` only when it has no
/// `password`.
pub proof fn law_dsn_credentials(
    dsn: Seq<char>,
    c: int,
    username: Option<Seq<char>>,
    password: Option<Seq<char>>,
)
    requires
        find_from(dsn, ':', 0) == Some(c),
        assoc_get(dsn_pairs(dsn.subrange(c + 1, dsn.len() as int)), uri_key()) is None,
        dsn_to_sqlx(dsn, username, password) is Ok,
    ensures
        ({
            let pairs = dsn_pairs(dsn.subrange(c + 1, dsn.len() as int));
            let (driver, uri) = dsn_to_sqlx(dsn, username, password)->Ok_0;
            let user = match username {
                Some(u) => u,
                None => match assoc_get(pairs, "user"@) {
                    Some(u) => u,
                    None => Seq::empty(),
                },
            };
            let pass = match password {
                Some(p) => p,
                None => match assoc_get(pairs, "password"@) {
                    Some(p) => p,
                    None => match assoc_get(pairs, "pass"@) {
                        Some(p) => p,
                        None => Seq::empty(),
                    },
                },
            };
            let start = uri_prefix(driver).len() as int;
            let with_pass = url_encoded(user) + seq![':'] + url_encoded(pass) + seq!['@'];
            let without_pass = url_encoded(user) + seq!['@'];
            &&& user.len() > 0 && pass.len() > 0 ==> uri.len() >= start + with_pass.len()
                && uri.subrange(start, start + with_pass.len()) == with_pass
            &&& user.len() > 0 && pass.len() == 0 ==> uri.len() >= start + without_pass.len()
                && uri.subrange(start, start + without_pass.len()) == without_pass
        }),
{
    reveal_strlit("postgres");
    reveal_strlit("mysql");
    reveal_strlit("://");
    reveal_strlit("postgres://");
    reveal_strlit("mysql://");
    let pairs = dsn_pairs(dsn.subrange(c + 1, dsn.len() as int));
    let scheme = lowercase(dsn.subrange(0, c));
    let uri = sqlx_uri(scheme, pairs, username, password);
    let head = if scheme == "pgsql"@ {
        "postgres"@
    } else {
        "mysql"@
    };
    let auth = auth_part(dsn_user(pairs, username), dsn_password(pairs, password));
    assert(uri_prefix(scheme) =~= head + "://"@);
    let start = uri_prefix(scheme).len() as int;
    assert(uri.subrange(start, start + auth.len()) =~= auth);
}

} // verus!
