//! The cookie jar of the HTTP client: cookies from `Set-Cookie` headers are
//! kept in a `cookie_store::CookieStore`, and the `Cookie` header of a
//! request is built from the cookies the store selects for its URL.
//!
//! Which cookies the store accepts and selects (domain and path matching,
//! expiry) is decided by the store; the jar is verified against what the
//! store promises of every outcome.

use vstd::prelude::*;
use vstd::multiset::Multiset;
use cookie::Cookie as RawCookie;
use cookie_store::CookieStore;
use url::Url;
use crate::text::{chars_to_string, push_all, str_to_chars};

verus! {

/// The cookie store of the `cookie_store` crate, opaque to proofs.
#[verifier::external_type_specification]
#[verifier::external_body]
pub struct ExCookieStore(CookieStore);

/// The `(name, value)` pairs of the cookies a store holds, one for each
/// cookie, expired ones included.
pub uninterp spec fn stored_cookies(store: CookieStore) -> Multiset<(Seq<char>, Seq<char>)>;

/// Each cookie a store holds, expired ones included, as its name, its
/// value and the debug forms (`{:?}`) of its `Domain` and `Path`
/// attributes.
pub uninterp spec fn described_cookies(store: CookieStore) -> Multiset<
    (Seq<char>, Seq<char>, Seq<char>, Seq<char>),
>;

/// The `(name, value)` pairs of the cookies of a store that never expire
/// (they had neither `Max-Age` nor `Expires`) and that
/// `CookieStore::matches` selects for a request to the URL that
/// `Url::parse` gives for `url` (by domain, path, `Secure` and `HttpOnly`);
/// none when the text does not parse.
pub uninterp spec fn session_cookies_for(store: CookieStore, url: Seq<char>) -> Multiset<
    (Seq<char>, Seq<char>),
>;

/// Whether the cookie that a `Set-Cookie` header received from `url`
/// creates in a `CookieStore` (its domain, path, `Secure` and `HttpOnly`
/// taken from the header and `url`) is one that `cookie_store::Cookie::matches`
/// selects for a request to `request_url`.
pub uninterp spec fn set_cookie_sent_to(header: Seq<char>, url: Seq<char>, request_url: Seq<char>) -> bool;

/// Whether `url::Url::parse` accepts a text.
pub uninterp spec fn url_parses(s: Seq<char>) -> bool;

/// Whether `cookie::Cookie::parse` accepts a text.
pub uninterp spec fn set_cookie_parses(s: Seq<char>) -> bool;

/// `CookieStore::default`: a store holding no cookie.
#[verifier::external_body]
fn empty_store() -> (s: CookieStore)
    ensures
        stored_cookies(s) == Multiset::<(Seq<char>, Seq<char>)>::empty(),
{
    CookieStore::default()
}

/// The `(name, value)` pair of the cookie that `cookie::Cookie::parse`
/// gives for a `Set-Cookie` header text (`Cookie::name_value`).
pub uninterp spec fn set_cookie_pair(header: Seq<char>) -> (Seq<char>, Seq<char>);

/// Whether `cookie_store` stores, at any time, the cookie of a `Set-Cookie`
/// header received from a URL: `Cookie::parse` accepts the header and
/// `Url::parse` the URL; the URL's scheme starts with `http`; the cookie
/// has neither a `Max-Age` nor an `Expires` attribute, so that it never
/// expires; and `cookie_store::Cookie::try_from_raw_cookie` accepts it for
/// the URL (a `Domain` attribute converts to ASCII and domain-matches the
/// URL's host; without one the URL has a host). Such a cookie is inserted,
/// or replaces the stored cookie of the same domain, path and name.
pub uninterp spec fn set_cookie_accepted(header: Seq<char>, url: Seq<char>) -> bool;

/// `CookieStore::insert_raw` of the cookie that `cookie::Cookie::parse`
/// gives for `header`, received from the URL that `url::Url::parse` gives
/// for `url`; nothing happens when either does not parse. By the rules of
/// RFC 6265 the store refuses the cookie (the store is unchanged), adds it,
/// replaces the stored cookie of the same domain, path and name (whose pair
/// has the same name), or, for an expired cookie, expires that stored
/// cookie (whose name and value stay). Which of these happens depends on
/// the current time for a cookie with `Max-Age` or `Expires` and is then
/// not stated; for an accepted cookie (`set_cookie_accepted`) it is added
/// or replaces one, and it is then selected, as a never-expiring cookie,
/// for each request URL it is sent to. The cookies of other names are left
/// as they are.
#[verifier::external_body]
fn store_insert_raw(store: &mut CookieStore, header: &str, url: &str)
    ensures
        !set_cookie_parses(header@) || !url_parses(url@) ==> stored_cookies(*final(store))
            == stored_cookies(*old(store)),
        stored_cookies(*final(store)) == stored_cookies(*old(store)) || cookie_stored(
            stored_cookies(*old(store)),
            stored_cookies(*final(store)),
            set_cookie_pair(header@),
        ),
        set_cookie_accepted(header@, url@) ==> cookie_stored(
            stored_cookies(*old(store)),
            stored_cookies(*final(store)),
            set_cookie_pair(header@),
        ),
        forall|r: Seq<char>|
            set_cookie_accepted(header@, url@) && set_cookie_sent_to(header@, url@, r)
                ==> #[trigger] session_cookies_for(*final(store), r).count(set_cookie_pair(header@))
                > 0,
        forall|r: Seq<char>, p: (Seq<char>, Seq<char>)|
            (!set_cookie_parses(header@) || !url_parses(url@) || p.0 != set_cookie_pair(header@).0)
                && session_cookies_for(*old(store), r).count(p) > 0 ==> #[trigger] session_cookies_for(
                *final(store),
                r,
            ).count(p) > 0,
{
    if let (Ok(u), Ok(c)) = (Url::parse(url), RawCookie::parse(header)) {
        let _ = store.insert_raw(&c, &u);
    }
}

/// The store went from `before` to `after` by storing the cookie of pair
/// `p`: added, or in place of a cookie of the same name.
pub open spec fn cookie_stored(
    before: Multiset<(Seq<char>, Seq<char>)>,
    after: Multiset<(Seq<char>, Seq<char>)>,
    p: (Seq<char>, Seq<char>),
) -> bool {
    ||| after == before.insert(p)
    ||| exists|q: (Seq<char>, Seq<char>)|
        #![trigger before.remove(q)]
        before.count(q) > 0 && q.0 == p.0 && after == before.remove(q).insert(p)
}

/// The view of a `(name, value)` pair of strings.
pub open spec fn pair_view(p: (String, String)) -> (Seq<char>, Seq<char>) {
    (p.0@, p.1@)
}

/// `CookieStore::get_request_values` for the URL that `url::Url::parse`
/// gives for `url` (no pair when it does not parse): the `(name, value)`
/// pairs of the unexpired cookies that match the URL, each the pair of a
/// different cookie of the store. Cookies with an expiry count by the
/// current time, so only this is stated: the never-expiring matching
/// cookies are all among them.
#[verifier::external_body]
fn request_values(store: &CookieStore, url: &str) -> (r: Vec<(String, String)>)
    ensures
        r@.map_values(|p: (String, String)| pair_view(p)).to_multiset().subset_of(
            stored_cookies(*store),
        ),
        session_cookies_for(*store, url@).subset_of(
            r@.map_values(|p: (String, String)| pair_view(p)).to_multiset(),
        ),
        !url_parses(url@) ==> r@.len() == 0,
{
    match Url::parse(url) {
        Ok(u) => store.get_request_values(&u).map(|(n, v)| (n.to_string(), v.to_string())).collect(),
        Err(_) => Vec::new(),
    }
}

/// What the description of a cookie shows: its name, its value, and its
/// domain and path attributes in their debug form.
pub type CookieFields = (Seq<char>, Seq<char>, Seq<char>, Seq<char>);

/// The view of the four strings that describe a cookie.
pub open spec fn fields_view(t: (String, String, String, String)) -> CookieFields {
    (t.0@, t.1@, t.2@, t.3@)
}

/// The `(name, value)` pair of a described cookie.
pub open spec fn fields_pair(f: CookieFields) -> (Seq<char>, Seq<char>) {
    (f.0, f.1)
}

/// `CookieStore::iter_any`: every cookie the store holds, expired ones
/// included, each as its name, its value and the debug forms of its domain
/// and path attributes. The pairs of name and value are those of the store;
/// the order in which the store walks its cookies is not stated.
#[verifier::external_body]
fn describe_cookies(store: &CookieStore) -> (r: Vec<(String, String, String, String)>)
    ensures
        r@.map_values(|t: (String, String, String, String)| fields_view(t)).to_multiset()
            == described_cookies(*store),
        r@.map_values(|t: (String, String, String, String)| fields_pair(fields_view(t))).to_multiset()
            == stored_cookies(*store),
{
    store.iter_any().map(
        |c| (
            c.name().to_string(),
            c.value().to_string(),
            format!("{:?}", c.domain()),
            format!("{:?}", c.path()),
        ),
    ).collect()
}

/// The description line of a cookie:
/// `name=value (domain=<domain>, path=<path>)`.
pub open spec fn describe_line(f: CookieFields) -> Seq<char> {
    f.0 + "="@ + f.1 + " (domain="@ + f.2 + ", path="@ + f.3 + ")"@
}

/// The `(name, value)` pairs of described cookies.
pub open spec fn described_pairs(fs: Seq<CookieFields>) -> Multiset<(Seq<char>, Seq<char>)> {
    fs.map_values(|f: CookieFields| fields_pair(f)).to_multiset()
}

/// The description lines of cookies, joined with line breaks.
pub open spec fn described_text(fs: Seq<CookieFields>) -> Seq<char> {
    join_lines(fs.map_values(|f: CookieFields| describe_line(f)))
}

/// The description line of a cookie from its four strings.
pub fn cookie_line(t: &(String, String, String, String)) -> (s: String)
    ensures
        s@ == describe_line(fields_view(*t)),
{
    let mut out: Vec<char> = str_to_chars(t.0.as_str());
    let eq = str_to_chars("=");
    push_all(&mut out, &eq);
    let value = str_to_chars(t.1.as_str());
    push_all(&mut out, &value);
    let d = str_to_chars(" (domain=");
    push_all(&mut out, &d);
    let domain = str_to_chars(t.2.as_str());
    push_all(&mut out, &domain);
    let p = str_to_chars(", path=");
    push_all(&mut out, &p);
    let path = str_to_chars(t.3.as_str());
    push_all(&mut out, &path);
    let close = str_to_chars(")");
    push_all(&mut out, &close);
    chars_to_string(&out)
}

/// `name=value`.
pub open spec fn cookie_entry(p: (Seq<char>, Seq<char>)) -> Seq<char> {
    p.0 + "="@ + p.1
}

/// The entries of the pairs, separated by `; `.
pub open spec fn join_entries(ps: Seq<(Seq<char>, Seq<char>)>) -> Seq<char>
    decreases ps.len(),
{
    if ps.len() == 0 {
        Seq::empty()
    } else if ps.len() == 1 {
        cookie_entry(ps[0])
    } else {
        join_entries(ps.drop_last()) + "; "@ + cookie_entry(ps.last())
    }
}

/// The value of a `Cookie` header for the pairs: none for no pair.
pub open spec fn cookie_header_spec(ps: Seq<(Seq<char>, Seq<char>)>) -> Option<Seq<char>> {
    if ps.len() == 0 {
        None
    } else {
        Some(join_entries(ps))
    }
}

/// The view of an optional string.
pub open spec fn opt_view(s: Option<String>) -> Option<Seq<char>> {
    match s {
        Some(t) => Some(t@),
        None => None,
    }
}

/// The value of a `Cookie` header for `(name, value)` pairs:
/// `name=value` entries separated by `; `, none for no pair.
pub fn cookie_header(pairs: &Vec<(String, String)>) -> (r: Option<String>)
    ensures
        opt_view(r) == cookie_header_spec(pairs@.map_values(|p: (String, String)| pair_view(p))),
{
    let ghost ps = pairs@.map_values(|p: (String, String)| pair_view(p));
    if pairs.len() == 0 {
        return None;
    }
    let mut out: Vec<char> = Vec::new();
    let mut i: usize = 0;
    while i < pairs.len()
        invariant
            ps == pairs@.map_values(|p: (String, String)| pair_view(p)),
            i <= pairs@.len(),
            pairs@.len() > 0,
            out@ == join_entries(ps.take(i as int)),
        decreases pairs@.len() - i,
    {
        if i > 0 {
            let sep = str_to_chars("; ");
            push_all(&mut out, &sep);
        }
        let name = str_to_chars(pairs[i].0.as_str());
        push_all(&mut out, &name);
        let eq = str_to_chars("=");
        push_all(&mut out, &eq);
        let value = str_to_chars(pairs[i].1.as_str());
        push_all(&mut out, &value);
        proof {
            let t = ps.take(i + 1);
            assert(t.drop_last() =~= ps.take(i as int));
            assert(t.last() == ps[i as int]);
            if i == 0 {
                assert(ps.take(0) =~= Seq::<(Seq<char>, Seq<char>)>::empty());
            }
        }
        i = i + 1;
    }
    assert(ps.take(i as int) =~= ps);
    Some(chars_to_string(&out))
}

/// The lines joined with line breaks.
pub open spec fn join_lines(lines: Seq<Seq<char>>) -> Seq<char>
    decreases lines.len(),
{
    if lines.len() == 0 {
        Seq::empty()
    } else if lines.len() == 1 {
        lines[0]
    } else {
        join_lines(lines.drop_last()) + "\n"@ + lines.last()
    }
}

/// The strings joined with line breaks.
pub fn join_with_newlines(lines: &Vec<String>) -> (s: String)
    ensures
        s@ == join_lines(lines@.map_values(|l: String| l@)),
{
    let ghost ls = lines@.map_values(|l: String| l@);
    let mut out: Vec<char> = Vec::new();
    let mut i: usize = 0;
    while i < lines.len()
        invariant
            ls == lines@.map_values(|l: String| l@),
            i <= lines@.len(),
            out@ == join_lines(ls.take(i as int)),
        decreases lines@.len() - i,
    {
        if i > 0 {
            let nl = str_to_chars("\n");
            push_all(&mut out, &nl);
        }
        let line = str_to_chars(lines[i].as_str());
        push_all(&mut out, &line);
        proof {
            let t = ls.take(i + 1);
            assert(t.drop_last() =~= ls.take(i as int));
            assert(t.last() == ls[i as int]);
            if i == 0 {
                assert(ls.take(0) =~= Seq::<Seq<char>>::empty());
            }
        }
        i = i + 1;
    }
    assert(ls.take(i as int) =~= ls);
    chars_to_string(&out)
}

/// The `(name, value)` pairs of the headers that parse as cookies.
pub open spec fn header_pairs(hs: Seq<&str>) -> Multiset<(Seq<char>, Seq<char>)>
    decreases hs.len(),
{
    if hs.len() == 0 {
        Multiset::empty()
    } else if set_cookie_parses(hs.last()@) {
        header_pairs(hs.drop_last()).insert(set_cookie_pair(hs.last()@))
    } else {
        header_pairs(hs.drop_last())
    }
}

/// Header `j` parses as a cookie named `name`.
pub open spec fn sets_name(hs: Seq<&str>, j: int, name: Seq<char>) -> bool {
    set_cookie_parses(hs[j]@) && set_cookie_pair(hs[j]@).0 == name
}

/// Some header from `from` up to `to` (excluded) parses as a cookie named
/// `name`.
pub open spec fn named_between(hs: Seq<&str>, from: int, to: int, name: Seq<char>) -> bool {
    exists|j: int| from <= j < to && #[trigger] sets_name(hs, j, name)
}

/// What holds of the jar after the first `i` headers were stored, starting
/// from `start`.
pub open spec fn jar_progress(
    start: Multiset<(Seq<char>, Seq<char>)>,
    now: Multiset<(Seq<char>, Seq<char>)>,
    hs: Seq<&str>,
    i: int,
    url: Seq<char>,
) -> bool {
    &&& now.len() <= start.len() + i
    &&& (forall|j: int| 0 <= j < i ==> !set_cookie_parses(#[trigger] hs[j]@)) ==> now == start
    &&& now.subset_of(start.add(header_pairs(hs.take(i))))
    &&& forall|k: int|
        0 <= k < i && set_cookie_accepted(#[trigger] hs[k]@, url) && !named_between(
            hs,
            k + 1,
            i,
            set_cookie_pair(hs[k]@).0,
        ) ==> now.count(set_cookie_pair(hs[k]@)) > 0
    &&& forall|p: (Seq<char>, Seq<char>)|
        #[trigger] start.count(p) > 0 && !named_between(hs, 0, i, p.0) ==> now.count(p) > 0
}

/// What holds of the cookies the store selects for request URLs after the
/// first `i` headers were stored, starting from the store `start`.
pub open spec fn sent_progress(
    start: CookieStore,
    now: CookieStore,
    hs: Seq<&str>,
    i: int,
    url: Seq<char>,
) -> bool {
    &&& forall|k: int, r: Seq<char>|
        0 <= k < i && set_cookie_accepted(hs[k]@, url) && !named_between(
            hs,
            k + 1,
            i,
            set_cookie_pair(hs[k]@).0,
        ) && set_cookie_sent_to(hs[k]@, url, r) ==> #[trigger] session_cookies_for(now, r).count(
            set_cookie_pair(hs[k]@),
        ) > 0
    &&& forall|r: Seq<char>, p: (Seq<char>, Seq<char>)|
        session_cookies_for(start, r).count(p) > 0 && !named_between(hs, 0, i, p.0)
            ==> #[trigger] session_cookies_for(now, r).count(p) > 0
}

proof fn lemma_sent_step(
    start: CookieStore,
    before: CookieStore,
    after: CookieStore,
    hs: Seq<&str>,
    i: int,
    url: Seq<char>,
)
    requires
        0 <= i < hs.len(),
        sent_progress(start, before, hs, i, url),
        forall|r: Seq<char>|
            set_cookie_accepted(hs[i]@, url) && set_cookie_sent_to(hs[i]@, url, r)
                ==> #[trigger] session_cookies_for(after, r).count(set_cookie_pair(hs[i]@)) > 0,
        forall|r: Seq<char>, p: (Seq<char>, Seq<char>)|
            (!set_cookie_parses(hs[i]@) || !url_parses(url) || p.0 != set_cookie_pair(hs[i]@).0)
                && session_cookies_for(before, r).count(p) > 0
                ==> #[trigger] session_cookies_for(after, r).count(p) > 0,
    ensures
        sent_progress(start, after, hs, i + 1, url),
{
    assert forall|k: int, r: Seq<char>|
        0 <= k < i + 1 && set_cookie_accepted(hs[k]@, url) && !named_between(
            hs,
            k + 1,
            i + 1,
            set_cookie_pair(hs[k]@).0,
        ) && set_cookie_sent_to(hs[k]@, url, r) implies #[trigger] session_cookies_for(
        after,
        r,
    ).count(set_cookie_pair(hs[k]@)) > 0 by {
        if k < i {
            let pk = set_cookie_pair(hs[k]@);
            if sets_name(hs, i, pk.0) {
                assert(named_between(hs, k + 1, i + 1, pk.0));
            }
            if named_between(hs, k + 1, i, pk.0) {
                let j = choose|j: int| k + 1 <= j < i && #[trigger] sets_name(hs, j, pk.0);
                assert(named_between(hs, k + 1, i + 1, pk.0));
            }
            assert(session_cookies_for(before, r).count(pk) > 0);
        }
    }
    assert forall|r: Seq<char>, p: (Seq<char>, Seq<char>)|
        session_cookies_for(start, r).count(p) > 0 && !named_between(hs, 0, i + 1, p.0)
            implies #[trigger] session_cookies_for(after, r).count(p) > 0 by {
        if sets_name(hs, i, p.0) {
            assert(named_between(hs, 0, i + 1, p.0));
        }
        if named_between(hs, 0, i, p.0) {
            let j = choose|j: int| 0 <= j < i && #[trigger] sets_name(hs, j, p.0);
            assert(named_between(hs, 0, i + 1, p.0));
        }
        assert(session_cookies_for(before, r).count(p) > 0);
    }
}

proof fn lemma_store_step(
    start: Multiset<(Seq<char>, Seq<char>)>,
    before: Multiset<(Seq<char>, Seq<char>)>,
    after: Multiset<(Seq<char>, Seq<char>)>,
    hs: Seq<&str>,
    i: int,
    url: Seq<char>,
)
    requires
        0 <= i < hs.len(),
        jar_progress(start, before, hs, i, url),
        !set_cookie_parses(hs[i]@) ==> after == before,
        after == before || cookie_stored(before, after, set_cookie_pair(hs[i]@)),
        set_cookie_accepted(hs[i]@, url) ==> cookie_stored(
            before,
            after,
            set_cookie_pair(hs[i]@),
        ),
    ensures
        jar_progress(start, after, hs, i + 1, url),
{
    let p = set_cookie_pair(hs[i]@);
    let hp0 = header_pairs(hs.take(i));
    let hp1 = header_pairs(hs.take(i + 1));
    assert(hs.take(i + 1).drop_last() =~= hs.take(i));
    assert(hs.take(i + 1).last() == hs[i]);
    // Each count grows by at most the pair of header `i`.
    assert(forall|v: (Seq<char>, Seq<char>)|
        #![trigger after.count(v)]
        after.count(v) <= before.count(v) + (if v == p && set_cookie_parses(hs[i]@) {
            1int
        } else {
            0int
        }));
    assert forall|v: (Seq<char>, Seq<char>)| #[trigger]
        after.count(v) <= start.add(hp1).count(v) by {
        assert(before.count(v) <= start.add(hp0).count(v));
    }
    // Counts of pairs of another name than `p` do not drop.
    assert(forall|v: (Seq<char>, Seq<char>)|
        #![trigger after.count(v)]
        (v.0 != p.0 || !set_cookie_parses(hs[i]@)) ==> after.count(v) >= before.count(v));
    if after != before {
        assert(after.len() <= before.len() + 1);
    }
    assert forall|k: int|
        0 <= k < i + 1 && set_cookie_accepted(#[trigger] hs[k]@, url) && !named_between(
            hs,
            k + 1,
            i + 1,
            set_cookie_pair(hs[k]@).0,
        ) implies after.count(set_cookie_pair(hs[k]@)) > 0 by {
        if k < i {
            let pk = set_cookie_pair(hs[k]@);
            if sets_name(hs, i, pk.0) {
                assert(named_between(hs, k + 1, i + 1, pk.0));
            }
            if named_between(hs, k + 1, i, pk.0) {
                let j = choose|j: int| k + 1 <= j < i && #[trigger] sets_name(hs, j, pk.0);
                assert(named_between(hs, k + 1, i + 1, pk.0));
            }
        }
    }
    assert forall|v: (Seq<char>, Seq<char>)|
        #[trigger] start.count(v) > 0 && !named_between(hs, 0, i + 1, v.0) implies after.count(v)
        > 0 by {
        if sets_name(hs, i, v.0) {
            assert(named_between(hs, 0, i + 1, v.0));
        }
        if named_between(hs, 0, i, v.0) {
            let j = choose|j: int| 0 <= j < i && #[trigger] sets_name(hs, j, v.0);
            assert(named_between(hs, 0, i + 1, v.0));
        }
    }
    if forall|j: int| 0 <= j < i + 1 ==> !set_cookie_parses(#[trigger] hs[j]@) {
        assert(!set_cookie_parses(hs[i]@));
    }
}

/// The cookie jar of an HTTP client.
pub struct CookieJar {
    store: CookieStore,
}

impl View for CookieJar {
    type V = Multiset<(Seq<char>, Seq<char>)>;

    closed spec fn view(&self) -> Multiset<(Seq<char>, Seq<char>)> {
        stored_cookies(self.store)
    }
}

impl CookieJar {
    /// An empty jar.
    pub fn new() -> (j: Self)
        ensures
            j@ == Multiset::<(Seq<char>, Seq<char>)>::empty(),
    {
        CookieJar { store: empty_store() }
    }

    /// The `(name, value)` pairs of the never-expiring cookies of the jar
    /// that the store selects for a request to `url`.
    pub closed spec fn sent_for(&self, url: Seq<char>) -> Multiset<(Seq<char>, Seq<char>)> {
        session_cookies_for(self.store, url)
    }

    /// The value of the `Cookie` header for a request to `url`, built from
    /// cookies of the jar that the store selects for it; none when the URL
    /// does not parse or no cookie is selected. Every never-expiring cookie
    /// selected for the URL is among them; which cookies with an expiry
    /// are depends on the current time.
    pub fn get_cookies_for_url(&self, url: &str) -> (r: Option<String>)
        ensures
            !url_parses(url@) ==> r is None,
            exists|ps: Seq<(Seq<char>, Seq<char>)>|
                #![trigger ps.to_multiset()]
                ps.to_multiset().subset_of(self@) && self.sent_for(url@).subset_of(ps.to_multiset())
                    && opt_view(r) == cookie_header_spec(ps),
    {
        let pairs = request_values(&self.store, url);
        let r = cookie_header(&pairs);
        let ghost ps = pairs@.map_values(|p: (String, String)| pair_view(p));
        assert(ps.to_multiset().subset_of(self@) && self.sent_for(url@).subset_of(ps.to_multiset())
            && opt_view(r) == cookie_header_spec(ps));
        r
    }

    /// Stores the cookies of `Set-Cookie` headers received from `url`, in
    /// order. Nothing is stored when the URL does not parse, and a header
    /// that does not parse is skipped. Each other header stores at most its
    /// own cookie, added or in place of one of the same name. The cookie of
    /// an accepted header stays unless a later header sets a cookie of the
    /// same name, and a cookie of the jar stays unless a header sets one of
    /// its name.
    pub fn store_cookies_from_response(&mut self, url: &str, set_cookie_headers: Vec<&str>)
        ensures
            !url_parses(url@) ==> final(self)@ == old(self)@,
            (forall|i: int|
                0 <= i < set_cookie_headers@.len() ==> !set_cookie_parses(
                    #[trigger] set_cookie_headers@[i]@,
                )) ==> final(self)@ == old(self)@,
            final(self)@.len() <= old(self)@.len() + set_cookie_headers@.len(),
            final(self)@.subset_of(old(self)@.add(header_pairs(set_cookie_headers@))),
            forall|k: int|
                0 <= k < set_cookie_headers@.len() && set_cookie_accepted(
                    #[trigger] set_cookie_headers@[k]@,
                    url@,
                ) && !named_between(
                    set_cookie_headers@,
                    k + 1,
                    set_cookie_headers@.len() as int,
                    set_cookie_pair(set_cookie_headers@[k]@).0,
                ) ==> final(self)@.count(set_cookie_pair(set_cookie_headers@[k]@)) > 0,
            forall|p: (Seq<char>, Seq<char>)|
                #[trigger] old(self)@.count(p) > 0 && !named_between(
                    set_cookie_headers@,
                    0,
                    set_cookie_headers@.len() as int,
                    p.0,
                ) ==> final(self)@.count(p) > 0,
            forall|k: int, r: Seq<char>|
                0 <= k < set_cookie_headers@.len() && set_cookie_accepted(
                    set_cookie_headers@[k]@,
                    url@,
                ) && !named_between(
                    set_cookie_headers@,
                    k + 1,
                    set_cookie_headers@.len() as int,
                    set_cookie_pair(set_cookie_headers@[k]@).0,
                ) && set_cookie_sent_to(set_cookie_headers@[k]@, url@, r)
                    ==> #[trigger] final(self).sent_for(r).count(
                    set_cookie_pair(set_cookie_headers@[k]@),
                ) > 0,
            forall|r: Seq<char>, p: (Seq<char>, Seq<char>)|
                old(self).sent_for(r).count(p) > 0 && !named_between(
                    set_cookie_headers@,
                    0,
                    set_cookie_headers@.len() as int,
                    p.0,
                ) ==> #[trigger] final(self).sent_for(r).count(p) > 0,
    {
        let ghost hs = set_cookie_headers@;
        let ghost start = self@;
        let ghost start_store = self.store;
        proof {
            assert(hs.take(0) =~= Seq::<&str>::empty());
            assert(start.add(header_pairs(hs.take(0))) =~= start);
        }
        let mut i: usize = 0;
        while i < set_cookie_headers.len()
            invariant
                hs == set_cookie_headers@,
                start == old(self)@,
                i <= hs.len(),
                jar_progress(start, self@, hs, i as int, url@),
                start_store == old(self).store,
                sent_progress(start_store, self.store, hs, i as int, url@),
                !url_parses(url@) ==> self@ == start,
            decreases hs.len() - i,
        {
            let header = set_cookie_headers[i];
            let ghost before = self@;
            let ghost before_store = self.store;
            store_insert_raw(&mut self.store, header, url);
            proof {
                lemma_store_step(start, before, self@, hs, i as int, url@);
                lemma_sent_step(start_store, before_store, self.store, hs, i as int, url@);
            }
            i = i + 1;
        }
        proof {
            assert(hs.take(hs.len() as int) =~= hs);
        }
    }

    /// Removes every cookie.
    pub fn clear(&mut self)
        ensures
            final(self)@ == Multiset::<(Seq<char>, Seq<char>)>::empty(),
    {
        self.store = empty_store();
    }

    /// Each cookie of the jar as its name, value, and the debug forms of
    /// its domain and path attributes.
    pub closed spec fn described(&self) -> Multiset<CookieFields> {
        described_cookies(self.store)
    }

    /// A description of every cookie of the jar, one line each, joined
    /// with line breaks: each line is `name=value (domain=.., path=..)` for
    /// a different cookie, and the lines cover the jar's cookies. Their
    /// order is the order in which the store walks its cookies.
    pub fn debug_cookies(&self) -> (s: String)
        ensures
            exists|fs: Seq<CookieFields>|
                #[trigger] described_pairs(fs) == self@ && fs.to_multiset() == self.described()
                    && s@ == described_text(fs),
    {
        let described = describe_cookies(&self.store);
        let ghost fs = described@.map_values(
            |t: (String, String, String, String)| fields_view(t),
        );
        let mut lines: Vec<String> = Vec::new();
        let mut i: usize = 0;
        while i < described.len()
            invariant
                fs == described@.map_values(|t: (String, String, String, String)| fields_view(t)),
                i <= described@.len(),
                lines@.len() == i,
                forall|k: int| 0 <= k < i ==> #[trigger] lines@[k]@ == describe_line(fs[k]),
            decreases described@.len() - i,
        {
            let line = cookie_line(&described[i]);
            lines.push(line);
            i = i + 1;
        }
        let s = join_with_newlines(&lines);
        proof {
            assert(lines@.map_values(|l: String| l@) =~= fs.map_values(
                |f: CookieFields| describe_line(f),
            ));
            assert(fs.map_values(|f: CookieFields| fields_pair(f)) =~= described@.map_values(
                |t: (String, String, String, String)| fields_pair(fields_view(t)),
            ));
            assert(described_pairs(fs) == self@ && fs.to_multiset() == self.described() && s@
                == described_text(fs));
        }
        s
    }
}

impl Default for CookieJar {
    fn default() -> (j: Self)
        ensures
            j@ == Multiset::<(Seq<char>, Seq<char>)>::empty(),
    {
        Self::new()
    }
}

/// An empty jar (a new or a cleared one) sends no `Cookie` header: the
/// only pairs it can select are none.
pub proof fn law_empty_jar_sends_no_cookie(ps: Seq<(Seq<char>, Seq<char>)>)
    requires
        ps.to_multiset().subset_of(Multiset::<(Seq<char>, Seq<char>)>::empty()),
    ensures
        cookie_header_spec(ps) is None,
{
    broadcast use vstd::seq_lib::group_to_multiset_ensures;

    if ps.len() > 0 {
        assert(ps.contains(ps[0]));
        assert(ps.to_multiset().count(ps[0]) > 0);
    }
}

/// A header is sent exactly when some cookie was selected, and then it
/// names each selected cookie as `name=value`, in order.
pub proof fn law_header_lists_selected_cookies(ps: Seq<(Seq<char>, Seq<char>)>)
    requires
        ps.len() > 0,
    ensures
        cookie_header_spec(ps) == Some(join_entries(ps)),
        ps.len() == 1 ==> join_entries(ps) == ps[0].0 + "="@ + ps[0].1,
{
}

/// A stored cookie comes back: when the pairs a `Cookie` header is built
/// from include the never-expiring cookies selected for the URL, and the
/// cookie of an accepted header is among those, the header is sent and
/// lists that cookie.
pub proof fn law_selected_cookie_is_sent(
    selected: Multiset<(Seq<char>, Seq<char>)>,
    ps: Seq<(Seq<char>, Seq<char>)>,
    p: (Seq<char>, Seq<char>),
)
    requires
        selected.count(p) > 0,
        selected.subset_of(ps.to_multiset()),
    ensures
        ps.contains(p),
        cookie_header_spec(ps) == Some(join_entries(ps)),
{
    broadcast use vstd::seq_lib::group_to_multiset_ensures;

    assert(ps.to_multiset().count(p) > 0);
}

} // verus!
