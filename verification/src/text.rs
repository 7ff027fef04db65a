//! Character-level helpers shared by the text processing of the library:
//! conversions between strings and character vectors, Unicode character
//! classes, UTF-8 byte lengths and decimal rendering.

use vstd::prelude::*;
use vstd::utf8::*;

verus! {

broadcast use vstd::string::group_string_axioms;

/// The characters of `s`, in order.
pub fn str_to_chars(s: &str) -> (v: Vec<char>)
    ensures
        v@ == s@,
{
    let mut v: Vec<char> = Vec::new();
    for c in it: s.chars()
        invariant
            it.seq() == s@,
            v@ == s@.take(it.index() as int),
    {
        v.push(c);
    }
    assert(v@ =~= s@);
    v
}

/// Collects `v[start..end]` into a new `String`
/// (`Iterator::collect` into `String` from the standard library).
#[verifier::external_body]
pub(crate) fn string_from_chars(v: &[char], start: usize, end: usize) -> (s: String)
    requires
        start <= end <= v@.len(),
    ensures
        s@ == v@.subrange(start as int, end as int),
{
    v[start..end].iter().collect()
}

/// What `char::is_alphanumeric` answers for `c` (Unicode `Alphabetic` or
/// `Numeric`).
pub uninterp spec fn char_is_alphanumeric(c: char) -> bool;

/// What `char::is_alphabetic` answers for `c` (Unicode `Alphabetic`).
pub uninterp spec fn char_is_alphabetic(c: char) -> bool;

/// An ASCII letter.
pub open spec fn is_ascii_letter(c: char) -> bool {
    ('a' <= c && c <= 'z') || ('A' <= c && c <= 'Z')
}

/// An ASCII decimal digit.
pub open spec fn is_ascii_digit(c: char) -> bool {
    '0' <= c && c <= '9'
}

/// `char::is_alphanumeric` from the standard library. Its result is named
/// by `char_is_alphanumeric`; on ASCII characters the Unicode classes are the
/// ASCII letters and digits.
#[verifier::external_body]
pub(crate) fn is_alphanumeric(c: char) -> (r: bool)
    ensures
        r == char_is_alphanumeric(c),
        (c as u32) < 0x80 ==> (r <==> (is_ascii_letter(c) || is_ascii_digit(c))),
{
    c.is_alphanumeric()
}

/// `char::is_alphabetic` from the standard library. Its result is named by
/// `char_is_alphabetic`; on ASCII characters the Unicode class `Alphabetic`
/// is the ASCII letters.
#[verifier::external_body]
pub(crate) fn is_alphabetic(c: char) -> (r: bool)
    ensures
        r == char_is_alphabetic(c),
        (c as u32) < 0x80 ==> (r <==> is_ascii_letter(c)),
{
    c.is_alphabetic()
}

/// Number of bytes in the UTF-8 encoding of `s`.
pub open spec fn utf8_len(s: Seq<char>) -> nat {
    encode_utf8(s).len()
}

/// Number of bytes in the UTF-8 encoding of the single character `c`.
pub open spec fn char_utf8_width(c: char) -> nat {
    if (c as u32) <= 0x7F {
        1
    } else if (c as u32) <= 0x7FF {
        2
    } else if (c as u32) <= 0xFFFF {
        3
    } else {
        4
    }
}

proof fn lemma_encode_scalar_len(c: char)
    ensures
        encode_scalar(c as u32).len() == char_utf8_width(c),
{
    vstd::utf8::char_is_scalar(c);
}

/// UTF-8 encoding distributes over concatenation.
pub proof fn lemma_encode_utf8_concat(a: Seq<char>, b: Seq<char>)
    ensures
        encode_utf8(a + b) == encode_utf8(a) + encode_utf8(b),
    decreases a.len(),
{
    if a.len() == 0 {
        assert(a + b =~= b);
        assert(encode_utf8(a) =~= Seq::<u8>::empty());
        assert(encode_utf8(a) + encode_utf8(b) =~= encode_utf8(b));
    } else {
        assert((a + b).drop_first() =~= a.drop_first() + b);
        assert((a + b)[0] == a[0]);
        lemma_encode_utf8_concat(a.drop_first(), b);
        assert(encode_utf8(a + b) =~= encode_scalar(a[0] as u32) + (encode_utf8(a.drop_first())
            + encode_utf8(b)));
    }
}

/// The UTF-8 length of a concatenation is the sum of the lengths.
pub proof fn lemma_utf8_len_concat(a: Seq<char>, b: Seq<char>)
    ensures
        utf8_len(a + b) == utf8_len(a) + utf8_len(b),
{
    lemma_encode_utf8_concat(a, b);
}

/// The UTF-8 length of one character.
pub proof fn lemma_utf8_len_single(c: char)
    ensures
        utf8_len(seq![c]) == char_utf8_width(c),
{
    lemma_encode_scalar_len(c);
    assert(seq![c].drop_first() =~= Seq::<char>::empty());
    assert(encode_utf8(seq![c]) =~= encode_scalar(c as u32) + encode_utf8(Seq::<char>::empty()));
}

/// The UTF-8 length of a sequence lies between its length and four times
/// its length.
pub proof fn lemma_utf8_len_bound(s: Seq<char>)
    ensures
        s.len() <= utf8_len(s) <= 4 * s.len(),
    decreases s.len(),
{
    if s.len() > 0 {
        lemma_utf8_len_bound(s.drop_first());
        lemma_encode_scalar_len(s[0]);
    }
}

/// `char::len_utf8` from the standard library, computed from the code point.
pub fn char_len_utf8(c: char) -> (n: usize)
    ensures
        n == char_utf8_width(c),
{
    let v = c as u32;
    if v <= 0x7F {
        1
    } else if v <= 0x7FF {
        2
    } else if v <= 0xFFFF {
        3
    } else {
        4
    }
}

/// The decimal digit character for `d < 10`.
pub open spec fn digit_char(d: nat) -> char {
    ((48 + d) as u8) as char
}

/// Decimal rendering of a natural number, most significant digit first,
/// without leading zeros.
pub open spec fn decimal(n: nat) -> Seq<char>
    decreases n,
{
    if n < 10 {
        seq![digit_char(n)]
    } else {
        decimal(n / 10).push(digit_char(n % 10))
    }
}

/// Powers of ten.
pub open spec fn pow10(k: nat) -> nat
    decreases k,
{
    if k == 0 {
        1
    } else {
        10 * pow10((k - 1) as nat)
    }
}

/// A number below `10^k` has at most `k` decimal digits.
pub proof fn lemma_decimal_len(n: nat, k: nat)
    requires
        k >= 1,
        n < pow10(k),
    ensures
        decimal(n).len() <= k,
    decreases n,
{
    if n >= 10 {
        assert(k >= 2) by {
            if k == 1 {
                assert(pow10(1) == 10 * pow10(0));
            }
        }
        let p = pow10((k - 1) as nat);
        assert(pow10(k) == 10 * p);
        assert(n / 10 < p) by (nonlinear_arith)
            requires
                n < 10 * p,
        ;
        lemma_decimal_len(n / 10, (k - 1) as nat);
    }
}

/// The decimal digits of a machine word fit in twenty characters.
pub proof fn lemma_decimal_len_usize(n: usize)
    ensures
        decimal(n as nat).len() <= 20,
{
    assert(pow10(20) == 100000000000000000000) by {
        reveal_with_fuel(pow10, 21);
    }
    lemma_decimal_len(n as nat, 20);
}

proof fn lemma_digit_char(d: nat)
    requires
        d < 10,
    ensures
        (digit_char(d) as u32) == 48 + d,
{
    let b = (48 + d) as u8;
    assert(b as u32 == 48 + d);
    assert((b as char) as u32 == b as u32);
}

/// Every decimal digit is a one-byte character.
pub proof fn lemma_decimal_utf8_len(n: nat)
    ensures
        utf8_len(decimal(n)) == decimal(n).len(),
    decreases n,
{
    lemma_digit_char(n % 10);
    lemma_utf8_len_single(digit_char(n % 10));
    if n >= 10 {
        lemma_decimal_utf8_len(n / 10);
        lemma_utf8_len_concat(decimal(n / 10), seq![digit_char(n % 10)]);
        assert(decimal(n) =~= decimal(n / 10) + seq![digit_char(n % 10)]);
    } else {
        assert(decimal(n) =~= seq![digit_char(n % 10)]);
    }
}

/// Appends the decimal rendering of `n` to `out`.
pub fn push_decimal(out: &mut Vec<char>, n: usize)
    ensures
        final(out)@ == old(out)@ + decimal(n as nat),
    decreases n,
{
    if n >= 10 {
        push_decimal(out, n / 10);
    }
    let d = (n % 10) as u8;
    out.push((48u8 + d) as char);
    proof {
        if n >= 10 {
            assert(decimal(n as nat) == decimal((n / 10) as nat).push(digit_char((n % 10) as nat)));
        }
    }
    assert(out@ =~= old(out)@ + decimal(n as nat));
}

// ---------------------------------------------------------------------------
// Searching, slicing, trimming and splitting character sequences.
// ---------------------------------------------------------------------------

/// First index at or after `j` where `c` occurs.
pub open spec fn find_from(s: Seq<char>, c: char, j: int) -> Option<int>
    decreases s.len() - j,
{
    if j < 0 || j >= s.len() {
        None
    } else if s[j] == c {
        Some(j)
    } else {
        find_from(s, c, j + 1)
    }
}

pub proof fn lemma_find_from(s: Seq<char>, c: char, j: int)
    ensures
        find_from(s, c, j) matches Some(r) ==> j <= r < s.len() && s[r] == c,
        find_from(s, c, j) is None && 0 <= j ==> forall|t: int| j <= t < s.len() ==> s[t] != c,
    decreases s.len() - j,
{
    if 0 <= j < s.len() && s[j] != c {
        lemma_find_from(s, c, j + 1);
    }
}

/// Index of the first `c` at or after `j`.
pub fn find_char_from(v: &Vec<char>, c: char, j: usize) -> (r: Option<usize>)
    requires
        j <= v@.len(),
    ensures
        opt_usize(r) == find_from(v@, c, j as int),
{
    let mut k = j;
    while k < v.len()
        invariant
            j <= k <= v@.len(),
            find_from(v@, c, j as int) == find_from(v@, c, k as int),
        decreases v@.len() - k,
    {
        if v[k] == c {
            return Some(k);
        }
        k = k + 1;
    }
    None
}

/// An optional machine index seen as an optional integer.
pub open spec fn opt_usize(r: Option<usize>) -> Option<int> {
    match r {
        Some(x) => Some(x as int),
        None => None,
    }
}

/// A copy of `v[a..b]`.
pub fn sub_chars(v: &Vec<char>, a: usize, b: usize) -> (r: Vec<char>)
    requires
        a <= b <= v@.len(),
    ensures
        r@ == v@.subrange(a as int, b as int),
{
    let mut r: Vec<char> = Vec::new();
    let mut k = a;
    while k < b
        invariant
            a <= k <= b <= v@.len(),
            r@ == v@.subrange(a as int, k as int),
        decreases b - k,
    {
        r.push(v[k]);
        k = k + 1;
        assert(r@ =~= v@.subrange(a as int, k as int));
    }
    r
}

/// Appends a copy of `x` to `out`.
pub fn push_all(out: &mut Vec<char>, x: &Vec<char>)
    ensures
        final(out)@ == old(out)@ + x@,
{
    let mut tail = sub_chars(x, 0, x.len());
    assert(tail@ =~= x@);
    out.append(&mut tail);
}

/// `a` and `b` hold the same characters.
pub fn chars_eq(a: &Vec<char>, b: &Vec<char>) -> (r: bool)
    ensures
        r == (a@ == b@),
{
    if a.len() != b.len() {
        return false;
    }
    let mut k: usize = 0;
    while k < a.len()
        invariant
            a@.len() == b@.len(),
            k <= a@.len(),
            a@.take(k as int) == b@.take(k as int),
        decreases a@.len() - k,
    {
        if a[k] != b[k] {
            return false;
        }
        assert(a@.take(k + 1) =~= a@.take(k as int).push(a@[k as int]));
        assert(b@.take(k + 1) =~= b@.take(k as int).push(b@[k as int]));
        k = k + 1;
    }
    assert(a@ =~= a@.take(k as int));
    assert(b@ =~= b@.take(k as int));
    true
}

/// What `char::is_whitespace` answers for `c` (Unicode `White_Space`).
pub uninterp spec fn char_is_whitespace(c: char) -> bool;

/// `char::is_whitespace` from the standard library. Its result is named by
/// `char_is_whitespace`; the ASCII characters with the Unicode `White_Space`
/// property are tab, line feed, vertical tab, form feed, carriage return and
/// space.
#[verifier::external_body]
pub(crate) fn is_whitespace(c: char) -> (r: bool)
    ensures
        r == char_is_whitespace(c),
        (c as u32) < 0x80 ==> (r <==> ((9 <= (c as u32) <= 13) || (c as u32) == 32)),
{
    c.is_whitespace()
}

/// Index of the first non-whitespace character at or after `j`.
pub open spec fn lead_ws_end(s: Seq<char>, j: int) -> int
    decreases s.len() - j,
{
    if 0 <= j < s.len() && char_is_whitespace(s[j]) {
        lead_ws_end(s, j + 1)
    } else {
        j
    }
}

/// One past the last non-whitespace character before `j`.
pub open spec fn trail_ws_start(s: Seq<char>, j: int) -> int
    decreases j,
{
    if 0 < j <= s.len() && char_is_whitespace(s[j - 1]) {
        trail_ws_start(s, j - 1)
    } else {
        j
    }
}

/// `s` without leading and trailing whitespace (as `str::trim`).
pub open spec fn trim(s: Seq<char>) -> Seq<char> {
    let a = lead_ws_end(s, 0);
    let b = trail_ws_start(s, s.len() as int);
    if a < b {
        s.subrange(a, b)
    } else {
        Seq::empty()
    }
}

proof fn lemma_lead_ws_end(s: Seq<char>, j: int)
    requires
        0 <= j <= s.len(),
    ensures
        j <= lead_ws_end(s, j) <= s.len(),
        lead_ws_end(s, j) < s.len() ==> !char_is_whitespace(s[lead_ws_end(s, j)]),
    decreases s.len() - j,
{
    if j < s.len() && char_is_whitespace(s[j]) {
        lemma_lead_ws_end(s, j + 1);
    }
}

proof fn lemma_trail_ws_start(s: Seq<char>, j: int)
    requires
        0 <= j <= s.len(),
    ensures
        0 <= trail_ws_start(s, j) <= j,
        trail_ws_start(s, j) > 0 ==> !char_is_whitespace(s[trail_ws_start(s, j) - 1]),
    decreases j,
{
    if 0 < j && char_is_whitespace(s[j - 1]) {
        lemma_trail_ws_start(s, j - 1);
    }
}

/// `v[a..b]` with surrounding whitespace removed.
pub fn trim_chars(v: &Vec<char>, a: usize, b: usize) -> (r: Vec<char>)
    requires
        a <= b <= v@.len(),
    ensures
        r@ == trim(v@.subrange(a as int, b as int)),
{
    let ghost s = v@.subrange(a as int, b as int);
    let mut x = a;
    while x < b && is_whitespace(v[x])
        invariant
            a <= x <= b <= v@.len(),
            s == v@.subrange(a as int, b as int),
            lead_ws_end(s, 0) == lead_ws_end(s, x - a),
        decreases b - x,
    {
        x = x + 1;
    }
    let mut y = b;
    while y > x && is_whitespace(v[y - 1])
        invariant
            a <= x <= y <= b <= v@.len(),
            s == v@.subrange(a as int, b as int),
            trail_ws_start(s, s.len() as int) == trail_ws_start(s, y - a),
            x < b ==> !char_is_whitespace(v@[x as int]),
            x < b ==> y > x,
        decreases y,
    {
        y = y - 1;
    }
    proof {
        lemma_lead_ws_end(s, 0);
        lemma_trail_ws_start(s, s.len() as int);
        lemma_trail_ws_start(s, y - a);
    }
    let r = sub_chars(v, x, y);
    proof {
        if x < y {
            assert(s[y - a - 1] == v@[y - 1]);
            assert(trail_ws_start(s, y - a) == y - a);
            assert(r@ =~= s.subrange(x - a, y - a));
        } else {
            assert(x == b);
            assert(lead_ws_end(s, 0) == s.len());
            assert(r@ =~= Seq::<char>::empty());
        }
    }
    r
}

/// Pieces of `s` from `start` on, separated by `c` (as `str::split`).
pub open spec fn split_from(s: Seq<char>, c: char, start: int) -> Seq<Seq<char>>
    decreases s.len() - start,
{
    if start < 0 || start > s.len() {
        Seq::empty()
    } else if find_from(s, c, start) is Some && start <= find_from(s, c, start)->0 < s.len() {
        let i = find_from(s, c, start)->0;
        seq![s.subrange(start, i)] + split_from(s, c, i + 1)
    } else {
        seq![s.subrange(start, s.len() as int)]
    }
}

/// The views of a vector of character vectors.
pub open spec fn chars_model(v: Seq<Vec<char>>) -> Seq<Seq<char>> {
    v.map_values(|x: Vec<char>| x@)
}

/// `v` split at every `c`, as `str::split` splits.
pub fn split_chars(v: &Vec<char>, c: char) -> (r: Vec<Vec<char>>)
    ensures
        chars_model(r@) == split_from(v@, c, 0),
{
    let mut r: Vec<Vec<char>> = Vec::new();
    let mut start: usize = 0;
    loop
        invariant
            start <= v@.len(),
            split_from(v@, c, 0) == chars_model(r@) + split_from(v@, c, start as int),
        decreases v@.len() - start,
    {
        let ghost before = chars_model(r@);
        proof {
            lemma_find_from(v@, c, start as int);
        }
        match find_char_from(v, c, start) {
            Some(i) => {
                assert(i < v.len());
                let piece = sub_chars(v, start, i);
                r.push(piece);
                assert(chars_model(r@) =~= before.push(piece@));
                assert(split_from(v@, c, start as int) == seq![piece@] + split_from(
                    v@,
                    c,
                    i + 1,
                ));
                assert(chars_model(r@) + split_from(v@, c, i + 1) =~= before + split_from(
                    v@,
                    c,
                    start as int,
                ));
                start = i + 1;
            },
            None => {
                let piece = sub_chars(v, start, v.len());
                r.push(piece);
                assert(chars_model(r@) =~= before.push(piece@));
                assert(split_from(v@, c, start as int) == seq![piece@]);
                assert(chars_model(r@) =~= before + split_from(v@, c, start as int));
                return r;
            },
        }
    }
}

/// `pat` occurs in `s` at `j`.
pub open spec fn occurs_at(s: Seq<char>, pat: Seq<char>, j: int) -> bool {
    0 <= j && j + pat.len() <= s.len() && s.subrange(j, j + pat.len()) == pat
}

/// `pat` occurs in `s` at or after `j`.
pub open spec fn occurs_from(s: Seq<char>, pat: Seq<char>, j: int) -> bool
    decreases s.len() - j,
{
    if j < 0 || j >= s.len() {
        false
    } else {
        occurs_at(s, pat, j) || occurs_from(s, pat, j + 1)
    }
}

fn occurs_at_exec(v: &Vec<char>, pat: &Vec<char>, j: usize) -> (r: bool)
    requires
        j <= v@.len(),
    ensures
        r == occurs_at(v@, pat@, j as int),
{
    if pat.len() > v.len() - j {
        return false;
    }
    let piece = sub_chars(v, j, j + pat.len());
    chars_eq(&piece, pat)
}

/// `pat` occurs somewhere in `v` (as `str::contains` for a non-empty pattern).
pub fn contains_chars(v: &Vec<char>, pat: &Vec<char>) -> (r: bool)
    ensures
        r == occurs_from(v@, pat@, 0),
{
    let mut j: usize = 0;
    while j < v.len()
        invariant
            j <= v@.len(),
            occurs_from(v@, pat@, 0) == occurs_from(v@, pat@, j as int),
        decreases v@.len() - j,
    {
        if occurs_at_exec(v, pat, j) {
            return true;
        }
        j = j + 1;
    }
    false
}

/// `s` from `j` on with every occurrence of `from` replaced by `to`, matches
/// taken left to right without overlap (as `str::replace`).
pub open spec fn replace_from(s: Seq<char>, from: Seq<char>, to: Seq<char>, j: int) -> Seq<char>
    decreases s.len() - j,
{
    if j < 0 || j >= s.len() || from.len() == 0 {
        if 0 <= j <= s.len() {
            s.subrange(j, s.len() as int)
        } else {
            Seq::empty()
        }
    } else if occurs_at(s, from, j) {
        to + replace_from(s, from, to, j + from.len())
    } else {
        seq![s[j]] + replace_from(s, from, to, j + 1)
    }
}

/// `v` with every occurrence of the non-empty `from` replaced by `to`.
pub fn replace_chars(v: &Vec<char>, from: &Vec<char>, to: &Vec<char>) -> (r: Vec<char>)
    requires
        from@.len() > 0,
    ensures
        r@ == replace_from(v@, from@, to@, 0),
{
    let mut r: Vec<char> = Vec::new();
    let mut j: usize = 0;
    while j < v.len()
        invariant
            j <= v@.len(),
            from@.len() > 0,
            replace_from(v@, from@, to@, 0) == r@ + replace_from(v@, from@, to@, j as int),
        decreases v@.len() - j,
    {
        let ghost before = r@;
        if occurs_at_exec(v, from, j) {
            push_all(&mut r, to);
            assert(r@ + replace_from(v@, from@, to@, j + from@.len()) =~= before + replace_from(
                v@,
                from@,
                to@,
                j as int,
            ));
            j = j + from.len();
        } else {
            r.push(v[j]);
            assert(r@ + replace_from(v@, from@, to@, j + 1) =~= before + replace_from(
                v@,
                from@,
                to@,
                j as int,
            ));
            j = j + 1;
        }
    }
    assert(replace_from(v@, from@, to@, j as int) =~= Seq::<char>::empty());
    assert(r@ + Seq::<char>::empty() =~= r@);
    r
}

/// What `str::to_lowercase` gives for `s` (Unicode lowercase mapping).
pub uninterp spec fn lowercase(s: Seq<char>) -> Seq<char>;

/// ASCII upper-case letters mapped to lower case, other characters kept.
pub open spec fn ascii_lower(c: char) -> char {
    if 'A' <= c && c <= 'Z' {
        ((c as u32) + 32) as char
    } else {
        c
    }
}

/// All characters of `s` are ASCII.
pub open spec fn all_ascii(s: Seq<char>) -> bool {
    forall|j: int| 0 <= j < s.len() ==> (s[j] as u32) < 0x80
}

/// `str::to_lowercase` from the standard library, on the characters of
/// `v`. Its result is named by `lowercase`; on ASCII text it maps `A`-`Z`
/// to `a`-`z` and keeps every other character.
#[verifier::external_body]
pub(crate) fn to_lowercase(v: &Vec<char>) -> (r: Vec<char>)
    ensures
        r@ == lowercase(v@),
        all_ascii(v@) ==> r@ == v@.map_values(|c: char| ascii_lower(c)),
{
    v.iter().collect::<String>().to_lowercase().chars().collect()
}

/// Decimal rendering of an integer, with a leading `-` when negative.
pub open spec fn signed_decimal(i: int) -> Seq<char> {
    if i < 0 {
        seq!['-'] + decimal((-i) as nat)
    } else {
        decimal(i as nat)
    }
}

/// Appends the decimal rendering of `v` to `out` (as `i64`'s `Display`).
pub fn push_signed_decimal(out: &mut Vec<char>, v: i64)
    ensures
        final(out)@ == old(out)@ + signed_decimal(v as int),
{
    if v < 0 {
        out.push('-');
        let magnitude: u64 = if v == i64::MIN {
            9223372036854775808u64
        } else {
            (-v) as u64
        };
        let mut digits: Vec<char> = Vec::new();
        push_u64_decimal(&mut digits, magnitude);
        push_all(out, &digits);
        assert(out@ =~= old(out)@ + signed_decimal(v as int));
    } else {
        let mut digits: Vec<char> = Vec::new();
        push_u64_decimal(&mut digits, v as u64);
        push_all(out, &digits);
        assert(out@ =~= old(out)@ + signed_decimal(v as int));
    }
}

/// Appends the decimal rendering of `n` to `out`.
pub fn push_u64_decimal(out: &mut Vec<char>, n: u64)
    ensures
        final(out)@ == old(out)@ + decimal(n as nat),
    decreases n,
{
    if n >= 10 {
        push_u64_decimal(out, n / 10);
    }
    let d = (n % 10) as u8;
    out.push((48u8 + d) as char);
    proof {
        if n >= 10 {
            assert(decimal(n as nat) == decimal((n / 10) as nat).push(digit_char((n % 10) as nat)));
        }
    }
    assert(out@ =~= old(out)@ + decimal(n as nat));
}

/// A `String` holding the characters of `v`.
pub fn chars_to_string(v: &Vec<char>) -> (s: String)
    ensures
        s@ == v@,
{
    let s = string_from_chars(v.as_slice(), 0, v.len());
    assert(v@.subrange(0, v@.len() as int) =~= v@);
    s
}

} // verus!
