//! Values of the HTTP `Authorization` header.

use base64::Engine;
use vstd::prelude::*;
use vstd::string::*;
use vstd::utf8::encode_utf8;

verus! {

/// The text that opens a Bearer authorization header value.
pub open spec fn bearer_prefix() -> Seq<char> {
    seq!['B', 'e', 'a', 'r', 'e', 'r', ' ']
}

/// The text that opens a Basic authorization header value.
pub open spec fn basic_prefix() -> Seq<char> {
    seq!['B', 'a', 's', 'i', 'c', ' ']
}

/// The character of a base64 digit (standard alphabet: `A`-`Z`, `a`-`z`,
/// `0`-`9`, `+`, `/`).
pub open spec fn base64_digit(n: int) -> char {
    if n < 26 {
        (65 + n) as char
    } else if n < 52 {
        (97 + n - 26) as char
    } else if n < 62 {
        (48 + n - 52) as char
    } else if n == 62 {
        '+'
    } else {
        '/'
    }
}

/// Standard base64 with padding: every group of three bytes becomes four
/// digits of six bits each, and a last group of one or two bytes is padded
/// with `=` to four characters.
pub open spec fn base64_spec(b: Seq<u8>) -> Seq<char>
    decreases b.len(),
{
    if b.len() == 0 {
        Seq::empty()
    } else if b.len() == 1 {
        seq![base64_digit((b[0] as int) / 4), base64_digit(((b[0] as int) % 4) * 16), '=', '=']
    } else if b.len() == 2 {
        seq![
            base64_digit((b[0] as int) / 4),
            base64_digit(((b[0] as int) % 4) * 16 + (b[1] as int) / 16),
            base64_digit(((b[1] as int) % 16) * 4),
            '=',
        ]
    } else {
        seq![
            base64_digit((b[0] as int) / 4),
            base64_digit(((b[0] as int) % 4) * 16 + (b[1] as int) / 16),
            base64_digit(((b[1] as int) % 16) * 4 + (b[2] as int) / 64),
            base64_digit((b[2] as int) % 64),
        ] + base64_spec(b.skip(3))
    }
}

/// Length of the padded base64 encoding of `n` bytes.
pub open spec fn base64_len(n: nat) -> nat {
    4 * ((n + 2) / 3)
}

/// `base64::engine::general_purpose::STANDARD.encode` from the `base64`
/// crate: standard base64 with padding, as `base64_spec` states it. The
/// crate panics when the encoded length overflows `usize`, which
/// `requires` rules out.
#[verifier::external_body]
fn base64_encode(bytes: &[u8]) -> (r: String)
    requires
        base64_len(bytes@.len()) <= usize::MAX,
    ensures
        r@ == base64_spec(bytes@),
{
    base64::engine::general_purpose::STANDARD.encode(bytes)
}

/// The encoding is four characters for every started group of three bytes.
pub proof fn law_base64_len(b: Seq<u8>)
    ensures
        base64_spec(b).len() == base64_len(b.len()),
    decreases b.len(),
{
    if b.len() > 2 {
        law_base64_len(b.skip(3));
    }
}

/// The six-bit value of a base64 digit (0 for a character outside the
/// alphabet).
pub open spec fn base64_value(c: char) -> int {
    if 'A' <= c <= 'Z' {
        c as int - 65
    } else if 'a' <= c <= 'z' {
        c as int - 97 + 26
    } else if '0' <= c <= '9' {
        c as int - 48 + 52
    } else if c == '+' {
        62
    } else if c == '/' {
        63
    } else {
        0
    }
}

/// A character of the standard base64 alphabet.
pub open spec fn is_base64_digit(c: char) -> bool {
    ('A' <= c <= 'Z') || ('a' <= c <= 'z') || ('0' <= c <= '9') || c == '+' || c == '/'
}

/// Decoding of padded standard base64: each group of four characters gives
/// three bytes, two when it ends in one `=`, one when it ends in `==`.
pub open spec fn base64_decode(s: Seq<char>) -> Seq<u8>
    decreases s.len(),
{
    if s.len() < 4 {
        Seq::empty()
    } else {
        let v0 = base64_value(s[0]);
        let v1 = base64_value(s[1]);
        let v2 = base64_value(s[2]);
        let v3 = base64_value(s[3]);
        let b0 = (v0 * 4 + v1 / 16) as u8;
        let b1 = ((v1 % 16) * 16 + v2 / 4) as u8;
        let b2 = ((v2 % 4) * 64 + v3) as u8;
        (if s[2] == '=' {
            seq![b0]
        } else if s[3] == '=' {
            seq![b0, b1]
        } else {
            seq![b0, b1, b2]
        }) + base64_decode(s.skip(4))
    }
}

proof fn lemma_digit(n: int)
    requires
        0 <= n < 64,
    ensures
        is_base64_digit(base64_digit(n)),
        base64_value(base64_digit(n)) == n,
{
}

proof fn lemma_group(b0: u8, b1: u8, b2: u8)
    ensures
        (b0 as int) / 4 * 4 + ((b0 as int) % 4 * 16 + (b1 as int) / 16) / 16 == b0,
        ((b0 as int) % 4 * 16 + (b1 as int) / 16) % 16 * 16 + ((b1 as int) % 16 * 4 + (b2 as int)
            / 64) / 4 == b1,
        ((b1 as int) % 16 * 4 + (b2 as int) / 64) % 4 * 64 + (b2 as int) % 64 == b2,
        (b0 as int) / 4 * 4 + ((b0 as int) % 4 * 16) / 16 == b0,
        ((b0 as int) % 4 * 16 + (b1 as int) / 16) % 16 * 16 + ((b1 as int) % 16 * 4) / 4 == b1,
{
}

/// Decoding undoes the encoding, and the encoding is made of alphabet
/// digits and `=` padding only.
pub proof fn law_base64_round_trip(b: Seq<u8>)
    ensures
        base64_decode(base64_spec(b)) == b,
        forall|i: int|
            0 <= i < base64_spec(b).len() ==> is_base64_digit(#[trigger] base64_spec(b)[i])
                || base64_spec(b)[i] == '=',
    decreases b.len(),
{
    if b.len() == 0 {
        return;
    }
    let b0 = b[0];
    let b1 = if b.len() > 1 { b[1] } else { 0u8 };
    let b2 = if b.len() > 2 { b[2] } else { 0u8 };
    lemma_group(b0, b1, b2);
    let n0 = (b0 as int) / 4;
    let n1 = (b0 as int) % 4 * 16 + (b1 as int) / 16;
    let n2 = (b1 as int) % 16 * 4 + (b2 as int) / 64;
    let n3 = (b2 as int) % 64;
    lemma_digit(n0);
    lemma_digit(n1);
    lemma_digit(n2);
    lemma_digit(n3);
    lemma_digit((b0 as int) % 4 * 16);
    lemma_digit((b1 as int) % 16 * 4);
    let e = base64_spec(b);
    if b.len() == 1 {
        assert(e.skip(4) =~= Seq::<char>::empty());
        assert(base64_decode(Seq::<char>::empty()) =~= Seq::<u8>::empty());
        assert(e[2] == '=');
        assert(base64_decode(e) =~= seq![b0]);
        assert(b =~= seq![b0]);
    } else if b.len() == 2 {
        assert(e.skip(4) =~= Seq::<char>::empty());
        assert(base64_decode(Seq::<char>::empty()) =~= Seq::<u8>::empty());
        assert(e[3] == '=');
        assert(e[2] != '=');
        assert(base64_decode(e) =~= seq![b0, b1]);
        assert(b =~= seq![b0, b1]);
    } else {
        let rest = b.skip(3);
        law_base64_round_trip(rest);
        assert(e.skip(4) =~= base64_spec(rest));
        assert(base64_decode(e) =~= b);
        assert forall|i: int| 0 <= i < e.len() implies is_base64_digit(#[trigger] e[i]) || e[i]
            == '=' by {
            if i >= 4 {
                assert(e[i] == base64_spec(rest)[i - 4]);
            }
        }
    }
}

/// The credentials `username:password` that Basic authentication encodes.
pub open spec fn basic_credentials(username: Seq<char>, password: Seq<char>) -> Seq<char> {
    username + seq![':'] + password
}

/// Builds the Basic authentication header value
/// `"Basic " + base64(username ":" password)`, the credentials taken as
/// UTF-8 bytes.
pub fn basic_auth(username: &str, password: &str) -> (r: String)
    requires
        base64_len(encode_utf8(basic_credentials(username@, password@)).len()) <= usize::MAX,
    ensures
        r@ == basic_prefix() + base64_spec(encode_utf8(basic_credentials(username@, password@))),
{
    let mut credentials = String::from_str(username);
    credentials.append(":");
    proof {
        reveal_strlit(":");
    }
    credentials.append(password);
    assert(credentials@ =~= basic_credentials(username@, password@));
    let encoded = base64_encode(credentials.as_str().as_bytes());
    let mut r = String::from_str("Basic ");
    proof {
        reveal_strlit("Basic ");
    }
    assert(r@ =~= basic_prefix());
    r.append(encoded.as_str());
    r
}

/// Builds the Bearer token authentication header value `"Bearer <token>"`.
pub fn bearer_auth(token: &str) -> (r: String)
    ensures
        r@ == bearer_prefix() + token@,
{
    let mut r = String::from_str("Bearer ");
    proof {
        reveal_strlit("Bearer ");
    }
    assert(r@ =~= bearer_prefix());
    r.append(token);
    r
}

/// What `basic_auth` builds starts with `Basic `, and the rest decodes to
/// the UTF-8 bytes of `username:password` and uses only base64 digits and
/// `=` padding.
pub proof fn law_basic_auth_decodes(username: Seq<char>, password: Seq<char>)
    ensures
        ({
            let creds = encode_utf8(basic_credentials(username, password));
            let r = basic_prefix() + base64_spec(creds);
            &&& r.take(6) == basic_prefix()
            &&& base64_decode(r.skip(6)) == creds
            &&& forall|i: int|
                6 <= i < r.len() ==> is_base64_digit(#[trigger] r[i]) || r[i] == '='
        }),
{
    let creds = encode_utf8(basic_credentials(username, password));
    let r = basic_prefix() + base64_spec(creds);
    law_base64_round_trip(creds);
    assert(r.take(6) =~= basic_prefix());
    assert(r.skip(6) =~= base64_spec(creds));
    assert forall|i: int| 6 <= i < r.len() implies is_base64_digit(#[trigger] r[i]) || r[i]
        == '=' by {
        assert(r[i] == base64_spec(creds)[i - 6]);
    }
}

} // verus!
