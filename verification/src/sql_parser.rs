//! SQL placeholder compiler: finds `?` and `:name` placeholders in SQL text,
//! skipping string literals, quoted identifiers, dollar-quoted strings and
//! comments, and rewrites the placeholders into the form a driver expects.

use vstd::prelude::*;
use crate::text::{
    char_is_alphabetic, char_is_alphanumeric, char_len_utf8, char_utf8_width, decimal, digit_char,
    is_alphabetic, is_alphanumeric, lemma_decimal_len_usize, lemma_decimal_utf8_len,
    lemma_utf8_len_bound, lemma_utf8_len_concat, lemma_utf8_len_single, push_decimal,
    str_to_chars, string_from_chars, utf8_len,
};

verus! {

/// The kind of a placeholder found in SQL text.
#[derive(Debug, Clone, PartialEq)]
pub enum PlaceholderKind {
    /// A `?` placeholder, numbered by its place among all placeholders (from 1).
    Positional(usize),
    /// A `:name` placeholder, holding the name without the colon.
    Named(String),
}

/// A placeholder together with its position in the SQL text it was found
/// in: the byte offset of its `?` or `:` in the UTF-8 encoding of that text.
#[derive(Debug, Clone)]
pub struct Placeholder {
    pub kind: PlaceholderKind,
    pub position: usize,
}

/// The rewritten SQL and its placeholders in order of appearance.
#[derive(Debug)]
pub struct ParsedSql {
    pub rewritten: String,
    pub placeholders: Vec<Placeholder>,
}

/// Mathematical model of a placeholder kind.
pub enum PlaceholderKindModel {
    Positional(nat),
    Named(Seq<char>),
}

/// Mathematical model of a placeholder.
pub struct PlaceholderModel {
    pub kind: PlaceholderKindModel,
    pub position: nat,
}

impl View for PlaceholderKind {
    type V = PlaceholderKindModel;

    open spec fn view(&self) -> PlaceholderKindModel {
        match self {
            PlaceholderKind::Positional(n) => PlaceholderKindModel::Positional(*n as nat),
            PlaceholderKind::Named(name) => PlaceholderKindModel::Named(name@),
        }
    }
}

impl View for Placeholder {
    type V = PlaceholderModel;

    open spec fn view(&self) -> PlaceholderModel {
        PlaceholderModel { kind: self.kind@, position: self.position as nat }
    }
}

/// The models of a vector of placeholders.
pub open spec fn placeholders_model(v: Seq<Placeholder>) -> Seq<PlaceholderModel> {
    v.map_values(|p: Placeholder| p@)
}

// ---------------------------------------------------------------------------
// The grammar, over the characters `s` of the SQL text. Each recognizer looks
// at position `i` and gives the end (exclusive) of the construct found there.
// ---------------------------------------------------------------------------

/// Characters that make up dollar-quote tags and placeholder names.
pub open spec fn is_word_char(c: char) -> bool {
    char_is_alphanumeric(c) || c == '_'
}

/// End of the run of word characters that starts at `j`.
pub open spec fn word_end(s: Seq<char>, j: int) -> int
    decreases s.len() - j,
{
    if 0 <= j < s.len() && is_word_char(s[j]) {
        word_end(s, j + 1)
    } else {
        j
    }
}

/// The `k` characters at `j` equal the `k` characters at `i`.
pub open spec fn same_at(s: Seq<char>, j: int, i: int, k: int) -> bool {
    &&& 0 <= i <= i + k <= s.len()
    &&& 0 <= j <= j + k <= s.len()
    &&& s.subrange(j, j + k) == s.subrange(i, i + k)
}

/// First position from `j` on where the `k`-character tag at `i` occurs again.
pub open spec fn dollar_close(s: Seq<char>, i: int, k: int, j: int) -> Option<int>
    decreases s.len() - j,
{
    if j < 0 || j >= s.len() {
        None
    } else if same_at(s, j, i, k) {
        Some(j)
    } else {
        dollar_close(s, i, k, j + 1)
    }
}

/// A dollar-quoted string `$tag$ ... $tag$` (the tag may be empty).
pub open spec fn dollar_quoted_end(s: Seq<char>, i: int) -> Option<int> {
    if 0 <= i < s.len() && s[i] == '$' {
        let e = word_end(s, i + 1);
        if e < s.len() && s[e] == '$' {
            let k = e + 1 - i;
            match dollar_close(s, i, k, e + 1) {
                Some(j) => Some(j + k),
                None => None,
            }
        } else {
            None
        }
    } else {
        None
    }
}

/// Closing quote of an E-string body starting at `j`: a backslash escapes
/// the next character and a doubled quote stands for one quote.
pub open spec fn e_close(s: Seq<char>, j: int) -> Option<int>
    decreases s.len() - j,
{
    if j < 0 || j >= s.len() {
        None
    } else if s[j] == '\\' {
        if j + 1 < s.len() {
            e_close(s, j + 2)
        } else {
            None
        }
    } else if s[j] == '\'' {
        if j + 1 < s.len() && s[j + 1] == '\'' {
            e_close(s, j + 2)
        } else {
            Some(j)
        }
    } else {
        e_close(s, j + 1)
    }
}

/// A PostgreSQL E-string `E'...'` or `e'...'`.
pub open spec fn e_string_end(s: Seq<char>, i: int) -> Option<int> {
    if 0 <= i && i + 1 < s.len() && (s[i] == 'E' || s[i] == 'e') && s[i + 1] == '\'' {
        match e_close(s, i + 2) {
            Some(c) => Some(c + 1),
            None => None,
        }
    } else {
        None
    }
}

/// Closing quote `q` of a quoted body starting at `j`, where a doubled
/// quote stands for one quote.
pub open spec fn quoted_close(s: Seq<char>, q: char, j: int) -> Option<int>
    decreases s.len() - j,
{
    if j < 0 || j >= s.len() {
        None
    } else if s[j] == q {
        if j + 1 < s.len() && s[j + 1] == q {
            quoted_close(s, q, j + 2)
        } else {
            Some(j)
        }
    } else {
        quoted_close(s, q, j + 1)
    }
}

/// A string literal `'...'` or quoted identifier `"..."` delimited by `q`.
pub open spec fn quoted_end(s: Seq<char>, i: int, q: char) -> Option<int> {
    if 0 <= i < s.len() && s[i] == q {
        match quoted_close(s, q, i + 1) {
            Some(c) => Some(c + 1),
            None => None,
        }
    } else {
        None
    }
}

/// End of a line: just past the first newline from `j`, or the end of text.
pub open spec fn newline_end(s: Seq<char>, j: int) -> int
    decreases s.len() - j,
{
    if j < 0 || j >= s.len() {
        s.len() as int
    } else if s[j] == '\n' {
        j + 1
    } else {
        newline_end(s, j + 1)
    }
}

/// A line comment `-- ...`, with its newline if there is one.
pub open spec fn line_comment_end(s: Seq<char>, i: int) -> Option<int> {
    if 0 <= i && i + 1 < s.len() && s[i] == '-' && s[i + 1] == '-' {
        Some(newline_end(s, i + 2))
    } else {
        None
    }
}

/// Scan of a block comment body from `j` at nesting `depth`.
pub open spec fn block_scan(s: Seq<char>, j: int, depth: nat) -> Option<int>
    decreases s.len() - j,
{
    if depth == 0 {
        Some(j)
    } else if j < 0 || j + 1 >= s.len() {
        None
    } else if s[j] == '/' && s[j + 1] == '*' {
        block_scan(s, j + 2, depth + 1)
    } else if s[j] == '*' && s[j + 1] == '/' {
        block_scan(s, j + 2, (depth - 1) as nat)
    } else {
        block_scan(s, j + 1, depth)
    }
}

/// A block comment `/* ... */`, which may nest.
pub open spec fn block_comment_end(s: Seq<char>, i: int) -> Option<int> {
    if 0 <= i && i + 1 < s.len() && s[i] == '/' && s[i + 1] == '*' {
        block_scan(s, i + 2, 1)
    } else {
        None
    }
}

/// A `?` placeholder: a question mark not followed by another one.
pub open spec fn positional_at(s: Seq<char>, i: int) -> bool {
    &&& 0 <= i < s.len()
    &&& s[i] == '?'
    &&& !(i + 1 < s.len() && s[i + 1] == '?')
}

/// An escaped question mark `??`, which is text and no placeholder.
pub open spec fn escaped_question_at(s: Seq<char>, i: int) -> bool {
    0 <= i && i + 1 < s.len() && s[i] == '?' && s[i + 1] == '?'
}

/// The PostgreSQL cast operator `::`.
pub open spec fn cast_at(s: Seq<char>, i: int) -> bool {
    0 <= i && i + 1 < s.len() && s[i] == ':' && s[i + 1] == ':'
}

/// A `:name` placeholder: a colon, then a letter or underscore, then word
/// characters.
pub open spec fn named_end(s: Seq<char>, i: int) -> Option<int> {
    if 0 <= i && i + 1 < s.len() && s[i] == ':' && s[i + 1] != ':' && (char_is_alphabetic(
        s[i + 1],
    ) || s[i + 1] == '_') && word_end(s, i + 1) > i + 1 {
        Some(word_end(s, i + 1))
    } else {
        None
    }
}

/// What the text at a position is, with its end.
pub enum SqlToken {
    /// Text copied unchanged, up to the given end.
    Text(int),
    /// A positional placeholder (one character).
    Positional,
    /// A named placeholder, up to the given end.
    Named(int),
}

/// The construct at position `i`, tried in this order: dollar-quoted
/// string, E-string, string literal, quoted identifier, line comment, block
/// comment, `?` placeholder, `??` escape, `::` cast, `:name` placeholder,
/// any other single character.
pub open spec fn token_at(s: Seq<char>, i: int) -> SqlToken {
    if dollar_quoted_end(s, i) is Some {
        SqlToken::Text(dollar_quoted_end(s, i)->0)
    } else if e_string_end(s, i) is Some {
        SqlToken::Text(e_string_end(s, i)->0)
    } else if quoted_end(s, i, '\'') is Some {
        SqlToken::Text(quoted_end(s, i, '\'')->0)
    } else if quoted_end(s, i, '"') is Some {
        SqlToken::Text(quoted_end(s, i, '"')->0)
    } else if line_comment_end(s, i) is Some {
        SqlToken::Text(line_comment_end(s, i)->0)
    } else if block_comment_end(s, i) is Some {
        SqlToken::Text(block_comment_end(s, i)->0)
    } else if positional_at(s, i) {
        SqlToken::Positional
    } else if escaped_question_at(s, i) {
        SqlToken::Text(i + 2)
    } else if cast_at(s, i) {
        SqlToken::Text(i + 2)
    } else if named_end(s, i) is Some {
        SqlToken::Named(named_end(s, i)->0)
    } else {
        SqlToken::Text(i + 1)
    }
}

/// Where the construct at `i` ends.
pub open spec fn token_end(s: Seq<char>, i: int) -> int {
    match token_at(s, i) {
        SqlToken::Text(e) => e,
        SqlToken::Positional => i + 1,
        SqlToken::Named(e) => e,
    }
}

/// The text that replaces the `n`-th placeholder: `$n` for PostgreSQL,
/// `?` for every other driver.
pub open spec fn marker(pg: bool, n: nat) -> Seq<char> {
    if pg {
        seq!['$'] + decimal(n)
    } else {
        seq!['?']
    }
}

/// The byte offset of position `i` of `s` in the UTF-8 encoding of `s`.
pub open spec fn byte_offset(s: Seq<char>, i: int) -> nat {
    utf8_len(s.take(i))
}

/// Rewriting of `s` from position `i`, when `count` placeholders came
/// before.
pub open spec fn rewrite_from(s: Seq<char>, i: int, pg: bool, count: nat) -> (
    Seq<char>,
    Seq<PlaceholderModel>,
)
    decreases s.len() - i,
{
    if i < 0 || i >= s.len() || token_end(s, i) <= i || token_end(s, i) > s.len() {
        (Seq::empty(), Seq::empty())
    } else {
        let e = token_end(s, i);
        match token_at(s, i) {
            SqlToken::Text(_) => {
                let t = s.subrange(i, e);
                let r = rewrite_from(s, e, pg, count);
                (t + r.0, r.1)
            },
            SqlToken::Positional => {
                let m = marker(pg, count + 1);
                let r = rewrite_from(s, e, pg, count + 1);
                (
                    m + r.0,
                    seq![
                        PlaceholderModel {
                            kind: PlaceholderKindModel::Positional(count + 1),
                            position: byte_offset(s, i),
                        },
                    ] + r.1,
                )
            },
            SqlToken::Named(_) => {
                let m = marker(pg, count + 1);
                let r = rewrite_from(s, e, pg, count + 1);
                (
                    m + r.0,
                    seq![
                        PlaceholderModel {
                            kind: PlaceholderKindModel::Named(s.subrange(i + 1, e)),
                            position: byte_offset(s, i),
                        },
                    ] + r.1,
                )
            },
        }
    }
}

/// The rewritten SQL text and its placeholders for the characters `sql`.
pub open spec fn rewrite_sql(sql: Seq<char>, pg: bool) -> (Seq<char>, Seq<PlaceholderModel>) {
    rewrite_from(sql, 0, pg, 0)
}

/// The driver name for which placeholders become `$1`, `$2`, ...
pub open spec fn pgsql_driver() -> Seq<char> {
    seq!['p', 'g', 's', 'q', 'l']
}

// ---------------------------------------------------------------------------
// Where the recognizers end.
// ---------------------------------------------------------------------------

proof fn lemma_word_end(s: Seq<char>, j: int)
    requires
        0 <= j <= s.len(),
    ensures
        j <= word_end(s, j) <= s.len(),
    decreases s.len() - j,
{
    if j < s.len() && is_word_char(s[j]) {
        lemma_word_end(s, j + 1);
    }
}

proof fn lemma_dollar_close(s: Seq<char>, i: int, k: int, j: int)
    ensures
        dollar_close(s, i, k, j) matches Some(r) ==> j <= r < s.len() && same_at(s, r, i, k),
    decreases s.len() - j,
{
    if 0 <= j < s.len() && !same_at(s, j, i, k) {
        lemma_dollar_close(s, i, k, j + 1);
    }
}

proof fn lemma_e_close(s: Seq<char>, j: int)
    ensures
        e_close(s, j) matches Some(r) ==> j <= r < s.len(),
    decreases s.len() - j,
{
    if 0 <= j < s.len() {
        if s[j] == '\\' {
            if j + 1 < s.len() {
                lemma_e_close(s, j + 2);
            }
        } else if s[j] == '\'' {
            if j + 1 < s.len() && s[j + 1] == '\'' {
                lemma_e_close(s, j + 2);
            }
        } else {
            lemma_e_close(s, j + 1);
        }
    }
}

proof fn lemma_quoted_close(s: Seq<char>, q: char, j: int)
    ensures
        quoted_close(s, q, j) matches Some(r) ==> j <= r < s.len(),
    decreases s.len() - j,
{
    if 0 <= j < s.len() {
        if s[j] == q {
            if j + 1 < s.len() && s[j + 1] == q {
                lemma_quoted_close(s, q, j + 2);
            }
        } else {
            lemma_quoted_close(s, q, j + 1);
        }
    }
}

proof fn lemma_newline_end(s: Seq<char>, j: int)
    requires
        0 <= j <= s.len(),
    ensures
        j <= newline_end(s, j) <= s.len(),
    decreases s.len() - j,
{
    if j < s.len() && s[j] != '\n' {
        lemma_newline_end(s, j + 1);
    }
}

proof fn lemma_block_scan(s: Seq<char>, j: int, depth: nat)
    requires
        depth > 0,
    ensures
        block_scan(s, j, depth) matches Some(r) ==> j + 2 <= r <= s.len(),
    decreases s.len() - j,
{
    if 0 <= j && j + 1 < s.len() {
        if s[j] == '/' && s[j + 1] == '*' {
            lemma_block_scan(s, j + 2, depth + 1);
        } else if s[j] == '*' && s[j + 1] == '/' {
            if depth > 1 {
                lemma_block_scan(s, j + 2, (depth - 1) as nat);
            }
        } else {
            lemma_block_scan(s, j + 1, depth);
        }
    }
}

/// Every construct is non-empty and lies within the text.
pub proof fn lemma_token_end(s: Seq<char>, i: int)
    requires
        0 <= i < s.len(),
    ensures
        i < token_end(s, i) <= s.len(),
{
    lemma_word_end(s, i + 1);
    let e = word_end(s, i + 1);
    lemma_dollar_close(s, i, e + 1 - i, e + 1);
    lemma_e_close(s, i + 2);
    lemma_quoted_close(s, '\'', i + 1);
    lemma_quoted_close(s, '"', i + 1);
    if i + 2 <= s.len() {
        lemma_newline_end(s, i + 2);
    }
    lemma_block_scan(s, i + 2, 1);
}

// ---------------------------------------------------------------------------
// Executable recognizers.
// ---------------------------------------------------------------------------

/// An optional machine index seen as an optional integer.
pub open spec fn opt_index(r: Option<usize>) -> Option<int> {
    match r {
        Some(x) => Some(x as int),
        None => None,
    }
}

#[verifier::loop_isolation(false)]
fn word_end_at(v: &Vec<char>, j: usize) -> (r: usize)
    requires
        j <= v@.len() < usize::MAX,
    ensures
        r as int == word_end(v@, j as int),
        j <= r <= v@.len(),
{
    let mut k = j;
    while k < v.len() && (is_alphanumeric(v[k]) || v[k] == '_')
        invariant
            j <= k <= v@.len(),
            word_end(v@, j as int) == word_end(v@, k as int),
        decreases v@.len() - k,
    {
        k = k + 1;
    }
    k
}

#[verifier::loop_isolation(false)]
fn same_at_exec(v: &Vec<char>, j: usize, i: usize, k: usize) -> (r: bool)
    requires
        i + k <= v@.len(),
        j <= v@.len(),
    ensures
        r == same_at(v@, j as int, i as int, k as int),
{
    if j > v.len() - k {
        return false;
    }
    let mut t: usize = 0;
    while t < k
        invariant
            i + k <= v@.len(),
            j + k <= v@.len(),
            t <= k,
            v@.subrange(j as int, j + t) == v@.subrange(i as int, i + t),
        decreases k - t,
    {
        if v[j + t] != v[i + t] {
            assert(v@.subrange(j as int, j + k)[t as int] != v@.subrange(i as int, i + k)[t as int]);
            return false;
        }
        assert(v@.subrange(j as int, j + t + 1) =~= v@.subrange(j as int, j + t).push(v@[j + t]));
        assert(v@.subrange(i as int, i + t + 1) =~= v@.subrange(i as int, i + t).push(v@[i + t]));
        t = t + 1;
    }
    true
}

#[verifier::loop_isolation(false)]
fn dollar_quoted_end_at(v: &Vec<char>, i: usize) -> (r: Option<usize>)
    requires
        i < v@.len() < usize::MAX,
    ensures
        opt_index(r) == dollar_quoted_end(v@, i as int),
{
    if v[i] != '$' {
        return None;
    }
    let e = word_end_at(v, i + 1);
    if e >= v.len() || v[e] != '$' {
        return None;
    }
    let k = e + 1 - i;
    let mut j = e + 1;
    while j < v.len()
        invariant
            i < e < v@.len(),
            k == e + 1 - i,
            e + 1 <= j <= v@.len(),
            dollar_close(v@, i as int, k as int, (e + 1) as int) == dollar_close(
                v@,
                i as int,
                k as int,
                j as int,
            ),
        decreases v@.len() - j,
    {
        if same_at_exec(v, j, i, k) {
            return Some(j + k);
        }
        j = j + 1;
    }
    None
}

#[verifier::loop_isolation(false)]
fn e_string_end_at(v: &Vec<char>, i: usize) -> (r: Option<usize>)
    requires
        i < v@.len() < usize::MAX,
    ensures
        opt_index(r) == e_string_end(v@, i as int),
{
    if i + 1 >= v.len() || !(v[i] == 'E' || v[i] == 'e') || v[i + 1] != '\'' {
        return None;
    }
    let mut j = i + 2;
    while j < v.len()
        invariant
            i + 2 <= j <= v@.len(),
            e_close(v@, (i + 2) as int) == e_close(v@, j as int),
        decreases v@.len() - j,
    {
        if v[j] == '\\' {
            if j + 1 < v.len() {
                j = j + 2;
            } else {
                return None;
            }
        } else if v[j] == '\'' {
            if j + 1 < v.len() && v[j + 1] == '\'' {
                j = j + 2;
            } else {
                return Some(j + 1);
            }
        } else {
            j = j + 1;
        }
    }
    None
}

#[verifier::loop_isolation(false)]
fn quoted_end_at(v: &Vec<char>, i: usize, q: char) -> (r: Option<usize>)
    requires
        i < v@.len() < usize::MAX,
    ensures
        opt_index(r) == quoted_end(v@, i as int, q),
{
    if v[i] != q {
        return None;
    }
    let mut j = i + 1;
    while j < v.len()
        invariant
            i + 1 <= j <= v@.len(),
            quoted_close(v@, q, (i + 1) as int) == quoted_close(v@, q, j as int),
        decreases v@.len() - j,
    {
        if v[j] == q {
            if j + 1 < v.len() && v[j + 1] == q {
                j = j + 2;
            } else {
                return Some(j + 1);
            }
        } else {
            j = j + 1;
        }
    }
    None
}

#[verifier::loop_isolation(false)]
fn line_comment_end_at(v: &Vec<char>, i: usize) -> (r: Option<usize>)
    requires
        i < v@.len() < usize::MAX,
    ensures
        opt_index(r) == line_comment_end(v@, i as int),
{
    if i + 1 >= v.len() || v[i] != '-' || v[i + 1] != '-' {
        return None;
    }
    let mut j = i + 2;
    while j < v.len() && v[j] != '\n'
        invariant
            i + 2 <= j <= v@.len(),
            newline_end(v@, (i + 2) as int) == newline_end(v@, j as int),
        decreases v@.len() - j,
    {
        j = j + 1;
    }
    if j < v.len() {
        Some(j + 1)
    } else {
        Some(j)
    }
}

#[verifier::loop_isolation(false)]
fn block_comment_end_at(v: &Vec<char>, i: usize) -> (r: Option<usize>)
    requires
        i < v@.len() < usize::MAX,
    ensures
        opt_index(r) == block_comment_end(v@, i as int),
{
    if i + 1 >= v.len() || v[i] != '/' || v[i + 1] != '*' {
        return None;
    }
    let mut j = i + 2;
    let mut depth: usize = 1;
    while depth > 0 && j + 1 < v.len()
        invariant
            i + 2 <= j <= v@.len(),
            depth <= j,
            block_scan(v@, (i + 2) as int, 1) == block_scan(v@, j as int, depth as nat),
        decreases v@.len() - j,
    {
        if v[j] == '/' && v[j + 1] == '*' {
            depth = depth + 1;
            j = j + 2;
        } else if v[j] == '*' && v[j + 1] == '/' {
            depth = depth - 1;
            j = j + 2;
        } else {
            j = j + 1;
        }
    }
    if depth == 0 {
        Some(j)
    } else {
        None
    }
}

fn named_end_at(v: &Vec<char>, i: usize) -> (r: Option<usize>)
    requires
        i < v@.len() < usize::MAX,
    ensures
        opt_index(r) == named_end(v@, i as int),
{
    if i + 1 >= v.len() || v[i] != ':' || v[i + 1] == ':' {
        return None;
    }
    if !(is_alphabetic(v[i + 1]) || v[i + 1] == '_') {
        return None;
    }
    let e = word_end_at(v, i + 1);
    if e > i + 1 {
        Some(e)
    } else {
        None
    }
}

/// Executable form of [`SqlToken`].
enum Token {
    Text(usize),
    Positional,
    Named(usize),
}

spec fn token_model(t: Token) -> SqlToken {
    match t {
        Token::Text(e) => SqlToken::Text(e as int),
        Token::Positional => SqlToken::Positional,
        Token::Named(e) => SqlToken::Named(e as int),
    }
}

fn next_token(v: &Vec<char>, i: usize) -> (t: Token)
    requires
        i < v@.len() < usize::MAX,
    ensures
        token_model(t) == token_at(v@, i as int),
{
    if let Some(e) = dollar_quoted_end_at(v, i) {
        return Token::Text(e);
    }
    if let Some(e) = e_string_end_at(v, i) {
        return Token::Text(e);
    }
    if let Some(e) = quoted_end_at(v, i, '\'') {
        return Token::Text(e);
    }
    if let Some(e) = quoted_end_at(v, i, '"') {
        return Token::Text(e);
    }
    if let Some(e) = line_comment_end_at(v, i) {
        return Token::Text(e);
    }
    if let Some(e) = block_comment_end_at(v, i) {
        return Token::Text(e);
    }
    if v[i] == '?' && !(i + 1 < v.len() && v[i + 1] == '?') {
        return Token::Positional;
    }
    if i + 1 < v.len() && v[i] == '?' && v[i + 1] == '?' {
        return Token::Text(i + 2);
    }
    if i + 1 < v.len() && v[i] == ':' && v[i + 1] == ':' {
        return Token::Text(i + 2);
    }
    if let Some(e) = named_end_at(v, i) {
        return Token::Named(e);
    }
    Token::Text(i + 1)
}

proof fn lemma_utf8_len_push(a: Seq<char>, c: char)
    ensures
        utf8_len(a.push(c)) == utf8_len(a) + char_utf8_width(c),
{
    assert(a.push(c) =~= a + seq![c]);
    lemma_utf8_len_concat(a, seq![c]);
    lemma_utf8_len_single(c);
}

/// The UTF-8 length of `v[i..e]`.
fn utf8_len_range(v: &Vec<char>, i: usize, e: usize) -> (n: usize)
    requires
        i <= e <= v@.len(),
        4 * v@.len() <= usize::MAX,
    ensures
        n == utf8_len(v@.subrange(i as int, e as int)),
        n <= 4 * (e - i),
{
    let mut n: usize = 0;
    let mut j = i;
    while j < e
        invariant
            i <= j <= e <= v@.len(),
            4 * v@.len() <= usize::MAX,
            n == utf8_len(v@.subrange(i as int, j as int)),
            n <= 4 * (j - i),
        decreases e - j,
    {
        proof {
            lemma_utf8_len_push(v@.subrange(i as int, j as int), v@[j as int]);
            assert(v@.subrange(i as int, j + 1) =~= v@.subrange(i as int, j as int).push(
                v@[j as int],
            ));
        }
        n = n + char_len_utf8(v[j]);
        j = j + 1;
    }
    n
}

/// Appends `v[i..e]` to `out`, keeping `position` at the UTF-8 length of `out`.
fn copy_text(v: &Vec<char>, i: usize, e: usize, out: &mut Vec<char>, position: &mut usize)
    requires
        i <= e <= v@.len(),
        *old(position) == utf8_len(old(out)@),
        utf8_len(old(out)@) + 4 * (e - i) <= usize::MAX,
    ensures
        final(out)@ == old(out)@ + v@.subrange(i as int, e as int),
        *final(position) == utf8_len(final(out)@),
{
    let ghost start = out@;
    let mut j = i;
    while j < e
        invariant
            i <= j <= e <= v@.len(),
            out@ == start + v@.subrange(i as int, j as int),
            *position == utf8_len(out@),
            utf8_len(out@) <= utf8_len(start) + 4 * (j - i),
            utf8_len(start) + 4 * (e - i) <= usize::MAX,
        decreases e - j,
    {
        let c = v[j];
        proof {
            lemma_utf8_len_push(out@, c);
        }
        out.push(c);
        *position = *position + char_len_utf8(c);
        j = j + 1;
        assert(out@ =~= start + v@.subrange(i as int, j as int));
    }
}

/// Appends the replacement of the `n`-th placeholder to `out`.
fn push_marker(out: &mut Vec<char>, position: &mut usize, pg: bool, n: usize)
    requires
        *old(position) == utf8_len(old(out)@),
        utf8_len(old(out)@) + 21 <= usize::MAX,
    ensures
        final(out)@ == old(out)@ + marker(pg, n as nat),
        *final(position) == utf8_len(final(out)@),
        utf8_len(marker(pg, n as nat)) <= 21,
{
    let ghost start = out@;
    proof {
        lemma_decimal_len_usize(n);
        lemma_decimal_utf8_len(n as nat);
        lemma_utf8_len_single('$');
        lemma_utf8_len_concat(seq!['$'], decimal(n as nat));
        lemma_utf8_len_single('?');
        lemma_utf8_len_concat(start, marker(pg, n as nat));
    }
    if pg {
        out.push('$');
        let before = out.len();
        push_decimal(out, n);
        let added = out.len() - before;
        *position = *position + 1 + added;
        assert(out@ =~= start + marker(pg, n as nat));
    } else {
        out.push('?');
        *position = *position + 1;
        assert(out@ =~= start + marker(pg, n as nat));
    }
}

fn is_pgsql(d: &Vec<char>) -> (r: bool)
    ensures
        r == (d@ == pgsql_driver()),
{
    if d.len() == 5 && d[0] == 'p' && d[1] == 'g' && d[2] == 's' && d[3] == 'q' && d[4] == 'l' {
        assert(d@ =~= pgsql_driver());
        true
    } else {
        proof {
            if d@ == pgsql_driver() {
                assert(d@[0] == 'p' && d@[1] == 'g' && d@[2] == 's' && d@[3] == 'q' && d@[4]
                    == 'l');
            }
        }
        false
    }
}

/// Rewrites the placeholders of `sql` for `driver` and lists them.
///
/// Each `?` and each `:name` outside string literals, quoted identifiers,
/// dollar-quoted strings and comments becomes `$n` when the driver is
/// `pgsql` (`n` counting all placeholders from 1) and `?` otherwise; `??`
/// stands for a literal question mark and is copied unchanged, like the
/// rest of the text. Each placeholder records the byte offset of its `?` or
/// `:` in `sql`.
pub fn parse_and_rewrite_sql(sql: &str, driver: &str) -> (r: Result<ParsedSql, String>)
    requires
        21 * sql@.len() <= usize::MAX,
    ensures
        match r {
            Ok(p) => (p.rewritten@, placeholders_model(p.placeholders@)) == rewrite_sql(
                sql@,
                driver@ == pgsql_driver(),
            ),
            Err(_) => false,
        },
{
    let v = str_to_chars(sql);
    let d = str_to_chars(driver);
    let pg = is_pgsql(&d);
    let ghost s = v@;
    let n = v.len();
    let mut out: Vec<char> = Vec::new();
    let mut placeholders: Vec<Placeholder> = Vec::new();
    let mut position: usize = 0;
    let mut offset: usize = 0;
    let mut count: usize = 0;
    let mut i: usize = 0;
    assert(out@ + rewrite_from(s, 0, pg, 0).0 =~= rewrite_from(s, 0, pg, 0).0);
    assert(placeholders_model(placeholders@) + rewrite_from(s, 0, pg, 0).1 =~= rewrite_from(
        s,
        0,
        pg,
        0,
    ).1);
    proof {
        lemma_utf8_len_bound(out@);
        assert(s.take(0) =~= out@);
    }
    while i < n
        invariant
            v@ == s,
            s == sql@,
            n == s.len(),
            21 * n <= usize::MAX,
            i <= n,
            count <= i,
            position == utf8_len(out@),
            utf8_len(out@) <= 21 * i,
            offset == byte_offset(s, i as int),
            offset <= 4 * i,
            rewrite_sql(s, pg).0 == out@ + rewrite_from(s, i as int, pg, count as nat).0,
            rewrite_sql(s, pg).1 == placeholders_model(placeholders@) + rewrite_from(
                s,
                i as int,
                pg,
                count as nat,
            ).1,
        decreases n - i,
    {
        let tok = next_token(&v, i);
        proof {
            lemma_token_end(s, i as int);
        }
        let ghost r_old = rewrite_from(s, i as int, pg, count as nat);
        let ghost ph_old = placeholders_model(placeholders@);
        let ghost out_old = out@;
        let ghost i_old = i as int;
        let start = offset;
        let e: usize = match tok {
            Token::Text(e) => e,
            Token::Positional => i + 1,
            Token::Named(e) => e,
        };
        let width = utf8_len_range(&v, i, e);
        proof {
            assert(s.take(e as int) =~= s.take(i as int) + s.subrange(i as int, e as int));
            lemma_utf8_len_concat(s.take(i as int), s.subrange(i as int, e as int));
        }
        offset = offset + width;
        match tok {
            Token::Text(e) => {
                proof {
                    lemma_utf8_len_bound(s.subrange(i as int, e as int));
                }
                copy_text(&v, i, e, &mut out, &mut position);
                proof {
                    lemma_utf8_len_concat(out_old, s.subrange(i as int, e as int));
                    let t = s.subrange(i as int, e as int);
                    let r_new = rewrite_from(s, e as int, pg, count as nat);
                    assert(r_old == (t + r_new.0, r_new.1));
                    assert(out@ + r_new.0 =~= out_old + r_old.0);
                }
                i = e;
            },
            Token::Positional => {
                count = count + 1;
                push_marker(&mut out, &mut position, pg, count);
                let p = Placeholder { kind: PlaceholderKind::Positional(count), position: start };
                placeholders.push(p);
                proof {
                    lemma_utf8_len_concat(out_old, marker(pg, count as nat));
                    let r_new = rewrite_from(s, (i + 1) as int, pg, count as nat);
                    let pm = PlaceholderModel {
                        kind: PlaceholderKindModel::Positional(count as nat),
                        position: start as nat,
                    };
                    assert(r_old == (marker(pg, count as nat) + r_new.0, seq![pm] + r_new.1));
                    assert(out@ + r_new.0 =~= out_old + r_old.0);
                    assert(placeholders_model(placeholders@) =~= ph_old.push(pm));
                    assert(placeholders_model(placeholders@) + r_new.1 =~= ph_old + r_old.1);
                }
                i = i + 1;
            },
            Token::Named(e) => {
                count = count + 1;
                let name = string_from_chars(v.as_slice(), i + 1, e);
                push_marker(&mut out, &mut position, pg, count);
                let p = Placeholder { kind: PlaceholderKind::Named(name), position: start };
                placeholders.push(p);
                proof {
                    lemma_utf8_len_concat(out_old, marker(pg, count as nat));
                    let r_new = rewrite_from(s, e as int, pg, count as nat);
                    let pm = PlaceholderModel {
                        kind: PlaceholderKindModel::Named(s.subrange(i + 1, e as int)),
                        position: start as nat,
                    };
                    assert(r_old == (marker(pg, count as nat) + r_new.0, seq![pm] + r_new.1));
                    assert(out@ + r_new.0 =~= out_old + r_old.0);
                    assert(placeholders_model(placeholders@) =~= ph_old.push(pm));
                    assert(placeholders_model(placeholders@) + r_new.1 =~= ph_old + r_old.1);
                }
                i = e;
            },
        }
    }
    let rewritten = string_from_chars(out.as_slice(), 0, out.len());
    proof {
        assert(out@.subrange(0, out@.len() as int) =~= out@);
        assert(rewrite_from(s, n as int, pg, count as nat).0 =~= Seq::<char>::empty());
        assert(out@ + Seq::<char>::empty() =~= out@);
        assert(placeholders_model(placeholders@) + Seq::<PlaceholderModel>::empty()
            =~= placeholders_model(placeholders@));
    }
    Ok(ParsedSql { rewritten, placeholders })
}

// ---------------------------------------------------------------------------
// Laws of the placeholder compiler.
// ---------------------------------------------------------------------------

/// The kinds of a list of placeholders.
pub open spec fn kinds(ps: Seq<PlaceholderModel>) -> Seq<PlaceholderKindModel> {
    ps.map_values(|p: PlaceholderModel| p.kind)
}

proof fn lemma_kinds_cons(p: PlaceholderModel, ps: Seq<PlaceholderModel>)
    ensures
        kinds(seq![p] + ps) == seq![p.kind] + kinds(ps),
{
    assert(kinds(seq![p] + ps) =~= seq![p.kind] + kinds(ps));
}

proof fn lemma_kinds_independent(s: Seq<char>, i: int, pg1: bool, pg2: bool, count: nat)
    ensures
        kinds(rewrite_from(s, i, pg1, count).1) == kinds(rewrite_from(s, i, pg2, count).1),
    decreases s.len() - i,
{
    if 0 <= i < s.len() && i < token_end(s, i) <= s.len() {
        let e = token_end(s, i);
        match token_at(s, i) {
            SqlToken::Text(_) => {
                lemma_kinds_independent(s, e, pg1, pg2, count);
            },
            SqlToken::Positional => {
                let r1 = rewrite_from(s, e, pg1, count + 1);
                let r2 = rewrite_from(s, e, pg2, count + 1);
                lemma_kinds_independent(s, e, pg1, pg2, count + 1);
                let p = PlaceholderModel {
                    kind: PlaceholderKindModel::Positional(count + 1),
                    position: byte_offset(s, i),
                };
                lemma_kinds_cons(p, r1.1);
                lemma_kinds_cons(p, r2.1);
            },
            SqlToken::Named(_) => {
                let r1 = rewrite_from(s, e, pg1, count + 1);
                let r2 = rewrite_from(s, e, pg2, count + 1);
                lemma_kinds_independent(s, e, pg1, pg2, count + 1);
                let p = PlaceholderModel {
                    kind: PlaceholderKindModel::Named(s.subrange(i + 1, e)),
                    position: byte_offset(s, i),
                };
                lemma_kinds_cons(p, r1.1);
                lemma_kinds_cons(p, r2.1);
            },
        }
    }
}

/// The driver decides only how placeholders are written: the placeholders
/// found, their kinds, numbers, names and positions, are the same for
/// every driver.
pub proof fn law_placeholders_independent_of_driver(sql: Seq<char>)
    ensures
        rewrite_sql(sql, true).1 == rewrite_sql(sql, false).1,
{
    lemma_placeholders_independent(sql, 0, true, false, 0);
}

proof fn lemma_placeholders_independent(s: Seq<char>, i: int, pg1: bool, pg2: bool, count: nat)
    ensures
        rewrite_from(s, i, pg1, count).1 == rewrite_from(s, i, pg2, count).1,
    decreases s.len() - i,
{
    if 0 <= i < s.len() && i < token_end(s, i) <= s.len() {
        let e = token_end(s, i);
        match token_at(s, i) {
            SqlToken::Text(_) => {
                lemma_placeholders_independent(s, e, pg1, pg2, count);
            },
            _ => {
                lemma_placeholders_independent(s, e, pg1, pg2, count + 1);
            },
        }
    }
}

proof fn lemma_numbering(s: Seq<char>, i: int, pg: bool, count: nat, k: int)
    requires
        0 <= k < rewrite_from(s, i, pg, count).1.len(),
    ensures
        rewrite_from(s, i, pg, count).1[k].kind matches PlaceholderKindModel::Positional(n) ==> n
            == count + k + 1,
    decreases s.len() - i,
{
    if 0 <= i < s.len() && i < token_end(s, i) <= s.len() {
        let e = token_end(s, i);
        match token_at(s, i) {
            SqlToken::Text(_) => {
                lemma_numbering(s, e, pg, count, k);
            },
            _ => {
                if k > 0 {
                    lemma_numbering(s, e, pg, count + 1, k - 1);
                }
            },
        }
    }
}

/// Positional placeholders are numbered by their place among all
/// placeholders: the `k`-th placeholder (from 0), if positional, carries `k + 1`.
pub proof fn law_positional_numbering(sql: Seq<char>, pg: bool, k: int)
    requires
        0 <= k < rewrite_sql(sql, pg).1.len(),
    ensures
        rewrite_sql(sql, pg).1[k].kind matches PlaceholderKindModel::Positional(n) ==> n == k + 1,
{
    lemma_numbering(sql, 0, pg, 0, k);
}

/// All placeholders in the list are positional.
pub open spec fn all_positional(ps: Seq<PlaceholderModel>) -> bool {
    forall|k: int| 0 <= k < ps.len() ==> ps[k].kind is Positional
}

proof fn lemma_positional_unchanged(s: Seq<char>, i: int, count: nat)
    requires
        0 <= i <= s.len(),
        all_positional(rewrite_from(s, i, false, count).1),
    ensures
        rewrite_from(s, i, false, count).0 == s.subrange(i, s.len() as int),
    decreases s.len() - i,
{
    if i == s.len() {
        assert(s.subrange(i, s.len() as int) =~= Seq::<char>::empty());
    } else {
        lemma_token_end(s, i);
        let e = token_end(s, i);
        match token_at(s, i) {
            SqlToken::Text(_) => {
                let t = s.subrange(i, e);
                lemma_positional_unchanged(s, e, count);
                assert(t + s.subrange(e, s.len() as int) =~= s.subrange(i, s.len() as int));
            },
            SqlToken::Positional => {
                let m = marker(false, count + 1);
                let r = rewrite_from(s, e, false, count + 1);
                let p = PlaceholderModel {
                    kind: PlaceholderKindModel::Positional(count + 1),
                    position: byte_offset(s, i),
                };
                assert forall|k: int| 0 <= k < r.1.len() implies r.1[k].kind is Positional by {
                    assert((seq![p] + r.1)[k + 1] == r.1[k]);
                }
                lemma_positional_unchanged(s, e, count + 1);
                assert(m + s.subrange(e, s.len() as int) =~= s.subrange(i, s.len() as int));
            },
            SqlToken::Named(_) => {
                let r = rewrite_from(s, e, false, count + 1);
                let p = PlaceholderModel {
                    kind: PlaceholderKindModel::Named(s.subrange(i + 1, e)),
                    position: byte_offset(s, i),
                };
                assert((seq![p] + r.1)[0] == p);
            },
        }
    }
}

/// For drivers other than `pgsql`, SQL whose placeholders are all `?` comes
/// back unchanged.
pub proof fn law_positional_sql_unchanged(sql: Seq<char>)
    requires
        all_positional(rewrite_sql(sql, false).1),
    ensures
        rewrite_sql(sql, false).0 == sql,
{
    lemma_positional_unchanged(sql, 0, 0);
    assert(sql.subrange(0, sql.len() as int) =~= sql);
}

proof fn lemma_position(s: Seq<char>, i: int, pg: bool, count: nat, k: int) -> (j: int)
    requires
        0 <= i,
        0 <= k < rewrite_from(s, i, pg, count).1.len(),
    ensures
        i <= j < s.len(),
        s[j] == '?' || s[j] == ':',
        rewrite_from(s, i, pg, count).1[k].position == byte_offset(s, j),
        rewrite_from(s, i, pg, count).1[k].kind is Positional ==> token_at(s, j) is Positional,
        rewrite_from(s, i, pg, count).1[k].kind is Named ==> token_at(s, j) is Named,
    decreases s.len() - i,
{
    let e = token_end(s, i);
    match token_at(s, i) {
        SqlToken::Text(_) => {
            lemma_position(s, e, pg, count, k)
        },
        _ => {
            let r = rewrite_from(s, e, pg, count + 1);
            if k == 0 {
                i
            } else {
                let pm = rewrite_from(s, i, pg, count).1[0];
                assert(rewrite_from(s, i, pg, count).1 == seq![pm] + r.1);
                assert(rewrite_from(s, i, pg, count).1[k] == r.1[k - 1]);
                lemma_position(s, e, pg, count + 1, k - 1)
            }
        },
    }
}

proof fn lemma_no_colon_positional(s: Seq<char>, i: int, pg: bool, count: nat)
    requires
        0 <= i <= s.len(),
        forall|j: int| 0 <= j < s.len() ==> s[j] != ':',
    ensures
        all_positional(rewrite_from(s, i, pg, count).1),
    decreases s.len() - i,
{
    if i < s.len() {
        lemma_token_end(s, i);
        let e = token_end(s, i);
        match token_at(s, i) {
            SqlToken::Text(_) => {
                lemma_no_colon_positional(s, e, pg, count);
            },
            SqlToken::Positional => {
                let r = rewrite_from(s, e, pg, count + 1);
                let p = PlaceholderModel {
                    kind: PlaceholderKindModel::Positional(count + 1),
                    position: byte_offset(s, i),
                };
                lemma_no_colon_positional(s, e, pg, count + 1);
                assert forall|k: int| 0 <= k < (seq![p] + r.1).len() implies (seq![p]
                    + r.1)[k].kind is Positional by {
                    if k > 0 {
                        assert((seq![p] + r.1)[k] == r.1[k - 1]);
                    }
                }
            },
            SqlToken::Named(_) => {
                assert(s[i] == ':');
            },
        }
    }
}

/// For drivers other than `pgsql`, SQL without a `:` comes back unchanged:
/// it holds no named placeholder, and each `?` is rewritten to `?`.
pub proof fn law_sql_without_colon_unchanged(sql: Seq<char>)
    requires
        !sql.contains(':'),
    ensures
        all_positional(rewrite_sql(sql, false).1),
        rewrite_sql(sql, false).0 == sql,
{
    assert forall|j: int| 0 <= j < sql.len() implies sql[j] != ':' by {
        if sql[j] == ':' {
            assert(sql.contains(':'));
        }
    }
    lemma_no_colon_positional(sql, 0, false, 0);
    law_positional_sql_unchanged(sql);
}

/// Each placeholder's position is where it stands in the SQL text: the
/// byte offset, in the UTF-8 encoding of `sql`, of the `?` or `:` that
/// starts it.
pub proof fn law_position_in_input(sql: Seq<char>, pg: bool, k: int) -> (j: int)
    requires
        0 <= k < rewrite_sql(sql, pg).1.len(),
    ensures
        0 <= j < sql.len(),
        rewrite_sql(sql, pg).1[k].kind is Positional ==> sql[j] == '?' && token_at(
            sql,
            j,
        ) is Positional,
        rewrite_sql(sql, pg).1[k].kind is Named ==> sql[j] == ':' && token_at(sql, j) is Named,
        rewrite_sql(sql, pg).1[k].position == utf8_len(sql.take(j)),
{
    lemma_position(sql, 0, pg, 0, k)
}

/// `??` is an escaped question mark: where it stands outside literals and
/// comments it is copied as it is, and no placeholder is counted for it.
pub proof fn law_double_question_mark_is_text(sql: Seq<char>, i: int, pg: bool, count: nat)
    requires
        escaped_question_at(sql, i),
    ensures
        token_at(sql, i) == SqlToken::Text(i + 2),
        rewrite_from(sql, i, pg, count) == (
            seq!['?', '?'] + rewrite_from(sql, i + 2, pg, count).0,
            rewrite_from(sql, i + 2, pg, count).1,
        ),
{
    assert(sql.subrange(i, i + 2) =~= seq!['?', '?']);
}

/// A decimal digit character.
pub open spec fn is_decimal_digit(c: char) -> bool {
    '0' <= c <= '9'
}

/// The number a string of decimal digits reads as, most significant digit
/// first.
pub open spec fn digits_value(s: Seq<char>) -> int
    decreases s.len(),
{
    if s.len() == 0 {
        0
    } else {
        digits_value(s.drop_last()) * 10 + (s.last() as int - 48)
    }
}

proof fn lemma_digit_char_value(d: nat)
    requires
        d < 10,
    ensures
        digit_char(d) as int == 48 + d,
        is_decimal_digit(digit_char(d)),
{
    assert(((48 + d) as u8) as int == 48 + d);
}

proof fn lemma_decimal_reads_back(n: nat)
    ensures
        decimal(n).len() >= 1,
        forall|i: int| 0 <= i < decimal(n).len() ==> is_decimal_digit(#[trigger] decimal(n)[i]),
        digits_value(decimal(n)) == n,
        n > 0 ==> decimal(n)[0] != '0',
    decreases n,
{
    if n >= 10 {
        lemma_decimal_reads_back(n / 10);
        let d = decimal(n);
        assert(d.drop_last() =~= decimal(n / 10));
        assert forall|i: int| 0 <= i < d.len() implies is_decimal_digit(#[trigger] d[i]) by {
            if i < d.len() - 1 {
                assert(d[i] == decimal(n / 10)[i]);
            }
        }
        assert(d[0] == decimal(n / 10)[0]);
        lemma_digit_char_value(n % 10);
        assert(d.last() == digit_char(n % 10));
        assert((n / 10) * 10 + n % 10 == n);
        assert(digits_value(d) == digits_value(d.drop_last()) * 10 + (d.last() as int - 48));
    } else {
        let d = decimal(n);
        assert(d.drop_last() =~= Seq::<char>::empty());
        assert(digits_value(Seq::<char>::empty()) == 0);
        lemma_digit_char_value(n);
        assert(d.last() == digit_char(n));
        assert(digits_value(d) == digits_value(d.drop_last()) * 10 + (d.last() as int - 48));
    }
}

/// For PostgreSQL the `n`-th placeholder is written as `$` followed by all
/// the decimal digits of `n`, which read back as `n` (no leading zero), so
/// different placeholders get different markers; other drivers keep `?`.
pub proof fn law_marker_names_its_number(n: nat, m: nat)
    ensures
        marker(true, n).len() >= 2,
        marker(true, n)[0] == '$',
        forall|i: int|
            1 <= i < marker(true, n).len() ==> is_decimal_digit(#[trigger] marker(true, n)[i]),
        digits_value(marker(true, n).drop_first()) == n,
        n > 0 ==> marker(true, n)[1] != '0',
        n != m ==> marker(true, n) != marker(true, m),
        marker(false, n) == seq!['?'],
{
    lemma_decimal_reads_back(n);
    lemma_decimal_reads_back(m);
    let a = marker(true, n);
    let b = marker(true, m);
    assert(a.drop_first() =~= decimal(n));
    assert(b.drop_first() =~= decimal(m));
    assert forall|i: int| 1 <= i < a.len() implies is_decimal_digit(#[trigger] a[i]) by {
        assert(a[i] == decimal(n)[i - 1]);
    }
    if n != m && a == b {
        assert(a.drop_first() == b.drop_first());
    }
}

} // verus!
