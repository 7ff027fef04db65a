//! An HTTP body held in memory: bytes are written at its end and read from
//! its front, and a closed body reports its end once it is drained.

use vstd::prelude::*;
use vstd::utf8::{decode_utf8, encode_utf8, encode_utf8_decode_utf8, encode_utf8_valid_utf8, valid_utf8};
use bytes::BytesMut;
use crate::http::buffer::{
    buffer_bytes, buffer_extend, buffer_from, buffer_len, buffer_new, buffer_slice, buffer_split_to,
};

verus! {

/// What `String::from_utf8_lossy` makes of `bytes`.
pub uninterp spec fn utf8_lossy(bytes: Seq<u8>) -> Seq<char>;

/// `String::from_utf8_lossy` from the standard library, taken as an owned
/// string: the bytes decoded as UTF-8 with each invalid sequence replaced by
/// U+FFFD; bytes that are valid UTF-8 decode to exactly their characters.
#[verifier::external_body]
pub(crate) fn string_from_utf8_lossy(bytes: &[u8]) -> (s: String)
    ensures
        s@ == utf8_lossy(bytes@),
        valid_utf8(bytes@) ==> s@ == decode_utf8(bytes@),
{
    String::from_utf8_lossy(bytes).into_owned()
}

/// The contents of a body and whether it was closed.
pub struct HttpBodyModel {
    pub data: Seq<u8>,
    pub eof: bool,
}

/// A body held in memory.
pub struct HttpBody {
    data: BytesMut,
    eof: bool,
}

impl View for HttpBody {
    type V = HttpBodyModel;

    closed spec fn view(&self) -> HttpBodyModel {
        HttpBodyModel { data: buffer_bytes(self.data), eof: self.eof }
    }
}

/// How many bytes a read of `length` takes: the length as an unsigned
/// count (a negative length counts as a huge one), at most all there are.
pub open spec fn body_read_count(m: HttpBodyModel, length: i64) -> nat {
    if (length as usize) < m.data.len() {
        (length as usize) as nat
    } else {
        m.data.len()
    }
}

/// The body after a read of `length`.
pub open spec fn body_after_read(m: HttpBodyModel, length: i64) -> HttpBodyModel {
    HttpBodyModel { data: m.data.skip(body_read_count(m, length) as int), ..m }
}

/// The body after `text` was written.
pub open spec fn body_after_write(m: HttpBodyModel, text: Seq<char>) -> HttpBodyModel {
    HttpBodyModel { data: m.data + encode_utf8(text), ..m }
}

impl HttpBody {
    /// An empty body that is still open for writing.
    pub fn new() -> (b: Self)
        ensures
            b@ == (HttpBodyModel { data: Seq::empty(), eof: false }),
    {
        HttpBody { data: buffer_new(), eof: false }
    }

    /// A closed body holding the UTF-8 bytes of `s`.
    pub fn from_string(s: String) -> (b: Self)
        ensures
            b@ == (HttpBodyModel { data: encode_utf8(s@), eof: true }),
    {
        HttpBody { data: buffer_from(s.as_str().as_bytes()), eof: true }
    }

    /// A closed body holding `bytes`.
    pub fn from_bytes(bytes: Vec<u8>) -> (b: Self)
        ensures
            b@ == (HttpBodyModel { data: bytes@, eof: true }),
    {
        HttpBody { data: buffer_from(bytes.as_slice()), eof: true }
    }

    /// Reads up to `length` bytes from the front, as text (invalid UTF-8
    /// replaced). An empty body gives `None` once closed and an empty
    /// string while open.
    pub fn read(&mut self, length: i64) -> (r: Option<String>)
        ensures
            old(self)@.data.len() == 0 ==> final(self)@ == old(self)@ && if old(self)@.eof {
                r is None
            } else {
                r matches Some(s) && s@.len() == 0
            },
            old(self)@.data.len() > 0 ==> ({
                let taken = old(self)@.data.take(body_read_count(old(self)@, length) as int);
                &&& final(self)@ == body_after_read(old(self)@, length)
                &&& r matches Some(s)
                &&& s@ == utf8_lossy(taken)
                &&& valid_utf8(taken) ==> s@ == decode_utf8(taken)
            }),
    {
        let len = buffer_len(&self.data);
        if len == 0 {
            if self.eof {
                return None;
            } else {
                return Some(String::new());
            }
        }
        let want = length as usize;
        let k = if want < len {
            want
        } else {
            len
        };
        let taken = buffer_split_to(&mut self.data, k);
        Some(string_from_utf8_lossy(buffer_slice(&taken)))
    }

    /// Appends the UTF-8 bytes of `text`.
    pub fn write(&mut self, text: String)
        requires
            old(self)@.data.len() + encode_utf8(text@).len() <= isize::MAX,
        ensures
            final(self)@ == body_after_write(old(self)@, text@),
    {
        buffer_extend(&mut self.data, text.as_str().as_bytes());
    }

    /// Marks the body as closed: once drained, reads report its end.
    pub fn close(&mut self) -> (b: bool)
        ensures
            b,
            final(self)@ == (HttpBodyModel { eof: true, ..old(self)@ }),
    {
        self.eof = true;
        true
    }

    /// The number of unread bytes.
    pub fn length(&self) -> (n: i64)
        ensures
            n == self@.data.len() as i64,
    {
        buffer_len(&self.data) as i64
    }
}

/// What a read gives back of a write: text written to a drained body is
/// read back unchanged by a read that asks for at least its length.
pub proof fn law_write_then_read_back(m: HttpBodyModel, text: Seq<char>, length: i64)
    requires
        m.data.len() == 0,
        encode_utf8(text).len() <= length,
        length <= usize::MAX,
    ensures
        ({
            let w = body_after_write(m, text);
            let taken = w.data.take(body_read_count(w, length) as int);
            &&& valid_utf8(taken)
            &&& decode_utf8(taken) == text
            &&& body_after_read(w, length).data.len() == 0
        }),
{
    let w = body_after_write(m, text);
    assert(w.data =~= encode_utf8(text));
    assert(body_read_count(w, length) == w.data.len());
    assert(w.data.take(w.data.len() as int) =~= w.data);
    encode_utf8_valid_utf8(text);
    encode_utf8_decode_utf8(text);
}

/// Bytes leave a body in the order they were written: two reads in a row
/// take what one read of both counts would, and leave the same bytes.
pub proof fn law_reads_take_front_in_order(m: HttpBodyModel, a: i64, b: i64)
    requires
        0 <= a,
        0 <= b,
        a + b <= m.data.len(),
        m.data.len() <= usize::MAX,
        a + b <= i64::MAX,
    ensures
        ({
            let m1 = body_after_read(m, a);
            let ta = m.data.take(body_read_count(m, a) as int);
            let tb = m1.data.take(body_read_count(m1, b) as int);
            let t = m.data.take(body_read_count(m, (a + b) as i64) as int);
            ta + tb == t && body_after_read(m1, b) == body_after_read(m, (a + b) as i64)
        }),
{
    let m1 = body_after_read(m, a);
    assert((a as usize) as nat == a);
    assert((b as usize) as nat == b);
    assert(((a + b) as i64 as usize) as nat == a + b);
    assert(body_read_count(m, a) == a);
    assert(body_read_count(m1, b) == b);
    assert(body_read_count(m, (a + b) as i64) == a + b);
    let ta = m.data.take(a as int);
    let tb = m1.data.take(b as int);
    assert(ta + tb =~= m.data.take(a + b));
    assert(m1.data.skip(b as int) =~= m.data.skip(a + b));
}

} // verus!
