//! In-memory byte buffers: a cursor over a growable byte vector with the
//! read, write and seek behaviour of `std::io::Cursor<Vec<u8>>`, and the
//! reader and writer objects built on it.

use vstd::prelude::*;
use vstd::utf8::{encode_utf8, valid_utf8};

verus! {

/// Where a seek is measured from.
#[derive(Clone, Copy, Debug, PartialEq, Eq)]
pub enum SeekTarget {
    /// An absolute position.
    Start(u64),
    /// An offset from the current position.
    Current(i64),
    /// An offset from the end of the data.
    End(i64),
}

/// A seek that would land before position zero or beyond `u64::MAX`.
#[derive(Clone, Copy, Debug, PartialEq, Eq)]
pub enum SeekError {
    InvalidPosition,
}

/// State of a byte cursor: the data and the position of the next read or
/// write (which may lie beyond the end of the data).
pub struct CursorState {
    pub data: Seq<u8>,
    pub pos: u64,
}

/// A cursor over a byte vector.
pub struct BytesCursor {
    data: Vec<u8>,
    pos: u64,
}

impl View for BytesCursor {
    type V = CursorState;

    closed spec fn view(&self) -> CursorState {
        CursorState { data: self.data@, pos: self.pos }
    }
}

/// The bytes a read of at most `n` bytes returns: those from the position
/// on, as many as there are up to `n` (none when the position lies at or
/// past the end).
pub open spec fn read_bytes(s: CursorState, n: nat) -> Seq<u8> {
    let start = if s.pos < s.data.len() {
        s.pos as int
    } else {
        s.data.len() as int
    };
    let k = if n < s.data.len() - start {
        n as int
    } else {
        s.data.len() - start
    };
    s.data.subrange(start, start + k)
}

/// The data after writing `buf` at `pos`: zero bytes fill any gap between
/// the end of the data and `pos`, `buf` overwrites what lies at `pos`, and
/// the data grows as far as needed.
pub open spec fn write_bytes(data: Seq<u8>, pos: nat, buf: Seq<u8>) -> Seq<u8> {
    let len = if data.len() > pos + buf.len() {
        data.len()
    } else {
        pos + buf.len()
    };
    Seq::new(
        len,
        |i: int|
            if pos <= i < pos + buf.len() {
                buf[i - pos]
            } else if i < data.len() {
                data[i]
            } else {
                0u8
            },
    )
}

/// The position a seek asks for, or `None` when it lies outside `0..=u64::MAX`.
pub open spec fn seek_position(s: CursorState, target: SeekTarget) -> Option<u64> {
    let p: int = match target {
        SeekTarget::Start(n) => n as int,
        SeekTarget::Current(off) => s.pos + off,
        SeekTarget::End(off) => s.data.len() + off,
    };
    if 0 <= p <= u64::MAX {
        Some(p as u64)
    } else {
        None
    }
}

impl BytesCursor {
    /// A cursor at position 0 over `data`.
    pub fn new(data: Vec<u8>) -> (c: Self)
        ensures
            c@.data == data@,
            c@.pos == 0,
    {
        BytesCursor { data, pos: 0 }
    }

    /// The position of the next read or write.
    pub fn position(&self) -> (p: u64)
        ensures
            p == self@.pos,
    {
        self.pos
    }

    /// Moves the cursor to `pos`, which may lie beyond the end.
    pub fn set_position(&mut self, pos: u64)
        ensures
            final(self)@.data == old(self)@.data,
            final(self)@.pos == pos,
    {
        self.pos = pos;
    }

    /// The data.
    pub fn get_ref(&self) -> (r: &Vec<u8>)
        ensures
            r@ == self@.data,
    {
        &self.data
    }

    /// Number of bytes of data.
    pub fn len(&self) -> (n: usize)
        ensures
            n == self@.data.len(),
    {
        self.data.len()
    }

    /// Removes all data; the position is left as it is.
    pub fn clear_data(&mut self)
        ensures
            final(self)@.data == Seq::<u8>::empty(),
            final(self)@.pos == old(self)@.pos,
    {
        self.data.clear();
    }

    /// Reads at most `n` bytes from the position and advances past them.
    pub fn read(&mut self, n: usize) -> (r: Vec<u8>)
        ensures
            r@ == read_bytes(old(self)@, n as nat),
            final(self)@.data == old(self)@.data,
            final(self)@.pos == old(self)@.pos + r@.len(),
    {
        let len = self.data.len();
        let start: usize = if self.pos < len as u64 {
            self.pos as usize
        } else {
            len
        };
        let k: usize = if n < len - start {
            n
        } else {
            len - start
        };
        let mut r: Vec<u8> = Vec::new();
        let mut j: usize = 0;
        while j < k
            invariant
                start + k <= len == self.data@.len(),
                j <= k,
                r@ == self.data@.subrange(start as int, start + j),
            decreases k - j,
        {
            r.push(self.data[start + j]);
            j = j + 1;
            assert(r@ =~= self.data@.subrange(start as int, start + j));
        }
        proof {
            if self.pos >= len as u64 {
                assert(k == 0);
            }
        }
        self.pos = self.pos + k as u64;
        r
    }

    /// Writes `buf` at the position and advances past it; the whole buffer
    /// is always taken.
    pub fn write(&mut self, buf: &[u8]) -> (n: usize)
        requires
            old(self)@.pos + buf@.len() <= usize::MAX,
        ensures
            n == buf@.len(),
            final(self)@.data == write_bytes(old(self)@.data, old(self)@.pos as nat, buf@),
            final(self)@.pos == old(self)@.pos + buf@.len(),
    {
        let ghost old_data = self.data@;
        let pos = self.pos as usize;
        while self.data.len() < pos
            invariant
                pos == old(self)@.pos,
                self.pos == old(self)@.pos,
                pos + buf@.len() <= usize::MAX,
                self.data@.len() <= pos || self.data@.len() == old_data.len(),
                forall|i: int|
                    0 <= i < self.data@.len() ==> self.data@[i] == (if i < old_data.len() {
                        old_data[i]
                    } else {
                        0u8
                    }),
                self.data@.len() >= old_data.len(),
            decreases pos - self.data@.len(),
        {
            self.data.push(0u8);
        }
        let mut k: usize = 0;
        while k < buf.len()
            invariant
                pos == old(self)@.pos,
                self.pos == old(self)@.pos,
                pos + buf@.len() <= usize::MAX,
                k <= buf@.len(),
                self.data@.len() >= pos + k,
                self.data@.len() == (if old_data.len() > pos + k {
                    old_data.len() as int
                } else {
                    (pos + k) as int
                }),
                forall|i: int|
                    0 <= i < self.data@.len() ==> self.data@[i] == (if pos <= i < pos + k {
                        buf@[i - pos]
                    } else if i < old_data.len() {
                        old_data[i]
                    } else {
                        0u8
                    }),
            decreases buf@.len() - k,
        {
            if pos + k < self.data.len() {
                self.data.set(pos + k, buf[k]);
            } else {
                self.data.push(buf[k]);
            }
            k = k + 1;
        }
        assert(self.data@ =~= write_bytes(old_data, pos as nat, buf@));
        self.pos = self.pos + buf.len() as u64;
        buf.len()
    }

    /// Moves the cursor as `target` asks, failing (and staying put) when
    /// the new position would be negative or overflow.
    pub fn seek(&mut self, target: SeekTarget) -> (r: Result<u64, SeekError>)
        ensures
            final(self)@.data == old(self)@.data,
            match seek_position(old(self)@, target) {
                Some(p) => r == Ok::<u64, SeekError>(p) && final(self)@.pos == p,
                None => r == Err::<u64, SeekError>(SeekError::InvalidPosition) && final(self)@.pos
                    == old(self)@.pos,
            },
    {
        let p: i128 = match target {
            SeekTarget::Start(n) => n as i128,
            SeekTarget::Current(off) => self.pos as i128 + off as i128,
            SeekTarget::End(off) => self.data.len() as i128 + off as i128,
        };
        if 0 <= p && p <= u64::MAX as i128 {
            self.pos = p as u64;
            Ok(self.pos)
        } else {
            Err(SeekError::InvalidPosition)
        }
    }
}

/// `String::from_utf8` from the standard library: the bytes as a string
/// when they are valid UTF-8, in which case the string's UTF-8 encoding is
/// exactly those bytes.
#[verifier::external_body]
fn string_from_utf8(bytes: Vec<u8>) -> (r: Option<String>)
    ensures
        r is Some <==> valid_utf8(bytes@),
        r matches Some(s) ==> encode_utf8(s@) == bytes@,
{
    String::from_utf8(bytes).ok()
}

/// An in-memory reader over a fixed byte string.
pub struct BytesReader {
    inner: BytesCursor,
}

impl View for BytesReader {
    type V = CursorState;

    closed spec fn view(&self) -> CursorState {
        self.inner@
    }
}

impl BytesReader {
    /// A reader over a copy of `data` (binary-safe), at position 0.
    pub fn from_bytes(data: &[u8]) -> (r: Self)
        ensures
            r@.data == data@,
            r@.pos == 0,
    {
        BytesReader { inner: BytesCursor::new(vstd::slice::slice_to_vec(data)) }
    }

    /// A reader over the UTF-8 bytes of `s`, at position 0.
    pub fn from_string(s: String) -> (r: Self)
        ensures
            r@.data == encode_utf8(s@),
            r@.pos == 0,
    {
        let bytes = vstd::slice::slice_to_vec(s.as_str().as_bytes());
        BytesReader { inner: BytesCursor::new(bytes) }
    }

    /// Total length of the data.
    pub fn len(&self) -> (n: i64)
        ensures
            n == self@.data.len() as i64,
    {
        self.inner.len() as i64
    }

    /// Current position.
    pub fn position(&self) -> (p: i64)
        ensures
            p == self@.pos as i64,
    {
        self.inner.position() as i64
    }

    /// Bytes left from the position to the end (zero when past the end).
    pub fn remaining(&self) -> (n: i64)
        ensures
            n == (if self@.pos < self@.data.len() {
                (self@.data.len() - self@.pos) as u64
            } else {
                0u64
            }) as i64,
    {
        let len = self.inner.len() as u64;
        let pos = self.inner.position();
        let rem: u64 = if pos < len {
            len - pos
        } else {
            0
        };
        rem as i64
    }

    /// Moves back to the beginning.
    pub fn reset(&mut self)
        ensures
            final(self)@.data == old(self)@.data,
            final(self)@.pos == 0,
    {
        self.inner.set_position(0);
    }

    /// Reads at most `n` bytes (see [`BytesCursor::read`]).
    pub fn read(&mut self, n: usize) -> (r: Vec<u8>)
        ensures
            r@ == read_bytes(old(self)@, n as nat),
            final(self)@.data == old(self)@.data,
            final(self)@.pos == old(self)@.pos + r@.len(),
    {
        self.inner.read(n)
    }

    /// Moves the position (see [`BytesCursor::seek`]).
    pub fn seek(&mut self, target: SeekTarget) -> (r: Result<u64, SeekError>)
        ensures
            final(self)@.data == old(self)@.data,
            match seek_position(old(self)@, target) {
                Some(p) => r == Ok::<u64, SeekError>(p) && final(self)@.pos == p,
                None => r == Err::<u64, SeekError>(SeekError::InvalidPosition) && final(self)@.pos
                    == old(self)@.pos,
            },
    {
        self.inner.seek(target)
    }
}

/// An in-memory writer that collects what is written to it.
pub struct BytesWriter {
    inner: BytesCursor,
}

impl View for BytesWriter {
    type V = CursorState;

    closed spec fn view(&self) -> CursorState {
        self.inner@
    }
}

impl BytesWriter {
    /// An empty writer.
    pub fn new() -> (w: Self)
        ensures
            w@.data == Seq::<u8>::empty(),
            w@.pos == 0,
    {
        BytesWriter { inner: BytesCursor::new(Vec::new()) }
    }

    /// An empty writer with room reserved for `capacity` bytes (none when
    /// `capacity` is negative).
    pub fn with_capacity(capacity: i64) -> (w: Self)
        ensures
            w@.data == Seq::<u8>::empty(),
            w@.pos == 0,
    {
        let cap: usize = if capacity > 0 {
            if capacity as u64 > usize::MAX as u64 {
                usize::MAX
            } else {
                capacity as usize
            }
        } else {
            0
        };
        BytesWriter { inner: BytesCursor::new(Vec::with_capacity(cap)) }
    }

    /// Length of the data written.
    pub fn len(&self) -> (n: i64)
        ensures
            n == self@.data.len() as i64,
    {
        self.inner.len() as i64
    }

    /// Current write position.
    pub fn position(&self) -> (p: i64)
        ensures
            p == self@.pos as i64,
    {
        self.inner.position() as i64
    }

    /// Discards all data and moves back to the beginning.
    pub fn clear(&mut self)
        ensures
            final(self)@.data == Seq::<u8>::empty(),
            final(self)@.pos == 0,
    {
        self.inner.clear_data();
        self.inner.set_position(0);
    }

    /// A copy of the data written.
    pub fn to_bytes(&self) -> (r: Vec<u8>)
        ensures
            r@ == self@.data,
    {
        vstd::slice::slice_to_vec(self.inner.get_ref().as_slice())
    }

    /// The data as a string, or `None` when it is not valid UTF-8.
    pub fn to_string(&self) -> (r: Option<String>)
        ensures
            r is Some <==> valid_utf8(self@.data),
            r matches Some(s) ==> encode_utf8(s@) == self@.data,
    {
        string_from_utf8(self.to_bytes())
    }

    /// Writes `buf` at the position (see [`BytesCursor::write`]).
    pub fn write(&mut self, buf: &[u8]) -> (n: usize)
        requires
            old(self)@.pos + buf@.len() <= usize::MAX,
        ensures
            n == buf@.len(),
            final(self)@.data == write_bytes(old(self)@.data, old(self)@.pos as nat, buf@),
            final(self)@.pos == old(self)@.pos + buf@.len(),
    {
        self.inner.write(buf)
    }

    /// Reads at most `n` bytes (see [`BytesCursor::read`]).
    pub fn read(&mut self, n: usize) -> (r: Vec<u8>)
        ensures
            r@ == read_bytes(old(self)@, n as nat),
            final(self)@.data == old(self)@.data,
            final(self)@.pos == old(self)@.pos + r@.len(),
    {
        self.inner.read(n)
    }

    /// Moves the position (see [`BytesCursor::seek`]).
    pub fn seek(&mut self, target: SeekTarget) -> (r: Result<u64, SeekError>)
        ensures
            final(self)@.data == old(self)@.data,
            match seek_position(old(self)@, target) {
                Some(p) => r == Ok::<u64, SeekError>(p) && final(self)@.pos == p,
                None => r == Err::<u64, SeekError>(SeekError::InvalidPosition) && final(self)@.pos
                    == old(self)@.pos,
            },
    {
        self.inner.seek(target)
    }
}

// ---------------------------------------------------------------------------
// Laws of the byte cursor.
// ---------------------------------------------------------------------------

/// What is written can be read back: after writing `buf` at position `p`,
/// going back to `p` and reading `buf.len()` bytes gives `buf`.
pub proof fn law_write_then_read_back(data: Seq<u8>, p: u64, buf: Seq<u8>)
    requires
        p + buf.len() <= u64::MAX,
    ensures
        read_bytes(CursorState { data: write_bytes(data, p as nat, buf), pos: p }, buf.len())
            == buf,
{
    let w = write_bytes(data, p as nat, buf);
    assert(read_bytes(CursorState { data: w, pos: p }, buf.len()) =~= buf);
}

/// Writing keeps what lies outside the written range, and the data never
/// shrinks.
pub proof fn law_write_keeps_other_bytes(data: Seq<u8>, p: nat, buf: Seq<u8>, i: int)
    requires
        0 <= i < data.len(),
        !(p <= i < p + buf.len()),
    ensures
        write_bytes(data, p, buf).len() >= data.len(),
        write_bytes(data, p, buf)[i] == data[i],
{
}

/// Reading the whole data from the start gives the whole data.
pub proof fn law_read_all_from_start(data: Seq<u8>)
    ensures
        read_bytes(CursorState { data: data, pos: 0 }, data.len()) == data,
{
    assert(read_bytes(CursorState { data: data, pos: 0 }, data.len()) =~= data);
}

/// Consecutive reads return consecutive pieces: reading `a` bytes and then
/// `b` bytes gives the same bytes as one read of `a + b`.
pub proof fn law_reads_concatenate(s: CursorState, a: nat, b: nat)
    requires
        s.pos + a + b <= u64::MAX,
    ensures
        ({
            let first = read_bytes(s, a);
            let next = CursorState { data: s.data, pos: (s.pos + first.len()) as u64 };
            first + read_bytes(next, b) == read_bytes(s, a + b)
        }),
{
    let first = read_bytes(s, a);
    let next = CursorState { data: s.data, pos: (s.pos + first.len()) as u64 };
    assert(first + read_bytes(next, b) =~= read_bytes(s, a + b));
}

/// A seek to an absolute position always succeeds and lands there.
pub proof fn law_seek_start(s: CursorState, n: u64)
    ensures
        seek_position(s, SeekTarget::Start(n)) == Some(n),
{
}

} // verus!
