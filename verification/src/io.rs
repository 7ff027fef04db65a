//! Decisions of the kernel IO wrappers: how a read length and a seek request
//! are checked, what a finished read hands back, and the state machine of an
//! IO object whose reads, writes and seeks are answered by PHP methods.

use vstd::prelude::*;
use crate::bytes_io::SeekTarget;
use crate::text::{chars_to_string, push_signed_decimal, signed_decimal, str_to_chars};

verus! {

/// The message of a read whose length is negative.
pub open spec fn negative_read_length_message() -> Seq<char> {
    "read length must be non-negative"@
}

/// Checks the length of a read request: a length that is negative (or does
/// not fit in `usize`) is refused.
pub fn read_length(length: i64) -> (r: Result<usize, String>)
    ensures
        match r {
            Ok(n) => 0 <= length && length <= usize::MAX && n as int == length as int,
            Err(m) => (length < 0 || length > usize::MAX) && m@ == negative_read_length_message(),
        },
{
    if length < 0 || (length as u64) > (usize::MAX as u64) {
        proof {
            reveal_strlit("read length must be non-negative");
        }
        Err(String::from_str("read length must be non-negative"))
    } else {
        Ok(length as usize)
    }
}

/// What a read of `buf.len()` bytes hands back once the stream reported
/// `n` bytes read: nothing at the end of the stream, else the first `n`
/// bytes of the buffer.
pub fn read_outcome(buf: Vec<u8>, n: usize) -> (r: Option<Vec<u8>>)
    requires
        n <= buf@.len(),
    ensures
        n == 0 ==> r is None,
        n > 0 ==> (r matches Some(b) && b@ == buf@.take(n as int)),
{
    if n == 0 {
        None
    } else {
        let mut b = buf;
        b.truncate(n);
        Some(b)
    }
}

/// The seek a `(offset, whence)` pair asks for, as `fseek` numbers them:
/// 0 from the start (the offset must not be negative), 1 from the current
/// position, 2 from the end.
pub open spec fn seek_request_spec(offset: i64, whence: i64) -> Result<SeekTarget, Seq<char>> {
    if whence == 0 {
        if offset < 0 {
            Err("seek offset must be non-negative for SEEK_SET"@)
        } else {
            Ok(SeekTarget::Start(offset as u64))
        }
    } else if whence == 1 {
        Ok(SeekTarget::Current(offset))
    } else if whence == 2 {
        Ok(SeekTarget::End(offset))
    } else {
        Err("invalid whence value: "@ + signed_decimal(whence as int))
    }
}

/// Checks a seek request and gives the seek it names, or the message for a
/// request that names none.
pub fn seek_request(offset: i64, whence: i64) -> (r: Result<SeekTarget, String>)
    ensures
        match (r, seek_request_spec(offset, whence)) {
            (Ok(t), Ok(u)) => t == u,
            (Err(m), Err(e)) => m@ == e,
            _ => false,
        },
{
    if whence == 0 {
        if offset < 0 {
            proof {
                reveal_strlit("seek offset must be non-negative for SEEK_SET");
            }
            Err(String::from_str("seek offset must be non-negative for SEEK_SET"))
        } else {
            Ok(SeekTarget::Start(offset as u64))
        }
    } else if whence == 1 {
        Ok(SeekTarget::Current(offset))
    } else if whence == 2 {
        Ok(SeekTarget::End(offset))
    } else {
        let mut v = str_to_chars("invalid whence value: ");
        push_signed_decimal(&mut v, whence);
        Err(chars_to_string(&v))
    }
}

/// A value a PHP method answered with, as far as the IO bridge tells
/// values apart.
#[derive(Debug, Clone, PartialEq, Eq)]
pub enum PhpReply {
    /// `null`.
    Null,
    /// A string, by its bytes.
    Bytes(Vec<u8>),
    /// An integer.
    Long(i64),
    /// Anything else.
    Other,
}

/// Why an answer of a PHP IO object was refused.
#[derive(Debug, Clone, Copy, PartialEq, Eq)]
pub enum PhpIoError {
    /// `read` answered with more bytes than were asked for.
    ReadTooLong,
    /// `read` answered with something that is neither `null` nor a string.
    InvalidRead,
    /// `read_line` answered with something that is neither `null` nor a string.
    InvalidReadLine,
    /// `write` answered with something that is not an integer.
    InvalidWrite,
    /// `seek` answered with something that is not an integer.
    InvalidSeek,
    /// A seek was completed that was never started.
    NoPendingSeek,
}

/// The text of the IO error for each refusal.
pub open spec fn php_io_message(e: PhpIoError) -> Seq<char> {
    match e {
        PhpIoError::ReadTooLong => "Read response exceeded requested length"@,
        PhpIoError::InvalidRead => "Invalid read response"@,
        PhpIoError::InvalidReadLine => "Invalid read_line response"@,
        PhpIoError::InvalidWrite => "Invalid write response"@,
        PhpIoError::InvalidSeek => "Invalid seek response"@,
        PhpIoError::NoPendingSeek => "No pending seek"@,
    }
}

impl PhpIoError {
    /// The message of the IO error.
    pub fn message(&self) -> (s: String)
        ensures
            s@ == php_io_message(*self),
    {
        match self {
            PhpIoError::ReadTooLong => String::from_str("Read response exceeded requested length"),
            PhpIoError::InvalidRead => String::from_str("Invalid read response"),
            PhpIoError::InvalidReadLine => String::from_str("Invalid read_line response"),
            PhpIoError::InvalidWrite => String::from_str("Invalid write response"),
            PhpIoError::InvalidSeek => String::from_str("Invalid seek response"),
            PhpIoError::NoPendingSeek => String::from_str("No pending seek"),
        }
    }
}

/// The `(offset, whence)` arguments of the PHP `seek` call for a seek.
pub open spec fn seek_call_args_spec(target: SeekTarget) -> (i64, i64) {
    match target {
        SeekTarget::Start(p) => (p as i64, 0),
        SeekTarget::Current(o) => (o, 1),
        SeekTarget::End(o) => (o, 2),
    }
}

/// The arguments of the PHP `seek` call for a seek.
pub fn seek_call_args(target: SeekTarget) -> (r: (i64, i64))
    ensures
        r == seek_call_args_spec(target),
{
    match target {
        SeekTarget::Start(p) => (p as i64, 0),
        SeekTarget::Current(o) => (o, 1),
        SeekTarget::End(o) => (o, 2),
    }
}

/// The new position a PHP `seek` answered with.
pub fn seek_reply(reply: PhpReply) -> (r: Result<u64, PhpIoError>)
    ensures
        match reply {
            PhpReply::Long(p) => r == Ok::<u64, PhpIoError>(p as u64),
            _ => r == Err::<u64, PhpIoError>(PhpIoError::InvalidSeek),
        },
{
    match reply {
        PhpReply::Long(p) => Ok(p as u64),
        _ => Err(PhpIoError::InvalidSeek),
    }
}

/// The number of bytes a PHP `write` answered it wrote.
pub fn write_reply(reply: PhpReply) -> (r: Result<usize, PhpIoError>)
    ensures
        match reply {
            PhpReply::Long(n) => r == Ok::<usize, PhpIoError>(n as usize),
            _ => r == Err::<usize, PhpIoError>(PhpIoError::InvalidWrite),
        },
{
    match reply {
        PhpReply::Long(n) => Ok(n as usize),
        _ => Err(PhpIoError::InvalidWrite),
    }
}

/// What a PHP IO object remembers between calls: whether `read` has
/// reported the end of the stream, whether a `read` was sent to PHP and not
/// yet answered, the bytes of the last `read_line` not yet consumed, and a
/// seek that was started but not completed.
pub struct PhpIoModel {
    pub read_eof: bool,
    pub read_pending: bool,
    pub buffer: Seq<u8>,
    pub pending_seek: Option<SeekTarget>,
}

/// The state of a PHP IO object.
pub struct PhpIoState {
    read_eof: bool,
    read_pending: bool,
    buffer: Vec<u8>,
    pending_seek: Option<SeekTarget>,
}

impl View for PhpIoState {
    type V = PhpIoModel;

    closed spec fn view(&self) -> PhpIoModel {
        PhpIoModel {
            read_eof: self.read_eof,
            read_pending: self.read_pending,
            buffer: self.buffer@,
            pending_seek: self.pending_seek,
        }
    }
}

/// What a read does next.
#[derive(Debug, Clone, PartialEq, Eq)]
pub enum ReadStep {
    /// Hand these bytes, taken from the buffer, to the reader.
    Deliver(Vec<u8>),
    /// The stream has ended: hand nothing.
    Eof,
    /// Call the PHP `read` method with this length.
    CallRead(i64),
    /// A `read` was sent and is not answered yet: wait for its reply and
    /// send nothing.
    AwaitRead,
}

/// What filling the read buffer does next.
#[derive(Debug, Clone, Copy, PartialEq, Eq)]
pub enum FillStep {
    /// The buffer holds bytes: hand them out.
    Ready,
    /// The stream has ended: hand out nothing.
    Eof,
    /// Call the PHP `read_line` method.
    CallReadLine,
}

/// How many buffered bytes a read of `remaining` bytes takes.
pub open spec fn take_count(m: PhpIoModel, remaining: nat) -> nat {
    if m.buffer.len() < remaining {
        m.buffer.len()
    } else {
        remaining
    }
}

/// The state after a read of `remaining` bytes, and the step it takes.
pub open spec fn poll_read_spec(m: PhpIoModel, remaining: usize) -> (PhpIoModel, Seq<u8>) {
    if m.buffer.len() > 0 {
        let k = take_count(m, remaining as nat) as int;
        (PhpIoModel { buffer: m.buffer.skip(k), ..m }, m.buffer.take(k))
    } else if m.read_eof || m.read_pending {
        (m, Seq::empty())
    } else {
        (PhpIoModel { read_pending: true, ..m }, Seq::empty())
    }
}

/// The state after `amt` buffered bytes were consumed.
pub open spec fn consume_spec(m: PhpIoModel, amt: usize) -> PhpIoModel {
    PhpIoModel { buffer: m.buffer.skip(take_count(m, amt as nat) as int), ..m }
}

/// The state after `read_line` answered `reply`.
pub open spec fn read_line_spec(m: PhpIoModel, reply: PhpReply) -> PhpIoModel {
    match reply {
        PhpReply::Null => PhpIoModel { read_eof: true, ..m },
        PhpReply::Bytes(b) => PhpIoModel { buffer: m.buffer + b@, ..m },
        _ => m,
    }
}

impl PhpIoState {
    /// A fresh IO object: nothing buffered, the stream not ended, no seek
    /// started.
    pub fn new() -> (s: Self)
        ensures
            s@ == (PhpIoModel {
                read_eof: false,
                read_pending: false,
                buffer: Seq::empty(),
                pending_seek: None,
            }),
    {
        PhpIoState { read_eof: false, read_pending: false, buffer: Vec::new(), pending_seek: None }
    }

    /// Whether `read` has reported the end of the stream.
    pub fn read_eof(&self) -> (b: bool)
        ensures
            b == self@.read_eof,
    {
        self.read_eof
    }

    /// The buffered bytes.
    pub fn buffer(&self) -> (b: &[u8])
        ensures
            b@ == self@.buffer,
    {
        self.buffer.as_slice()
    }

    /// A read of at most `remaining` bytes: buffered bytes go first; with
    /// none buffered, an ended stream hands nothing, a `read` already sent
    /// is waited for, and otherwise PHP's `read` is asked for `remaining`
    /// bytes and counts as sent.
    pub fn poll_read(&mut self, remaining: usize) -> (step: ReadStep)
        ensures
            final(self)@ == poll_read_spec(old(self)@, remaining).0,
            old(self)@.buffer.len() > 0 ==> (step matches ReadStep::Deliver(b) && b@
                == poll_read_spec(old(self)@, remaining).1),
            old(self)@.buffer.len() == 0 && old(self)@.read_eof ==> step == ReadStep::Eof,
            old(self)@.buffer.len() == 0 && !old(self)@.read_eof && old(self)@.read_pending
                ==> step == ReadStep::AwaitRead,
            old(self)@.buffer.len() == 0 && !old(self)@.read_eof && !old(self)@.read_pending
                ==> step == ReadStep::CallRead(remaining as i64),
    {
        if self.buffer.len() > 0 {
            let k = if self.buffer.len() < remaining {
                self.buffer.len()
            } else {
                remaining
            };
            let mut taken = self.buffer.split_off(k);
            std::mem::swap(&mut taken, &mut self.buffer);
            ReadStep::Deliver(taken)
        } else if self.read_eof {
            ReadStep::Eof
        } else if self.read_pending {
            ReadStep::AwaitRead
        } else {
            self.read_pending = true;
            ReadStep::CallRead(remaining as i64)
        }
    }

    /// Takes PHP's answer to `read(remaining)`, after which no `read` is
    /// waited for: `null` ends the stream and hands nothing; a string of at
    /// most `remaining` bytes is handed on; anything else is refused.
    pub fn on_read_reply(&mut self, reply: PhpReply, remaining: usize) -> (r: Result<
        Vec<u8>,
        PhpIoError,
    >)
        ensures
            match reply {
                PhpReply::Null => final(self)@ == (PhpIoModel {
                    read_eof: true,
                    read_pending: false,
                    ..old(self)@
                }) && (r matches Ok(b) && b@.len() == 0),
                PhpReply::Bytes(b) => final(self)@ == (PhpIoModel {
                    read_pending: false,
                    ..old(self)@
                }) && if b@.len() <= remaining {
                    (r matches Ok(d) && d@ == b@)
                } else {
                    r == Err::<Vec<u8>, PhpIoError>(PhpIoError::ReadTooLong)
                },
                _ => final(self)@ == (PhpIoModel { read_pending: false, ..old(self)@ }) && r
                    == Err::<Vec<u8>, PhpIoError>(PhpIoError::InvalidRead),
            },
    {
        self.read_pending = false;
        match reply {
            PhpReply::Null => {
                self.read_eof = true;
                Ok(Vec::new())
            },
            PhpReply::Bytes(b) => {
                if b.len() <= remaining {
                    Ok(b)
                } else {
                    Err(PhpIoError::ReadTooLong)
                }
            },
            _ => Err(PhpIoError::InvalidRead),
        }
    }

    /// Forgets the `read` in flight when the call to PHP failed.
    pub fn on_read_error(&mut self)
        ensures
            final(self)@ == (PhpIoModel { read_pending: false, ..old(self)@ }),
    {
        self.read_pending = false;
    }

    /// Filling the read buffer: buffered bytes are ready; with none, an
    /// ended stream is empty, and otherwise PHP's `read_line` is called.
    pub fn poll_fill_buf(&self) -> (step: FillStep)
        ensures
            self@.buffer.len() > 0 ==> step == FillStep::Ready,
            self@.buffer.len() == 0 && self@.read_eof ==> step == FillStep::Eof,
            self@.buffer.len() == 0 && !self@.read_eof ==> step == FillStep::CallReadLine,
    {
        if self.buffer.len() > 0 {
            FillStep::Ready
        } else if self.read_eof {
            FillStep::Eof
        } else {
            FillStep::CallReadLine
        }
    }

    /// Takes PHP's answer to `read_line`: `null` ends the stream, a string
    /// is appended to the buffer, anything else is refused.
    pub fn on_read_line_reply(&mut self, reply: PhpReply) -> (r: Result<(), PhpIoError>)
        ensures
            final(self)@ == read_line_spec(old(self)@, reply),
            r is Err <==> !(reply is Null || reply is Bytes),
            r is Err ==> r == Err::<(), PhpIoError>(PhpIoError::InvalidReadLine),
    {
        match reply {
            PhpReply::Null => {
                self.read_eof = true;
                Ok(())
            },
            PhpReply::Bytes(b) => {
                let mut b = b;
                self.buffer.append(&mut b);
                Ok(())
            },
            _ => Err(PhpIoError::InvalidReadLine),
        }
    }

    /// Drops the first `amt` buffered bytes (all of them if fewer are
    /// buffered).
    pub fn consume(&mut self, amt: usize)
        ensures
            final(self)@ == consume_spec(old(self)@, amt),
    {
        let k = if self.buffer.len() < amt {
            self.buffer.len()
        } else {
            amt
        };
        let rest = self.buffer.split_off(k);
        self.buffer = rest;
    }

    /// Starts a seek; it is sent to PHP when the seek is completed.
    pub fn start_seek(&mut self, target: SeekTarget)
        ensures
            final(self)@ == (PhpIoModel { pending_seek: Some(target), ..old(self)@ }),
    {
        self.pending_seek = Some(target);
    }

    /// Completes the started seek: gives the arguments of PHP's `seek`
    /// call and forgets the seek, or refuses when none was started.
    pub fn begin_seek(&mut self) -> (r: Result<(i64, i64), PhpIoError>)
        ensures
            final(self)@ == (PhpIoModel { pending_seek: None, ..old(self)@ }),
            match old(self)@.pending_seek {
                Some(t) => r == Ok::<(i64, i64), PhpIoError>(seek_call_args_spec(t)),
                None => r == Err::<(i64, i64), PhpIoError>(PhpIoError::NoPendingSeek),
            },
    {
        match self.pending_seek.take() {
            Some(t) => Ok(seek_call_args(t)),
            None => Err(PhpIoError::NoPendingSeek),
        }
    }
}

/// Reads take the buffered bytes in order: two reads in a row hand out the
/// buffer's first bytes, as one read of both lengths together would, and
/// leave the same bytes behind.
pub proof fn law_reads_drain_buffer_in_order(m: PhpIoModel, a: usize, b: usize)
    requires
        a + b <= m.buffer.len(),
        a > 0,
        b > 0,
        a + b <= usize::MAX,
    ensures
        ({
            let (m1, d1) = poll_read_spec(m, a);
            let (m2, d2) = poll_read_spec(m1, b);
            let (n, d) = poll_read_spec(m, (a + b) as usize);
            d1 + d2 == d && m2 == n
        }),
{
    let (m1, d1) = poll_read_spec(m, a);
    let (m2, d2) = poll_read_spec(m1, b);
    let (n, d) = poll_read_spec(m, (a + b) as usize);
    assert(d1 + d2 =~= d);
    assert(m2.buffer =~= n.buffer);
}

/// Every buffered byte is handed out exactly once: what a read hands out,
/// followed by what it leaves, is the buffer it found.
pub proof fn law_read_splits_buffer(m: PhpIoModel, remaining: usize)
    ensures
        poll_read_spec(m, remaining).1 + poll_read_spec(m, remaining).0.buffer == m.buffer,
        poll_read_spec(m, remaining).1.len() <= remaining,
{
    if m.buffer.len() > 0 {
        let k = take_count(m, remaining as nat) as int;
        assert(m.buffer.take(k) + m.buffer.skip(k) =~= m.buffer);
    } else {
        assert(Seq::<u8>::empty() + m.buffer =~= m.buffer);
    }
}

/// A line that `read_line` answered with is handed out by the reads that
/// follow, in order: with nothing buffered before, a read of its length
/// hands out exactly that line.
pub proof fn law_read_line_then_read(m: PhpIoModel, line: Vec<u8>)
    requires
        m.buffer.len() == 0,
        0 < line@.len() <= usize::MAX,
    ensures
        ({
            let m1 = read_line_spec(m, PhpReply::Bytes(line));
            let (m2, d) = poll_read_spec(m1, line@.len() as usize);
            d == line@ && m2.buffer.len() == 0
        }),
{
    let m1 = read_line_spec(m, PhpReply::Bytes(line));
    assert(m1.buffer =~= line@);
    let (m2, d) = poll_read_spec(m1, line@.len() as usize);
    assert(d =~= line@);
}

/// Once the stream has ended and the buffer is empty, every read hands
/// out nothing and leaves the state as it is.
pub proof fn law_end_of_stream_is_final(m: PhpIoModel, remaining: usize)
    requires
        m.read_eof,
        m.buffer.len() == 0,
    ensures
        poll_read_spec(m, remaining).0 == m,
        poll_read_spec(m, remaining).1.len() == 0,
{
}

/// At most one `read` is in flight: once a read has been sent to PHP,
/// later reads with nothing buffered send no other and change nothing
/// until the reply is taken.
pub proof fn law_one_read_in_flight(m: PhpIoModel, a: usize, b: usize)
    requires
        m.buffer.len() == 0,
        !m.read_eof,
    ensures
        poll_read_spec(m, a).0.read_pending,
        poll_read_spec(poll_read_spec(m, a).0, b) == (poll_read_spec(m, a).0, Seq::<u8>::empty()),
{
}

} // verus!
