//! Decisions of the HTTP server: how the body of an incoming request is
//! buffered and read, and which status a response is sent with.

use vstd::prelude::*;
use vstd::utf8::{decode_utf8, valid_utf8};
use bytes::BytesMut;
use crate::http::buffer::{
    buffer_bytes, buffer_extend, buffer_len, buffer_new, buffer_slice, buffer_split_to,
};
use crate::http::io::{string_from_utf8_lossy, utf8_lossy};

verus! {

/// A frame pulled from an incoming request body.
#[derive(Debug, Clone, PartialEq, Eq)]
pub enum BodyFrame {
    /// A frame of data.
    Data(Vec<u8>),
    /// A frame that carries no data (such as trailers).
    Other,
    /// The body has ended, or failed.
    End,
}

/// The bytes of a request body pulled but not yet read.
pub struct RequestBodyBuffer {
    buffer: BytesMut,
}

impl View for RequestBodyBuffer {
    type V = Seq<u8>;

    closed spec fn view(&self) -> Seq<u8> {
        buffer_bytes(self.buffer)
    }
}

/// How many buffered bytes a read of `length` takes.
pub open spec fn body_take_count(buffered: Seq<u8>, length: usize) -> nat {
    if length < buffered.len() {
        length as nat
    } else {
        buffered.len()
    }
}

impl RequestBodyBuffer {
    /// An empty buffer.
    pub fn new() -> (b: Self)
        ensures
            b@ == Seq::<u8>::empty(),
    {
        RequestBodyBuffer { buffer: buffer_new() }
    }

    /// The number of bytes buffered.
    pub fn len(&self) -> (n: usize)
        ensures
            n == self@.len(),
    {
        buffer_len(&self.buffer)
    }

    /// Whether a read of `length` must pull more frames first: it does
    /// while fewer bytes are buffered.
    pub fn wants_more(&self, length: usize) -> (b: bool)
        ensures
            b == (self@.len() < length),
    {
        buffer_len(&self.buffer) < length
    }

    /// Takes a pulled frame: data is buffered; returns whether pulling may
    /// go on (not after the body ended).
    pub fn push_frame(&mut self, frame: BodyFrame) -> (more: bool)
        requires
            frame matches BodyFrame::Data(d) ==> old(self)@.len() + d@.len() <= isize::MAX,
        ensures
            match frame {
                BodyFrame::Data(d) => final(self)@ == old(self)@ + d@ && more,
                BodyFrame::Other => final(self)@ == old(self)@ && more,
                BodyFrame::End => final(self)@ == old(self)@ && !more,
            },
    {
        match frame {
            BodyFrame::Data(d) => {
                buffer_extend(&mut self.buffer, d.as_slice());
                true
            },
            BodyFrame::Other => true,
            BodyFrame::End => false,
        }
    }

    /// Reads up to `length` buffered bytes from the front, as text (invalid
    /// UTF-8 replaced).
    pub fn take(&mut self, length: usize) -> (s: String)
        ensures
            ({
                let k = body_take_count(old(self)@, length) as int;
                &&& final(self)@ == old(self)@.skip(k)
                &&& s@ == utf8_lossy(old(self)@.take(k))
                &&& valid_utf8(old(self)@.take(k)) ==> s@ == decode_utf8(old(self)@.take(k))
            }),
    {
        let len = buffer_len(&self.buffer);
        let k = if length < len {
            length
        } else {
            len
        };
        let taken = buffer_split_to(&mut self.buffer, k);
        string_from_utf8_lossy(buffer_slice(&taken))
    }
}

/// Request body bytes are read in the order they arrived, each once: what
/// a read takes followed by what it leaves is what was buffered.
pub proof fn law_body_read_splits_buffer(buffered: Seq<u8>, length: usize)
    ensures
        buffered.take(body_take_count(buffered, length) as int) + buffered.skip(
            body_take_count(buffered, length) as int,
        ) == buffered,
        body_take_count(buffered, length) <= length,
{
    let k = body_take_count(buffered, length) as int;
    assert(buffered.take(k) + buffered.skip(k) =~= buffered);
}

/// The status a response set by PHP is given: its number taken as a
/// 16-bit code.
pub fn status_from_php(status: i64) -> (s: u16)
    ensures
        s == status as u16,
{
    status as u16
}

/// The status code a response is sent with: a code from 100 to 999 as
/// set, anything else as 200.
pub open spec fn sent_status_spec(status: u16) -> u16 {
    if 100 <= status && status <= 999 {
        status
    } else {
        200
    }
}

/// The status code a response is sent with.
pub fn sent_status(status: u16) -> (s: u16)
    ensures
        s == sent_status_spec(status),
{
    if 100 <= status && status <= 999 {
        status
    } else {
        200
    }
}

/// Every response is sent with a status code of three digits.
pub proof fn law_sent_status_has_three_digits(status: u16)
    ensures
        100 <= sent_status_spec(status) <= 999,
{
}

/// A value PHP gave for a connection option, as far as the options tell
/// values apart (durations, given as floats, are applied by the glue).
#[derive(Debug, Clone, Copy, PartialEq, Eq)]
pub enum PhpOption {
    Null,
    Bool(bool),
    Long(i64),
    Other,
}

/// A switch: set by a boolean, left alone otherwise.
pub open spec fn switch_spec(v: Option<PhpOption>) -> Option<bool> {
    match v {
        Some(PhpOption::Bool(b)) => Some(b),
        _ => None,
    }
}

/// A size: set by an integer (taken as an unsigned count), left alone
/// otherwise.
pub open spec fn size_spec(v: Option<PhpOption>) -> Option<usize> {
    match v {
        Some(PhpOption::Long(n)) => Some(n as usize),
        _ => None,
    }
}

/// A 32-bit size: set by an integer (taken as its low 32 bits), left alone
/// otherwise.
pub open spec fn size32_spec(v: Option<PhpOption>) -> Option<u32> {
    match v {
        Some(PhpOption::Long(n)) => Some(n as u32),
        _ => None,
    }
}

/// A limit: removed by `null`, set by an integer, left alone otherwise.
pub open spec fn limit_spec(v: Option<PhpOption>) -> Option<Option<usize>> {
    match v {
        Some(PhpOption::Null) => Some(None),
        Some(PhpOption::Long(n)) => Some(Some(n as usize)),
        _ => None,
    }
}

/// A 32-bit limit: removed by `null`, set by an integer, left alone
/// otherwise.
pub open spec fn limit32_spec(v: Option<PhpOption>) -> Option<Option<u32>> {
    match v {
        Some(PhpOption::Null) => Some(None),
        Some(PhpOption::Long(n)) => Some(Some(n as u32)),
        _ => None,
    }
}

fn switch(v: Option<PhpOption>) -> (r: Option<bool>)
    ensures
        r == switch_spec(v),
{
    match v {
        Some(PhpOption::Bool(b)) => Some(b),
        _ => None,
    }
}

fn size(v: Option<PhpOption>) -> (r: Option<usize>)
    ensures
        r == size_spec(v),
{
    match v {
        Some(PhpOption::Long(n)) => Some(n as usize),
        _ => None,
    }
}

fn size32(v: Option<PhpOption>) -> (r: Option<u32>)
    ensures
        r == size32_spec(v),
{
    match v {
        Some(PhpOption::Long(n)) => Some(n as u32),
        _ => None,
    }
}

fn limit(v: Option<PhpOption>) -> (r: Option<Option<usize>>)
    ensures
        r == limit_spec(v),
{
    match v {
        Some(PhpOption::Null) => Some(None),
        Some(PhpOption::Long(n)) => Some(Some(n as usize)),
        _ => None,
    }
}

fn limit32(v: Option<PhpOption>) -> (r: Option<Option<u32>>)
    ensures
        r == limit32_spec(v),
{
    match v {
        Some(PhpOption::Null) => Some(None),
        Some(PhpOption::Long(n)) => Some(Some(n as u32)),
        _ => None,
    }
}

/// What PHP passed for the HTTP/1 options, key by key (`None` where the
/// key is absent).
pub struct Http1Options {
    pub auto_date_header: Option<PhpOption>,
    pub half_close: Option<PhpOption>,
    pub keep_alive: Option<PhpOption>,
    pub title_case_headers: Option<PhpOption>,
    pub ignore_invalid_headers: Option<PhpOption>,
    pub preserve_header_case: Option<PhpOption>,
    pub max_headers: Option<PhpOption>,
    pub header_read_timeout: Option<PhpOption>,
    pub writev: Option<PhpOption>,
    pub max_buf_size: Option<PhpOption>,
    pub pipeline_flush: Option<PhpOption>,
}

/// The HTTP/1 settings to apply; `None` leaves a setting as it is.
pub struct Http1Settings {
    pub auto_date_header: Option<bool>,
    pub half_close: Option<bool>,
    pub keep_alive: Option<bool>,
    pub title_case_headers: Option<bool>,
    pub ignore_invalid_headers: Option<bool>,
    pub preserve_header_case: Option<bool>,
    pub max_headers: Option<usize>,
    /// Whether the header read timeout is removed (`null`); a timeout in
    /// seconds is applied by the glue.
    pub clear_header_read_timeout: bool,
    pub writev: Option<bool>,
    pub max_buf_size: Option<usize>,
    pub pipeline_flush: Option<bool>,
}

/// The HTTP/1 settings for the options PHP passed.
pub fn http1_settings(o: &Http1Options) -> (s: Http1Settings)
    ensures
        s.auto_date_header == switch_spec(o.auto_date_header),
        s.half_close == switch_spec(o.half_close),
        s.keep_alive == switch_spec(o.keep_alive),
        s.title_case_headers == switch_spec(o.title_case_headers),
        s.ignore_invalid_headers == switch_spec(o.ignore_invalid_headers),
        s.preserve_header_case == switch_spec(o.preserve_header_case),
        s.max_headers == size_spec(o.max_headers),
        s.clear_header_read_timeout == (o.header_read_timeout == Some(PhpOption::Null)),
        s.writev == switch_spec(o.writev),
        s.max_buf_size == size_spec(o.max_buf_size),
        s.pipeline_flush == switch_spec(o.pipeline_flush),
{
    Http1Settings {
        auto_date_header: switch(o.auto_date_header),
        half_close: switch(o.half_close),
        keep_alive: switch(o.keep_alive),
        title_case_headers: switch(o.title_case_headers),
        ignore_invalid_headers: switch(o.ignore_invalid_headers),
        preserve_header_case: switch(o.preserve_header_case),
        max_headers: size(o.max_headers),
        clear_header_read_timeout: match o.header_read_timeout {
            Some(PhpOption::Null) => true,
            _ => false,
        },
        writev: switch(o.writev),
        max_buf_size: size(o.max_buf_size),
        pipeline_flush: switch(o.pipeline_flush),
    }
}

/// What PHP passed for the HTTP/2 options, key by key (`None` where the
/// key is absent).
pub struct Http2Options {
    pub max_pending_accept_reset_streams: Option<PhpOption>,
    pub max_local_error_reset_streams: Option<PhpOption>,
    pub initial_stream_window_size: Option<PhpOption>,
    pub initial_connection_window_size: Option<PhpOption>,
    pub adaptive_window: Option<PhpOption>,
    pub max_frame_size: Option<PhpOption>,
    pub max_concurrent_streams: Option<PhpOption>,
    pub keep_alive_interval: Option<PhpOption>,
    pub max_send_buf_size: Option<PhpOption>,
    pub enable_connect_protocol: Option<PhpOption>,
    pub max_header_list_size: Option<PhpOption>,
    pub auto_date_header: Option<PhpOption>,
}

/// The HTTP/2 settings to apply; `None` leaves a setting as it is.
pub struct Http2Settings {
    pub max_pending_accept_reset_streams: Option<Option<usize>>,
    pub max_local_error_reset_streams: Option<Option<usize>>,
    pub initial_stream_window_size: Option<Option<u32>>,
    pub initial_connection_window_size: Option<Option<u32>>,
    pub adaptive_window: Option<bool>,
    pub max_frame_size: Option<Option<u32>>,
    pub max_concurrent_streams: Option<Option<u32>>,
    /// Whether keep-alive pings are turned off (`null`); an interval in
    /// seconds is applied by the glue.
    pub clear_keep_alive_interval: bool,
    pub max_send_buf_size: Option<usize>,
    pub enable_connect_protocol: bool,
    pub max_header_list_size: Option<u32>,
    pub auto_date_header: Option<bool>,
}

/// The HTTP/2 settings for the options PHP passed.
pub fn http2_settings(o: &Http2Options) -> (s: Http2Settings)
    ensures
        s.max_pending_accept_reset_streams == limit_spec(o.max_pending_accept_reset_streams),
        s.max_local_error_reset_streams == limit_spec(o.max_local_error_reset_streams),
        s.initial_stream_window_size == limit32_spec(o.initial_stream_window_size),
        s.initial_connection_window_size == limit32_spec(o.initial_connection_window_size),
        s.adaptive_window == switch_spec(o.adaptive_window),
        s.max_frame_size == limit32_spec(o.max_frame_size),
        s.max_concurrent_streams == limit32_spec(o.max_concurrent_streams),
        s.clear_keep_alive_interval == (o.keep_alive_interval == Some(PhpOption::Null)),
        s.max_send_buf_size == size_spec(o.max_send_buf_size),
        s.enable_connect_protocol == (o.enable_connect_protocol == Some(PhpOption::Bool(true))),
        s.max_header_list_size == size32_spec(o.max_header_list_size),
        s.auto_date_header == switch_spec(o.auto_date_header),
{
    Http2Settings {
        max_pending_accept_reset_streams: limit(o.max_pending_accept_reset_streams),
        max_local_error_reset_streams: limit(o.max_local_error_reset_streams),
        initial_stream_window_size: limit32(o.initial_stream_window_size),
        initial_connection_window_size: limit32(o.initial_connection_window_size),
        adaptive_window: switch(o.adaptive_window),
        max_frame_size: limit32(o.max_frame_size),
        max_concurrent_streams: limit32(o.max_concurrent_streams),
        clear_keep_alive_interval: match o.keep_alive_interval {
            Some(PhpOption::Null) => true,
            _ => false,
        },
        max_send_buf_size: size(o.max_send_buf_size),
        enable_connect_protocol: match o.enable_connect_protocol {
            Some(PhpOption::Bool(true)) => true,
            _ => false,
        },
        max_header_list_size: size32(o.max_header_list_size),
        auto_date_header: switch(o.auto_date_header),
    }
}

} // verus!
