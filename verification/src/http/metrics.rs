//! The timing marks of an HTTP request and the metrics built from them.
//!
//! Instants are read from a monotonic clock by the caller and handed in as
//! nanoseconds since an arbitrary origin; the glue turns the resulting
//! durations into floating-point seconds for PHP.

use vstd::prelude::*;

verus! {

/// The marks recorded while a request runs.
pub struct MetricsMarks {
    pub start: u64,
    pub request_sent: Option<u64>,
    pub first_byte: Option<u64>,
    pub redirects: u32,
}

/// Durations of a finished request, in nanoseconds.
#[derive(Debug, Clone, Copy, PartialEq, Eq)]
pub struct RequestDurations {
    pub total: u64,
    pub time_to_first_byte: u64,
    pub request_send: u64,
    pub redirect_count: u32,
}

/// Whether every mark lies between the start and `end`.
pub open spec fn marks_within(m: MetricsMarks, end: u64) -> bool {
    &&& m.start <= end
    &&& m.request_sent matches Some(t) ==> m.start <= t <= end
    &&& m.first_byte matches Some(t) ==> m.start <= t <= end
}

/// The durations of a request that ended at `end`: the time to the first
/// byte is the whole time when no byte was marked, and the send time is
/// zero when the send was not marked.
pub open spec fn durations_spec(m: MetricsMarks, end: u64) -> RequestDurations {
    RequestDurations {
        total: (end - m.start) as u64,
        time_to_first_byte: match m.first_byte {
            Some(t) => (t - m.start) as u64,
            None => (end - m.start) as u64,
        },
        request_send: match m.request_sent {
            Some(t) => (t - m.start) as u64,
            None => 0,
        },
        redirect_count: m.redirects,
    }
}

/// One call on a collector: a send mark, a first-byte mark, or a
/// followed redirect.
pub enum MarkEvent {
    RequestSent(u64),
    FirstByte(u64),
    Redirect,
}

/// The marks after one call on the collector.
pub open spec fn apply_mark(m: MetricsMarks, e: MarkEvent) -> MetricsMarks {
    match e {
        MarkEvent::RequestSent(t) => MetricsMarks { request_sent: Some(t), ..m },
        MarkEvent::FirstByte(t) => MetricsMarks {
            first_byte: match m.first_byte {
                Some(x) => Some(x),
                None => Some(t),
            },
            ..m
        },
        MarkEvent::Redirect => MetricsMarks { redirects: (m.redirects + 1) as u32, ..m },
    }
}

/// The marks after a sequence of calls, in order.
pub open spec fn apply_marks(m: MetricsMarks, es: Seq<MarkEvent>) -> MetricsMarks
    decreases es.len(),
{
    if es.len() == 0 {
        m
    } else {
        apply_mark(apply_marks(m, es.drop_last()), es.last())
    }
}

/// The number of redirects among the calls.
pub open spec fn redirect_calls(es: Seq<MarkEvent>) -> nat
    decreases es.len(),
{
    if es.len() == 0 {
        0
    } else {
        redirect_calls(es.drop_last()) + if es.last() is Redirect {
            1nat
        } else {
            0nat
        }
    }
}

/// The instant of the first first-byte mark among the calls.
pub open spec fn first_first_byte(es: Seq<MarkEvent>) -> Option<u64>
    decreases es.len(),
{
    if es.len() == 0 {
        None
    } else {
        match first_first_byte(es.drop_last()) {
            Some(t) => Some(t),
            None => match es.last() {
                MarkEvent::FirstByte(t) => Some(t),
                _ => None,
            },
        }
    }
}

/// The instant of the last send mark among the calls.
pub open spec fn last_request_sent(es: Seq<MarkEvent>) -> Option<u64>
    decreases es.len(),
{
    if es.len() == 0 {
        None
    } else {
        match es.last() {
            MarkEvent::RequestSent(t) => Some(t),
            _ => last_request_sent(es.drop_last()),
        }
    }
}

/// The instant of a call, if it marks one, lies between `start` and `end`.
pub open spec fn mark_within(e: MarkEvent, start: u64, end: u64) -> bool {
    match e {
        MarkEvent::RequestSent(t) => start <= t <= end,
        MarkEvent::FirstByte(t) => start <= t <= end,
        MarkEvent::Redirect => true,
    }
}

/// The marks of a fresh collector started at `start`.
pub open spec fn fresh_marks(start: u64) -> MetricsMarks {
    MetricsMarks { start, request_sent: None, first_byte: None, redirects: 0 }
}

/// Collects the marks of one request.
pub struct MetricsCollector {
    marks: MetricsMarks,
}

impl View for MetricsCollector {
    type V = MetricsMarks;

    closed spec fn view(&self) -> MetricsMarks {
        self.marks
    }
}

impl MetricsCollector {
    /// A collector for a request started at `now`.
    pub fn new(now: u64) -> (c: Self)
        ensures
            c@ == (MetricsMarks { start: now, request_sent: None, first_byte: None, redirects: 0 }),
            c@ == fresh_marks(now),
    {
        MetricsCollector {
            marks: MetricsMarks { start: now, request_sent: None, first_byte: None, redirects: 0 },
        }
    }

    /// Marks that the request was sent at `now` (a later mark replaces an
    /// earlier one).
    pub fn mark_request_sent(&mut self, now: u64)
        ensures
            final(self)@ == (MetricsMarks { request_sent: Some(now), ..old(self)@ }),
            final(self)@ == apply_mark(old(self)@, MarkEvent::RequestSent(now)),
    {
        self.marks.request_sent = Some(now);
    }

    /// Marks that the first byte arrived at `now`; only the first such mark
    /// counts.
    pub fn mark_first_byte(&mut self, now: u64)
        ensures
            final(self)@ == (MetricsMarks {
                first_byte: match old(self)@.first_byte {
                    Some(t) => Some(t),
                    None => Some(now),
                },
                ..old(self)@
            }),
            final(self)@ == apply_mark(old(self)@, MarkEvent::FirstByte(now)),
    {
        if self.marks.first_byte.is_none() {
            self.marks.first_byte = Some(now);
        }
    }

    /// The number of redirects counted so far.
    pub fn redirects(&self) -> (n: u32)
        ensures
            n == self@.redirects,
    {
        self.marks.redirects
    }

    /// Counts a followed redirect.
    pub fn increment_redirects(&mut self)
        requires
            old(self)@.redirects < u32::MAX,
        ensures
            final(self)@ == (MetricsMarks { redirects: (old(self)@.redirects + 1) as u32, ..old(self)@ }),
            final(self)@ == apply_mark(old(self)@, MarkEvent::Redirect),
    {
        self.marks.redirects = self.marks.redirects + 1;
    }

    /// The durations of the request, finished at `end`.
    pub fn build(self, end: u64) -> (d: RequestDurations)
        requires
            marks_within(self@, end),
        ensures
            d == durations_spec(self@, end),
    {
        let m = self.marks;
        let total = end - m.start;
        let ttfb = match m.first_byte {
            Some(t) => t - m.start,
            None => total,
        };
        let send = match m.request_sent {
            Some(t) => t - m.start,
            None => 0,
        };
        RequestDurations { total, time_to_first_byte: ttfb, request_send: send, redirect_count: m.redirects }
    }
}

/// No part of a request takes longer than the whole of it.
pub proof fn law_parts_within_total(m: MetricsMarks, end: u64)
    requires
        marks_within(m, end),
    ensures
        durations_spec(m, end).time_to_first_byte <= durations_spec(m, end).total,
        durations_spec(m, end).request_send <= durations_spec(m, end).total,
{
}

proof fn lemma_apply_marks(start: u64, es: Seq<MarkEvent>)
    requires
        redirect_calls(es) <= u32::MAX,
    ensures
        apply_marks(fresh_marks(start), es) == (MetricsMarks {
            start,
            request_sent: last_request_sent(es),
            first_byte: first_first_byte(es),
            redirects: redirect_calls(es) as u32,
        }),
    decreases es.len(),
{
    if es.len() > 0 {
        lemma_apply_marks(start, es.drop_last());
    }
}

proof fn lemma_marks_within(es: Seq<MarkEvent>, start: u64, end: u64)
    requires
        forall|i: int| 0 <= i < es.len() ==> mark_within(#[trigger] es[i], start, end),
    ensures
        first_first_byte(es) matches Some(t) ==> start <= t <= end,
        last_request_sent(es) matches Some(t) ==> start <= t <= end,
    decreases es.len(),
{
    if es.len() > 0 {
        assert(mark_within(es[es.len() - 1], start, end));
        assert forall|i: int| 0 <= i < es.drop_last().len() implies mark_within(
            #[trigger] es.drop_last()[i],
            start,
            end,
        ) by {
            assert(es.drop_last()[i] == es[i]);
        }
        lemma_marks_within(es.drop_last(), start, end);
    }
}

/// Whatever marks a collector received, in whatever order, the metrics it
/// builds count exactly the redirects, take the time to the first byte at
/// the first first-byte mark (the whole time when there was none) and the
/// send time at the last send mark (zero when there was none), and no part
/// exceeds the whole. The marks lie between the start and the end, so
/// `build` may be called.
pub proof fn law_metrics_over_marks(start: u64, es: Seq<MarkEvent>, end: u64)
    requires
        start <= end,
        forall|i: int| 0 <= i < es.len() ==> mark_within(#[trigger] es[i], start, end),
        redirect_calls(es) <= u32::MAX,
    ensures
        marks_within(apply_marks(fresh_marks(start), es), end),
        ({
            let d = durations_spec(apply_marks(fresh_marks(start), es), end);
            &&& d.redirect_count == redirect_calls(es)
            &&& d.total == end - start
            &&& d.time_to_first_byte <= d.total
            &&& d.request_send <= d.total
            &&& d.time_to_first_byte == match first_first_byte(es) {
                Some(t) => t - start,
                None => end - start,
            }
            &&& d.request_send == match last_request_sent(es) {
                Some(t) => t - start,
                None => 0,
            }
        }),
{
    lemma_apply_marks(start, es);
    lemma_marks_within(es, start, end);
    law_parts_within_total(apply_marks(fresh_marks(start), es), end);
}

} // verus!
