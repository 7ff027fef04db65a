//! The bookkeeping of a Go-style channel: the buffer it is made with and
//! whether it still accepts values. The queue itself, which carries PHP
//! values, is kept by the glue.

use vstd::prelude::*;

verus! {

/// The buffer of a channel.
#[derive(Debug, Clone, Copy, PartialEq, Eq)]
pub enum ChannelCapacity {
    /// No limit.
    Unbounded,
    /// At most this many values wait (none: each send waits for a receiver).
    Bounded(usize),
}

/// The buffer for a requested capacity: none requested means zero; a
/// negative capacity means no limit.
pub open spec fn channel_capacity_spec(capacity: Option<i64>) -> ChannelCapacity {
    let cap = match capacity {
        Some(c) => c,
        None => 0,
    };
    if cap < 0 {
        ChannelCapacity::Unbounded
    } else {
        ChannelCapacity::Bounded(cap as usize)
    }
}

/// The message of a send on a closed channel.
pub open spec fn closed_send_message() -> Seq<char> {
    "Cannot send to closed channel"@
}

/// What a channel knows about itself: the capacity it was asked for and
/// whether it was closed.
pub struct ChannelState {
    capacity: i64,
    closed: bool,
}

impl View for ChannelState {
    type V = (i64, bool);

    closed spec fn view(&self) -> (i64, bool) {
        (self.capacity, self.closed)
    }
}

impl ChannelState {
    /// A new open channel, and the buffer it is made with.
    pub fn new(capacity: Option<i64>) -> (r: (Self, ChannelCapacity))
        ensures
            r.0@ == (
                match capacity {
                    Some(c) => c,
                    None => 0i64,
                },
                false,
            ),
            r.1 == channel_capacity_spec(capacity),
    {
        let cap: i64 = match capacity {
            Some(c) => c,
            None => 0,
        };
        let kind = if cap < 0 {
            ChannelCapacity::Unbounded
        } else {
            ChannelCapacity::Bounded(cap as usize)
        };
        (ChannelState { capacity: cap, closed: false }, kind)
    }

    /// The capacity the channel was asked for.
    pub fn capacity(&self) -> (c: i64)
        ensures
            c == self@.0,
    {
        self.capacity
    }

    /// Whether a send may begin: refused once the channel is closed.
    pub fn check_send(&self) -> (r: Result<(), String>)
        ensures
            r is Ok <==> !self@.1,
            r matches Err(m) ==> m@ == closed_send_message(),
    {
        if self.closed {
            Err(String::from_str("Cannot send to closed channel"))
        } else {
            Ok(())
        }
    }

    /// Closes the channel: no value can be sent after.
    pub fn close(&mut self) -> (b: bool)
        ensures
            b,
            final(self)@ == (old(self)@.0, true),
    {
        self.closed = true;
        true
    }

    /// Whether the channel was closed.
    pub fn is_closed(&self) -> (b: bool)
        ensures
            b == self@.1,
    {
        self.closed
    }
}

} // verus!
