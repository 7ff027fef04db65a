//! The bookkeeping of a ticker: a task that fires at a fixed interval until
//! it is stopped, optionally stopping itself after a number of ticks.
//!
//! The timer task itself runs outside; this state decides what each event
//! does to the ticker and whether the task is to be aborted.

use vstd::prelude::*;

verus! {

/// What a ticker knows about itself.
pub struct TickerModel {
    pub interval_ms: i64,
    pub tick_count: u64,
    pub max_ticks: Option<u64>,
    pub paused: bool,
    /// Whether the timer task still runs (its channel is open).
    pub active: bool,
}

/// The state of a ticker.
pub struct TickerState {
    interval_ms: i64,
    tick_count: u64,
    max_ticks: Option<u64>,
    paused: bool,
    active: bool,
}

impl View for TickerState {
    type V = TickerModel;

    closed spec fn view(&self) -> TickerModel {
        TickerModel {
            interval_ms: self.interval_ms,
            tick_count: self.tick_count,
            max_ticks: self.max_ticks,
            paused: self.paused,
            active: self.active,
        }
    }
}

/// The message of a wait on a stopped ticker.
pub open spec fn ticker_stopped_message() -> Seq<char> {
    "Ticker has been stopped."@
}

/// The state after one tick arrived: the count goes up by one, and a
/// ticker that has reached its maximum stops.
pub open spec fn tick_spec(m: TickerModel) -> TickerModel {
    let n = (m.tick_count + 1) as u64;
    let done = match m.max_ticks {
        Some(max) => n >= max,
        None => false,
    };
    TickerModel { tick_count: n, active: m.active && !done, ..m }
}

/// Whether a tick stops the ticker by reaching its maximum.
pub open spec fn tick_reaches_max(m: TickerModel) -> bool {
    match m.max_ticks {
        Some(max) => m.tick_count + 1 >= max,
        None => false,
    }
}

/// The maximum a requested limit sets: a positive limit, else none.
pub open spec fn max_ticks_spec(max: Option<i64>) -> Option<u64> {
    match max {
        Some(m) => if m > 0 {
            Some(m as u64)
        } else {
            None
        },
        None => None,
    }
}

impl TickerState {
    /// A running ticker with the given interval, no tick yet and no limit.
    pub fn new(interval_ms: i64) -> (s: Self)
        ensures
            s@ == (TickerModel {
                interval_ms,
                tick_count: 0,
                max_ticks: None,
                paused: false,
                active: true,
            }),
    {
        TickerState { interval_ms, tick_count: 0, max_ticks: None, paused: false, active: true }
    }

    /// Whether a wait for the next tick may begin: refused once the ticker
    /// has stopped.
    pub fn check_next_tick(&self) -> (r: Result<(), String>)
        ensures
            r is Ok <==> self@.active,
            r matches Err(m) ==> m@ == ticker_stopped_message(),
    {
        if self.active {
            Ok(())
        } else {
            Err(String::from_str("Ticker has been stopped."))
        }
    }

    /// Records a tick. Returns whether the ticker stopped now because it
    /// reached its maximum, in which case the timer task is to be aborted.
    pub fn on_tick(&mut self) -> (stop_task: bool)
        requires
            old(self)@.tick_count < u64::MAX,
        ensures
            final(self)@ == tick_spec(old(self)@),
            stop_task == tick_reaches_max(old(self)@),
    {
        self.tick_count = self.tick_count + 1;
        let done = match self.max_ticks {
            Some(max) => self.tick_count >= max,
            None => false,
        };
        if done {
            self.active = false;
        }
        done
    }

    /// Stops the ticker for good.
    pub fn stop(&mut self)
        ensures
            final(self)@ == (TickerModel { active: false, ..old(self)@ }),
    {
        self.active = false;
    }

    /// Restarts the ticker from the beginning: running again, not paused,
    /// no tick counted; the interval and the limit stay.
    pub fn reset(&mut self)
        ensures
            final(self)@ == (TickerModel {
                tick_count: 0,
                paused: false,
                active: true,
                ..old(self)@
            }),
    {
        self.tick_count = 0;
        self.paused = false;
        self.active = true;
    }

    /// The interval in milliseconds.
    pub fn get_interval(&self) -> (n: i64)
        ensures
            n == self@.interval_ms,
    {
        self.interval_ms
    }

    /// The number of ticks since the start or the last reset.
    pub fn get_tick_count(&self) -> (n: u64)
        ensures
            n == self@.tick_count,
    {
        self.tick_count
    }

    /// Sets the limit of ticks: a positive number sets it, zero, a negative
    /// number or none removes it.
    pub fn set_max_ticks(&mut self, max: Option<i64>)
        ensures
            final(self)@ == (TickerModel { max_ticks: max_ticks_spec(max), ..old(self)@ }),
    {
        self.max_ticks = match max {
            Some(m) => if m > 0 {
                Some(m as u64)
            } else {
                None
            },
            None => None,
        };
    }

    /// The limit of ticks, if any.
    pub fn get_max_ticks(&self) -> (r: Option<i64>)
        ensures
            r == (match self@.max_ticks {
                Some(m) => Some(m as i64),
                None => None::<i64>,
            }),
    {
        match self.max_ticks {
            Some(m) => Some(m as i64),
            None => None,
        }
    }

    /// Whether the ticker runs and is not paused.
    pub fn is_running(&self) -> (b: bool)
        ensures
            b == (self@.active && !self@.paused),
    {
        self.active && !self.paused
    }

    /// Whether the ticker has stopped.
    pub fn is_stopped(&self) -> (b: bool)
        ensures
            b == !self@.active,
    {
        !self.active
    }
}

/// A limit read back is the limit that was set: a positive limit comes
/// back unchanged, any other request leaves no limit.
pub proof fn law_max_ticks_round_trip(max: Option<i64>)
    ensures
        match max {
            Some(m) => if m > 0 {
                max_ticks_spec(max) matches Some(u) && u as i64 == m
            } else {
                max_ticks_spec(max) is None
            },
            None => max_ticks_spec(max) is None,
        },
{
}

/// A ticker with a limit stops itself on the tick that reaches the limit
/// and not before: a tick leaves it running exactly when the new count is
/// still below the limit.
pub proof fn law_ticker_stops_at_limit(m: TickerModel, max: u64)
    requires
        m.active,
        m.tick_count < max,
        m.max_ticks == Some(max),
    ensures
        tick_spec(m).active == (m.tick_count + 1 < max),
        tick_spec(m).tick_count == m.tick_count + 1,
{
}

/// A ticker without a limit never stops itself.
pub proof fn law_unlimited_ticker_keeps_running(m: TickerModel)
    requires
        m.active,
        m.max_ticks is None,
        m.tick_count < u64::MAX,
    ensures
        tick_spec(m).active,
{
}

/// A stopped ticker stays stopped through the ticks that still arrive.
pub proof fn law_stopped_ticker_stays_stopped(m: TickerModel)
    requires
        !m.active,
        m.tick_count < u64::MAX,
    ensures
        !tick_spec(m).active,
{
}

} // verus!
