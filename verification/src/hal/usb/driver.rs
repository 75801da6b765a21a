//! Pacing the USB bus's events: a bus that reports events back to back would starve every
//! other task on the executor, so a burst of them long enough counts as a flood and is
//! polled with a pause in between.

use vstd::prelude::*;

verus! {

/// Events in one burst from which the bus counts as flooding. Enumeration reports only a
/// handful, so a flood means the controller keeps reporting the same condition.
pub const FLOOD_EVENT_COUNT: u32 = 16;

/// What recording one bus event calls for.
#[derive(Clone, Copy, Debug, PartialEq, Eq, Structural)]
pub struct BurstOutcome {
    /// A flood ended with the quiet gap before this event, after this many events.
    pub flood_over_after: Option<u32>,
    /// This event made the burst a flood.
    pub flood_started: bool,
    /// The event is worth logging on its own: the bus is not flooding.
    pub log_event: bool,
}

/// Counts bus events into bursts: events closer together than a gap belong to one burst.
pub struct BurstTracker {
    last_event: u64,
    burst_events: u32,
}

impl BurstTracker {
    /// Time of the last event, in clock ticks.
    pub closed spec fn spec_last_event(self) -> u64 {
        self.last_event
    }

    /// Events in the current burst.
    pub closed spec fn spec_burst_events(self) -> u32 {
        self.burst_events
    }

    /// No event seen yet, as if the last one was at the start of time.
    pub fn new() -> (r: Self)
        ensures
            r.spec_last_event() == 0,
            r.spec_burst_events() == 0,
    {
        BurstTracker { last_event: 0, burst_events: 0 }
    }

    /// Time of the last event, in clock ticks.
    pub fn last_event(&self) -> (r: u64)
        ensures
            r == self.spec_last_event(),
    {
        self.last_event
    }

    /// The bus keeps reporting events: it is polled with a pause in between.
    pub fn flooding(&self) -> (r: bool)
        ensures
            r == (self.spec_burst_events() >= FLOOD_EVENT_COUNT),
    {
        self.burst_events >= FLOOD_EVENT_COUNT
    }

    /// Counts an event at `now` into the current burst, or starts a new burst after a gap
    /// longer than `burst_gap` (both in clock ticks).
    pub fn record(&mut self, now: u64, burst_gap: u64) -> (r: BurstOutcome)
        requires
            now >= old(self).spec_last_event(),
        ensures
            final(self).spec_last_event() == now,
            ({
                let quiet = now - old(self).spec_last_event() > burst_gap;
                let before = if quiet { 0 } else { old(self).spec_burst_events() as int };
                &&& final(self).spec_burst_events() == if before < u32::MAX { before + 1 } else { before }
                &&& r.flood_over_after == if quiet && old(self).spec_burst_events() >= FLOOD_EVENT_COUNT {
                    Some(old(self).spec_burst_events())
                } else {
                    None
                }
                &&& r.flood_started == (final(self).spec_burst_events() == FLOOD_EVENT_COUNT)
                &&& r.log_event == (final(self).spec_burst_events() < FLOOD_EVENT_COUNT)
            }),
    {
        let mut flood_over_after = None;
        if now - self.last_event > burst_gap {
            if self.burst_events >= FLOOD_EVENT_COUNT {
                flood_over_after = Some(self.burst_events);
            }
            self.burst_events = 0;
        }
        self.last_event = now;
        if self.burst_events < u32::MAX {
            self.burst_events = self.burst_events + 1;
        }
        let flood_started = self.burst_events == FLOOD_EVENT_COUNT;
        let log_event = !flood_started && self.burst_events < FLOOD_EVENT_COUNT;
        BurstOutcome { flood_over_after, flood_started, log_event }
    }
}

/// A flood is announced once: of the events of one burst, only the one that reaches the
/// flood count reports it.
pub proof fn lemma_flood_announced_once(before: u32, after: u32)
    requires
        after == before + 1 || (before == u32::MAX && after == before),
        before >= FLOOD_EVENT_COUNT,
    ensures
        after != FLOOD_EVENT_COUNT,
{
}

} // verus!
