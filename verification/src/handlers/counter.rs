//! Counts telemetry frames, to see that events are delivered.

use vstd::prelude::*;

use crate::events::RacingEventKind;

verus! {

/// Every so many frames the counter reports its progress.
pub const REPORT_EVERY: usize = 5000;

/// Counts the telemetry frames it receives.
#[derive(Debug, Clone, Copy, PartialEq, Eq, Structural)]
pub struct CounterHandler {
    pub frame_count: usize,
}

impl CounterHandler {
    /// A counter at zero.
    pub fn new() -> (r: Self)
        ensures
            r.frame_count == 0,
    {
        CounterHandler { frame_count: 0 }
    }

    /// The current count.
    pub fn count(&self) -> (r: usize)
        ensures
            r == self.frame_count,
    {
        self.frame_count
    }

    /// The kind of event that the handler takes.
    pub fn handles(&self) -> (r: RacingEventKind)
        ensures
            r == RacingEventKind::TelemetryFrameCollected,
    {
        RacingEventKind::TelemetryFrameCollected
    }

    /// The name of the handler.
    pub fn name(&self) -> (r: &'static str)
        ensures
            r@ == "CounterHandler"@,
    {
        "CounterHandler"
    }

    /// The count after one more frame; it wraps to zero after the largest number.
    pub open spec fn next_count(self) -> usize {
        if self.frame_count == usize::MAX {
            0
        } else {
            (self.frame_count + 1) as usize
        }
    }

    /// Takes an event of the given kind. A telemetry frame is counted;
    /// what is returned is the new count where progress is to be
    /// reported, which is at every multiple of `REPORT_EVERY`. Any other
    /// event changes nothing.
    pub fn handle(&mut self, kind: RacingEventKind) -> (r: Option<usize>)
        ensures
            kind == RacingEventKind::TelemetryFrameCollected ==> {
                &&& final(self).frame_count == old(self).next_count()
                &&& r == if old(self).next_count() % REPORT_EVERY == 0 {
                    Some(old(self).next_count())
                } else {
                    None
                }
            },
            kind != RacingEventKind::TelemetryFrameCollected ==> *final(self) == *old(self)
                && r is None,
    {
        match kind {
            RacingEventKind::TelemetryFrameCollected => {
                if self.frame_count == usize::MAX {
                    self.frame_count = 0;
                } else {
                    self.frame_count += 1;
                }
                if self.frame_count % REPORT_EVERY == 0 {
                    Some(self.frame_count)
                } else {
                    None
                }
            },
            RacingEventKind::LapComplete => None,
        }
    }
}

impl Default for CounterHandler {
    fn default() -> (r: Self)
        ensures
            r.frame_count == 0,
    {
        CounterHandler::new()
    }
}

} // verus!
