//! Logs telemetry frames at a configurable frequency.

use vstd::prelude::*;

use crate::events::RacingEventKind;

verus! {

/// Frames between two log lines by default: about a second at 60 Hz.
pub const DEFAULT_LOG_FREQUENCY: usize = 60;

/// Decides which telemetry frames are logged.
#[derive(Debug, Clone, Copy, PartialEq, Eq, Structural)]
pub struct LogHandler {
    pub log_frequency: usize,
    pub frame_count: usize,
}

/// Whether the frame with the given number is logged: every
/// `log_frequency`-th, starting with the first; at a frequency of zero only
/// the first.
pub open spec fn is_logged(count: usize, log_frequency: usize) -> bool {
    if log_frequency == 0 {
        count == 0
    } else {
        count % log_frequency == 0
    }
}

impl LogHandler {
    /// A handler that logs every `log_frequency`-th frame.
    pub fn new(log_frequency: usize) -> (r: Self)
        ensures
            r.log_frequency == log_frequency,
            r.frame_count == 0,
    {
        LogHandler { log_frequency, frame_count: 0 }
    }

    /// The kind of event that the handler takes.
    pub fn handles(&self) -> (r: RacingEventKind)
        ensures
            r == RacingEventKind::TelemetryFrameCollected,
    {
        RacingEventKind::TelemetryFrameCollected
    }

    /// The name of the handler.
    pub fn name(&self) -> (r: &'static str)
        ensures
            r@ == "LogHandler"@,
    {
        "LogHandler"
    }

    /// Takes an event of the given kind. A telemetry frame gets the next
    /// number, counted from zero; the number is returned where the frame is
    /// to be logged. Any other event changes nothing.
    pub fn handle(&mut self, kind: RacingEventKind) -> (r: Option<usize>)
        ensures
            final(self).log_frequency == old(self).log_frequency,
            kind == RacingEventKind::TelemetryFrameCollected ==> {
                &&& final(self).frame_count == if old(self).frame_count == usize::MAX {
                    0usize
                } else {
                    (old(self).frame_count + 1) as usize
                }
                &&& r == if is_logged(old(self).frame_count, old(self).log_frequency) {
                    Some(old(self).frame_count)
                } else {
                    None
                }
            },
            kind != RacingEventKind::TelemetryFrameCollected ==> *final(self) == *old(self)
                && r is None,
    {
        match kind {
            RacingEventKind::TelemetryFrameCollected => {
                let count = self.frame_count;
                if self.frame_count == usize::MAX {
                    self.frame_count = 0;
                } else {
                    self.frame_count += 1;
                }
                let logged = if self.log_frequency == 0 {
                    count == 0
                } else {
                    count % self.log_frequency == 0
                };
                if logged {
                    Some(count)
                } else {
                    None
                }
            },
            RacingEventKind::LapComplete => None,
        }
    }
}

impl Default for LogHandler {
    fn default() -> (r: Self)
        ensures
            r.log_frequency == DEFAULT_LOG_FREQUENCY,
            r.frame_count == 0,
    {
        LogHandler::new(DEFAULT_LOG_FREQUENCY)
    }
}

} // verus!
