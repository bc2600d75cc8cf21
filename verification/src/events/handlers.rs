//! Handlers of racing events that need nothing but the events themselves.

use vstd::prelude::*;

use super::LapCompletePayload;

verus! {

/// The lap number before any frame has been seen.
pub const NO_LAP: i32 = -1;

/// Detects the completion of a lap by watching the lap number change.
#[derive(Debug, Clone, Copy, PartialEq, Eq, Structural)]
pub struct LapHandler {
    /// The lap of the last frame, or `NO_LAP`.
    pub current_lap: i32,
    /// Frames seen in the lap so far.
    pub frame_count: usize,
}

impl LapHandler {
    /// A handler that has seen no frame.
    pub fn new() -> (r: Self)
        ensures
            r.current_lap == NO_LAP,
            r.frame_count == 0,
    {
        LapHandler { current_lap: NO_LAP, frame_count: 0 }
    }

    /// The number of frames after one more, which stops at the largest
    /// number that fits.
    pub open spec fn counted(self) -> usize {
        if self.frame_count < usize::MAX {
            (self.frame_count + 1) as usize
        } else {
            self.frame_count
        }
    }

    /// Whether a frame of lap `lap_number` completes the lap before it:
    /// the number changes, and a lap was under way.
    pub open spec fn completes(self, lap_number: i32) -> bool {
        lap_number != self.current_lap && self.current_lap >= 0
    }

    /// The name of the handler.
    pub fn name(&self) -> (r: &'static str)
        ensures
            r@ == "LapHandler"@,
    {
        "LapHandler"
    }

    /// Takes the lap number of a frame. Where it completes a lap, the lap
    /// that ended is reported with the number of its frames, this one
    /// included, and counting starts anew.
    pub fn handle(&mut self, lap_number: i32) -> (r: Option<LapCompletePayload>)
        ensures
            final(self).current_lap == lap_number,
            old(self).completes(lap_number) ==> {
                &&& r == Some(
                    (LapCompletePayload {
                        lap_number: old(self).current_lap,
                        lap_time_ms: None,
                        frame_count: old(self).counted(),
                    }),
                )
                &&& final(self).frame_count == 0
            },
            !old(self).completes(lap_number) ==> {
                &&& r is None
                &&& final(self).frame_count == old(self).counted()
            },
    {
        if self.frame_count < usize::MAX {
            self.frame_count += 1;
        }
        let mut completed: Option<LapCompletePayload> = None;
        if lap_number != self.current_lap && self.current_lap >= 0 {
            completed =
            Some(
                LapCompletePayload {
                    lap_number: self.current_lap,
                    lap_time_ms: None,
                    frame_count: self.frame_count,
                },
            );
            self.frame_count = 0;
        }
        self.current_lap = lap_number;
        completed
    }
}

impl Default for LapHandler {
    fn default() -> (r: Self)
        ensures
            r.current_lap == NO_LAP,
            r.frame_count == 0,
    {
        LapHandler::new()
    }
}

} // verus!
