//! Buffers the frames of the lap under way and hands out each lap when it
//! is complete.

use vstd::prelude::*;
use vstd::string::*;

use crate::events::HandlerError;

verus! {

/// The lap number before any frame of a session has been seen.
pub const NO_LAP: i32 = -1;

/// What one telemetry frame leads to.
#[derive(Debug, Clone, Copy, PartialEq, Eq, Structural)]
pub enum LapDecision {
    /// The lap went on: the frame joined the buffer.
    Buffered,
    /// The lap number fell back to zero near the start line (a return to
    /// the pits): the buffer was emptied and the frame left out.
    Ignored,
    /// A first lap began: the buffer was emptied and took the frame.
    Started,
    /// A lap ended with frames in the buffer: they are handed out, and the
    /// buffer starts again with the frame.
    Completed,
    /// A lap ended with frames in the buffer but no session is known:
    /// nothing changed but the count of events.
    NoSession,
}

/// The decision on a frame of lap `lap_number`, on the state before it.
pub open spec fn spec_decision(
    current_lap: i32,
    buffered: nat,
    has_session: bool,
    lap_number: i32,
    below_threshold: bool,
) -> LapDecision {
    if lap_number == current_lap {
        LapDecision::Buffered
    } else if below_threshold && lap_number == 0 {
        LapDecision::Ignored
    } else if current_lap == 0 || current_lap == NO_LAP {
        LapDecision::Started
    } else if buffered > 0 {
        if has_session {
            LapDecision::Completed
        } else {
            LapDecision::NoSession
        }
    } else {
        LapDecision::Buffered
    }
}

/// The state of lap tracking. `F` is the frame type and `S` the session
/// type of the application.
#[derive(Debug)]
pub struct LapHandler<F, S> {
    /// Lap under way, or `NO_LAP`.
    pub current_lap: i32,
    /// Frames of the lap under way, in order of arrival.
    pub telemetry_buffer: Vec<F>,
    /// The session, once it has started.
    pub current_session: Option<S>,
    /// Telemetry events of this session; the count stops at the largest
    /// number that fits.
    pub num_telemetry_events: u64,
}

impl<F, S> LapHandler<F, S> {
    /// Lap tracking before any session: no lap, no frame, no session.
    pub fn new() -> (r: Self)
        ensures
            r.current_lap == NO_LAP,
            r.telemetry_buffer@.len() == 0,
            r.current_session is None,
            r.num_telemetry_events == 0,
    {
        LapHandler {
            current_lap: NO_LAP,
            telemetry_buffer: Vec::new(),
            current_session: None,
            num_telemetry_events: 0,
        }
    }

    /// The name of the handler.
    pub fn name(&self) -> (r: &'static str)
        ensures
            r@ == "LapHandler"@,
    {
        "LapHandler"
    }

    /// A session starts: frames buffered from an earlier session are
    /// discarded, and lap and event count start over.
    pub fn handle_session_start(&mut self, session: S)
        ensures
            final(self).telemetry_buffer@.len() == 0,
            final(self).current_session == Some(session),
            final(self).current_lap == NO_LAP,
            final(self).num_telemetry_events == 0,
    {
        self.telemetry_buffer.clear();
        self.current_session = Some(session);
        self.current_lap = NO_LAP;
        self.num_telemetry_events = 0;
    }

    /// The decision that a frame of lap `lap_number` leads to.
    pub open spec fn decision(&self, lap_number: i32, below_threshold: bool) -> LapDecision {
        spec_decision(
            self.current_lap,
            self.telemetry_buffer@.len(),
            self.current_session is Some,
            lap_number,
            below_threshold,
        )
    }

    /// Takes a telemetry frame of lap `lap_number`; `below_threshold` says
    /// whether its distance around the lap is below the completion
    /// threshold. On a completed lap the frames of that lap are returned,
    /// in order; without a session that is an error.
    pub fn handle_telemetry_frame(&mut self, lap_number: i32, below_threshold: bool, frame: F) -> (r:
        Result<Option<Vec<F>>, HandlerError>)
        ensures
            final(self).current_session == old(self).current_session,
            final(self).num_telemetry_events == if old(self).num_telemetry_events < u64::MAX {
                (old(self).num_telemetry_events + 1) as u64
            } else {
                old(self).num_telemetry_events
            },
            match old(self).decision(lap_number, below_threshold) {
                LapDecision::Buffered => {
                    &&& r == Ok::<Option<Vec<F>>, HandlerError>(None)
                    &&& final(self).current_lap == lap_number
                    &&& final(self).telemetry_buffer@ == old(self).telemetry_buffer@.push(frame)
                },
                LapDecision::Ignored => {
                    &&& r == Ok::<Option<Vec<F>>, HandlerError>(None)
                    &&& final(self).current_lap == lap_number
                    &&& final(self).telemetry_buffer@.len() == 0
                },
                LapDecision::Started => {
                    &&& r == Ok::<Option<Vec<F>>, HandlerError>(None)
                    &&& final(self).current_lap == lap_number
                    &&& final(self).telemetry_buffer@ == seq![frame]
                },
                LapDecision::Completed => {
                    &&& r matches Ok(Some(lap)) && lap@ == old(self).telemetry_buffer@
                    &&& final(self).current_lap == lap_number
                    &&& final(self).telemetry_buffer@ == seq![frame]
                },
                LapDecision::NoSession => {
                    &&& r matches Err(HandlerError::ProcessingError(m)) && m@
                        == "No session info available"@
                    &&& final(self).current_lap == old(self).current_lap
                    &&& final(self).telemetry_buffer@ == old(self).telemetry_buffer@
                },
            },
    {
        if self.num_telemetry_events < u64::MAX {
            self.num_telemetry_events += 1;
        }
        if lap_number != self.current_lap {
            if below_threshold && lap_number == 0 {
                self.current_lap = lap_number;
                self.telemetry_buffer.clear();
                return Ok(None);
            }
            if self.current_lap == 0 || self.current_lap == NO_LAP {
                self.current_lap = lap_number;
                self.telemetry_buffer.clear();
                self.telemetry_buffer.push(frame);
                assert(self.telemetry_buffer@ =~= seq![frame]);
                return Ok(None);
            }
            if self.telemetry_buffer.len() > 0 {
                if self.current_session.is_none() {
                    return Err(
                        HandlerError::ProcessingError(
                            String::from_str("No session info available"),
                        ),
                    );
                }
                let mut lap: Vec<F> = Vec::new();
                std::mem::swap(&mut lap, &mut self.telemetry_buffer);
                self.current_lap = lap_number;
                self.telemetry_buffer.push(frame);
                assert(self.telemetry_buffer@ =~= seq![frame]);
                return Ok(Some(lap));
            }
            self.current_lap = lap_number;
        }
        self.telemetry_buffer.push(frame);
        Ok(None)
    }
}

} // verus!
