//! The racing events that travel over the event bus, and the errors of the bus.

use std::sync::Arc;
use vstd::prelude::*;
use vstd::string::*;

pub mod handlers;

verus! {

/// An event type for a bus with one channel per kind of event.
///
/// What an event type promises of its two methods it says in `has_kind`
/// and `lists_kinds`. A type that says nothing promises nothing.
pub trait EventLike: Sized {
    /// What tells the kinds of event apart; the bus routes by it.
    type Kind: Copy;

    /// Whether `k` is the kind of this event.
    open spec fn has_kind(&self, k: Self::Kind) -> bool {
        true
    }

    /// Whether `ks` lists all kinds of event that there are.
    open spec fn lists_kinds(ks: Seq<Self::Kind>) -> bool {
        true
    }

    /// The kind of this event.
    fn kind(&self) -> (k: Self::Kind)
        ensures
            self.has_kind(k),
    ;

    /// All kinds of event that there are: a bus makes one channel for each.
    fn all_kinds() -> (ks: Vec<Self::Kind>)
        ensures
            Self::lists_kinds(ks@),
    ;
}

/// The kinds of racing event.
#[derive(Clone, Copy, Debug, PartialEq, Eq, Hash, Structural)]
pub enum RacingEventKind {
    TelemetryFrameCollected,
    LapComplete,
}

/// A completed lap.
#[derive(Clone, Copy, Debug, PartialEq, Eq, Structural)]
pub struct LapCompletePayload {
    pub lap_number: i32,
    pub lap_time_ms: Option<u64>,
    pub frame_count: usize,
}

/// A racing event. Frames are many and large and are shared, not copied;
/// `F` is the frame type of the application.
#[derive(Debug)]
pub enum RacingEvent<F> {
    TelemetryFrameCollected(Arc<F>),
    LapComplete(LapCompletePayload),
}

impl<F> Clone for RacingEvent<F> {
    /// Another handle to the same event: a frame is shared, not copied.
    fn clone(&self) -> (r: Self)
        ensures
            r == *self,
    {
        match self {
            RacingEvent::TelemetryFrameCollected(frame) => RacingEvent::TelemetryFrameCollected(
                crate::pitwall::driver::share(frame),
            ),
            RacingEvent::LapComplete(lap) => RacingEvent::LapComplete(*lap),
        }
    }
}

impl<F> RacingEvent<F> {
    /// The kind of the event.
    pub open spec fn spec_kind(&self) -> RacingEventKind {
        match self {
            RacingEvent::TelemetryFrameCollected(_) => RacingEventKind::TelemetryFrameCollected,
            RacingEvent::LapComplete(_) => RacingEventKind::LapComplete,
        }
    }

    /// All kinds of racing event.
    pub open spec fn spec_all_kinds() -> Seq<RacingEventKind> {
        seq![RacingEventKind::TelemetryFrameCollected, RacingEventKind::LapComplete]
    }
}

impl<F> EventLike for RacingEvent<F> {
    type Kind = RacingEventKind;

    open spec fn has_kind(&self, k: RacingEventKind) -> bool {
        k == self.spec_kind()
    }

    open spec fn lists_kinds(ks: Seq<RacingEventKind>) -> bool {
        ks == Self::spec_all_kinds()
    }

    fn kind(&self) -> (k: RacingEventKind) {
        match self {
            RacingEvent::TelemetryFrameCollected(_) => RacingEventKind::TelemetryFrameCollected,
            RacingEvent::LapComplete(_) => RacingEventKind::LapComplete,
        }
    }

    fn all_kinds() -> (ks: Vec<RacingEventKind>) {
        let mut ks: Vec<RacingEventKind> = Vec::new();
        ks.push(RacingEventKind::TelemetryFrameCollected);
        ks.push(RacingEventKind::LapComplete);
        assert(ks@ =~= Self::spec_all_kinds());
        ks
    }
}

/// Every racing event is of one of the kinds that `all_kinds` lists, so a
/// bus that makes a channel per listed kind has a channel for every event.
pub proof fn lemma_racing_kind_is_listed<F>(event: RacingEvent<F>)
    ensures
        RacingEvent::<F>::spec_all_kinds().contains(event.spec_kind()),
{
    let all = RacingEvent::<F>::spec_all_kinds();
    match event {
        RacingEvent::TelemetryFrameCollected(_) => {
            assert(all[0] == event.spec_kind());
        },
        RacingEvent::LapComplete(_) => {
            assert(all[1] == event.spec_kind());
        },
    }
}

/// Configuration of the event bus.
#[derive(Debug, Clone, Copy, PartialEq, Eq, Structural)]
pub struct EventBusConfig {
    /// Most events that the broadcast channel buffers.
    pub channel_capacity: usize,
}

impl Default for EventBusConfig {
    fn default() -> (r: Self)
        ensures
            r.channel_capacity == 1000,
    {
        EventBusConfig { channel_capacity: 1000 }
    }
}

/// What can go wrong on the bus.
#[derive(Debug, Clone, Copy, PartialEq, Eq, Structural)]
pub enum EventBusError {
    ChannelClosed,
    NotRunning,
}

impl EventBusError {
    /// The text of the error.
    pub open spec fn spec_message(self) -> Seq<char> {
        match self {
            EventBusError::ChannelClosed => "Event channel closed"@,
            EventBusError::NotRunning => "Event bus not running"@,
        }
    }

    /// The text of the error.
    pub fn to_string(&self) -> (r: String)
        ensures
            r@ == self.spec_message(),
    {
        match self {
            EventBusError::ChannelClosed => String::from_str("Event channel closed"),
            EventBusError::NotRunning => String::from_str("Event bus not running"),
        }
    }
}

/// What can go wrong in a handler.
#[derive(Debug)]
pub enum HandlerError {
    ProcessingError(String),
    PublishError(EventBusError),
}

impl HandlerError {
    /// The text of the error.
    pub open spec fn spec_message(&self) -> Seq<char> {
        match self {
            HandlerError::ProcessingError(detail) => "Handler processing failed: "@ + detail@,
            HandlerError::PublishError(_) => "Event publishing failed"@,
        }
    }

    /// The text of the error.
    pub fn to_string(&self) -> (r: String)
        ensures
            r@ == self.spec_message(),
    {
        match self {
            HandlerError::ProcessingError(detail) => {
                let mut m = String::from_str("Handler processing failed: ");
                m.append(detail.as_str());
                m
            },
            HandlerError::PublishError(_) => String::from_str("Event publishing failed"),
        }
    }
}

impl From<EventBusError> for HandlerError {
    fn from(e: EventBusError) -> (r: HandlerError) {
        HandlerError::PublishError(e)
    }
}

impl vstd::std_specs::convert::FromSpecImpl<EventBusError> for HandlerError {
    open spec fn obeys_from_spec() -> bool {
        true
    }

    open spec fn from_spec(e: EventBusError) -> HandlerError {
        HandlerError::PublishError(e)
    }
}

} // verus!
