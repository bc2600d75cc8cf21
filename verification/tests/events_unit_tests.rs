//! Tests of the events module: kinds, payloads and errors.

use racing_coach_client::events::handlers::LapHandler;
use racing_coach_client::events::{
    EventBusConfig, EventBusError, EventLike, HandlerError, LapCompletePayload, RacingEvent,
    RacingEventKind,
};
use std::sync::Arc;

#[test]
fn test_event_bus_error_channel_closed() {
    let error = EventBusError::ChannelClosed;
    let error_str = error.to_string();
    assert!(error_str.contains("channel closed") || error_str.contains("Channel closed"));
}

#[test]
fn test_event_bus_error_not_running() {
    let error = EventBusError::NotRunning;
    let error_str = error.to_string();
    assert!(error_str.contains("not running") || error_str.contains("Not running"));
}

#[test]
fn test_event_bus_error_debug() {
    let error = EventBusError::ChannelClosed;
    let debug_str = format!("{:?}", error);
    assert!(debug_str.contains("ChannelClosed"));
}

#[test]
fn test_handler_error_processing_error() {
    let error = HandlerError::ProcessingError("test error".to_string());
    let error_str = error.to_string();
    assert!(error_str.contains("test error"));
}

#[test]
fn test_handler_error_from_event_bus_error() {
    let bus_error = EventBusError::ChannelClosed;
    let handler_error: HandlerError = bus_error.into();

    match handler_error {
        HandlerError::PublishError(_) => (),
        _ => panic!("Expected PublishError variant"),
    }
}

#[test]
fn test_handler_error_debug() {
    let error = HandlerError::ProcessingError("debug test".to_string());
    let debug_str = format!("{:?}", error);
    assert!(debug_str.contains("ProcessingError"));
}

#[test]
fn test_bus_error_messages_exact() {
    assert_eq!(EventBusError::ChannelClosed.to_string(), "Event channel closed");
    assert_eq!(EventBusError::NotRunning.to_string(), "Event bus not running");
    assert_eq!(
        HandlerError::ProcessingError("boom".to_string()).to_string(),
        "Handler processing failed: boom"
    );
    assert_eq!(
        HandlerError::PublishError(EventBusError::NotRunning).to_string(),
        "Event publishing failed"
    );
}

#[test]
fn test_event_bus_config_default() {
    assert_eq!(EventBusConfig::default().channel_capacity, 1000);
}

#[test]
fn test_racing_event_kinds() {
    let frame: RacingEvent<u32> = RacingEvent::TelemetryFrameCollected(Arc::new(7));
    assert_eq!(frame.kind(), RacingEventKind::TelemetryFrameCollected);
    let lap: RacingEvent<u32> = RacingEvent::LapComplete(LapCompletePayload {
        lap_number: 3,
        lap_time_ms: None,
        frame_count: 10,
    });
    assert_eq!(lap.kind(), RacingEventKind::LapComplete);
    assert_eq!(
        RacingEvent::<u32>::all_kinds(),
        vec![RacingEventKind::TelemetryFrameCollected, RacingEventKind::LapComplete]
    );
}

#[test]
fn test_lap_change_reports_the_lap_that_ended() {
    let mut handler = LapHandler::new();
    assert_eq!(handler.name(), "LapHandler");
    // The first frame starts lap 1: nothing was under way.
    assert_eq!(handler.handle(1), None);
    assert_eq!(handler.handle(1), None);
    assert_eq!(handler.handle(1), None);
    // The fourth frame belongs to lap 2 and ends lap 1 after four frames.
    assert_eq!(
        handler.handle(2),
        Some(LapCompletePayload { lap_number: 1, lap_time_ms: None, frame_count: 4 })
    );
    assert_eq!(handler.frame_count, 0);
    assert_eq!(handler.current_lap, 2);
    assert_eq!(handler.handle(2), None);
    assert_eq!(
        handler.handle(3),
        Some(LapCompletePayload { lap_number: 2, lap_time_ms: None, frame_count: 2 })
    );
}

#[test]
fn test_lap_zero_counts_as_a_lap() {
    let mut handler = LapHandler::default();
    assert_eq!(handler.handle(0), None);
    assert_eq!(
        handler.handle(1),
        Some(LapCompletePayload { lap_number: 0, lap_time_ms: None, frame_count: 2 })
    );
}

/// An event type of another application on the same trait.
#[derive(Clone, Debug, PartialEq)]
enum DoorEvent {
    Opened(u32),
    Closed,
}

impl EventLike for DoorEvent {
    type Kind = bool;

    fn kind(&self) -> bool {
        matches!(self, DoorEvent::Opened(_))
    }

    fn all_kinds() -> Vec<bool> {
        vec![true, false]
    }
}

#[test]
fn test_event_like_is_open_to_other_event_types() {
    assert!(DoorEvent::Opened(3).kind());
    assert!(!DoorEvent::Closed.kind());
    assert!(DoorEvent::all_kinds().contains(&DoorEvent::Closed.kind()));
}
