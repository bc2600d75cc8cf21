//! Tests of the event handlers, the collector and the API helpers.

use racing_coach_client::api::{
    classify_status, endpoint_url, health_from_body, lap_metrics_url, lap_upload_url,
    session_url, Endpoint, HealthResponse, LapUploadResponse, MetricsUploadResponse,
    ResponseClass,
};
use racing_coach_client::events::{HandlerError, RacingEventKind};
use racing_coach_client::handlers::lap::NO_LAP;
use racing_coach_client::handlers::{CounterHandler, LapHandler, LogHandler};
use racing_coach_client::pitwall::session::{DriverEntry, DriverInfo, SessionInfo, WeekendInfo};
use racing_coach_client::telemetry::collector::{
    begin_session, session_start, CollectionProgress,
};

#[test]
fn test_counter_handler_counts_frames() {
    let mut handler = CounterHandler::new();
    assert_eq!(handler.count(), 0);
    assert_eq!(handler.name(), "CounterHandler");
    assert_eq!(handler.handles(), RacingEventKind::TelemetryFrameCollected);
    for _ in 0..4999 {
        assert_eq!(handler.handle(RacingEventKind::TelemetryFrameCollected), None);
    }
    assert_eq!(handler.handle(RacingEventKind::LapComplete), None);
    assert_eq!(handler.count(), 4999);
    assert_eq!(handler.handle(RacingEventKind::TelemetryFrameCollected), Some(5000));
    assert_eq!(handler.handle(RacingEventKind::TelemetryFrameCollected), None);
    assert_eq!(handler.count(), 5001);
    assert_eq!(CounterHandler::default().count(), 0);
}

#[test]
fn test_counter_handler_wraps() {
    let mut handler = CounterHandler { frame_count: usize::MAX };
    assert_eq!(handler.handle(RacingEventKind::TelemetryFrameCollected), Some(0));
    assert_eq!(handler.count(), 0);
}

#[test]
fn test_log_handler_logs_every_nth_frame() {
    let mut handler = LogHandler::new(3);
    assert_eq!(handler.name(), "LogHandler");
    assert_eq!(handler.handles(), RacingEventKind::TelemetryFrameCollected);
    let logged: Vec<Option<usize>> =
        (0..7).map(|_| handler.handle(RacingEventKind::TelemetryFrameCollected)).collect();
    assert_eq!(logged, vec![Some(0), None, None, Some(3), None, None, Some(6)]);
    assert_eq!(handler.handle(RacingEventKind::LapComplete), None);
    assert_eq!(handler.frame_count, 7);
    assert_eq!(LogHandler::default().log_frequency, 60);
    // At a frequency of zero only the very first frame is logged.
    let mut never = LogHandler::new(0);
    assert_eq!(never.handle(RacingEventKind::TelemetryFrameCollected), Some(0));
    assert_eq!(never.handle(RacingEventKind::TelemetryFrameCollected), None);
    assert_eq!(never.handle(RacingEventKind::TelemetryFrameCollected), None);
}

#[test]
fn test_lap_handler_creation() {
    let handler: LapHandler<f64, String> = LapHandler::new();
    assert_eq!(handler.name(), "LapHandler");
    assert_eq!(handler.current_lap, NO_LAP);
    assert!(handler.telemetry_buffer.is_empty());
}

#[test]
fn test_session_start_clears_buffer() {
    let mut handler: LapHandler<f64, String> = LapHandler::new();
    handler.telemetry_buffer.push(0.5);
    handler.telemetry_buffer.push(0.6);
    handler.handle_session_start("Test Track".to_string());
    assert!(handler.telemetry_buffer.is_empty());
    assert!(handler.current_session.is_some());
    assert_eq!(handler.current_lap, NO_LAP);
    assert_eq!(handler.num_telemetry_events, 0);
}

#[test]
fn test_lap_handler_detects_completed_lap() {
    let mut handler: LapHandler<u32, &str> = LapHandler::new();
    handler.handle_session_start("session");
    // Lap 1 begins: the first frame of a first lap starts the buffer.
    assert_eq!(handler.handle_telemetry_frame(1, false, 100).unwrap(), None);
    assert_eq!(handler.handle_telemetry_frame(1, false, 101).unwrap(), None);
    assert_eq!(handler.handle_telemetry_frame(1, false, 102).unwrap(), None);
    // The first frame of lap 2 completes lap 1.
    assert_eq!(handler.handle_telemetry_frame(2, true, 200).unwrap(), Some(vec![100, 101, 102]));
    assert_eq!(handler.telemetry_buffer, vec![200]);
    assert_eq!(handler.current_lap, 2);
    assert_eq!(handler.handle_telemetry_frame(2, false, 201).unwrap(), None);
    assert_eq!(handler.handle_telemetry_frame(3, false, 300).unwrap(), Some(vec![200, 201]));
    assert_eq!(handler.num_telemetry_events, 6);
}

#[test]
fn test_lap_handler_ignores_incomplete_laps() {
    let mut handler: LapHandler<u32, &str> = LapHandler::new();
    handler.handle_session_start("session");
    assert_eq!(handler.handle_telemetry_frame(3, false, 1).unwrap(), None);
    assert_eq!(handler.handle_telemetry_frame(3, false, 2).unwrap(), None);
    // Back to lap 0 near the line: a return to the pits, nothing is published.
    assert_eq!(handler.handle_telemetry_frame(0, true, 3).unwrap(), None);
    assert!(handler.telemetry_buffer.is_empty());
    assert_eq!(handler.current_lap, 0);
    // Leaving the pits starts a lap afresh.
    assert_eq!(handler.handle_telemetry_frame(1, false, 4).unwrap(), None);
    assert_eq!(handler.telemetry_buffer, vec![4]);
}

#[test]
fn test_lap_handler_without_session_is_an_error() {
    let mut handler: LapHandler<u32, &str> = LapHandler::new();
    assert_eq!(handler.handle_telemetry_frame(1, false, 1).unwrap(), None);
    match handler.handle_telemetry_frame(2, false, 2) {
        Err(HandlerError::ProcessingError(m)) => assert_eq!(m, "No session info available"),
        other => panic!("unexpected {:?}", other.is_ok()),
    }
    assert_eq!(handler.telemetry_buffer, vec![1]);
    assert_eq!(handler.current_lap, 1);
    assert_eq!(handler.num_telemetry_events, 2);
}

#[test]
fn test_lap_handler_session_change_clears_buffer() {
    let mut handler: LapHandler<u32, &str> = LapHandler::new();
    handler.handle_session_start("first");
    let _ = handler.handle_telemetry_frame(1, false, 1);
    let _ = handler.handle_telemetry_frame(1, false, 2);
    handler.handle_session_start("second");
    assert!(handler.telemetry_buffer.is_empty());
    assert_eq!(handler.current_session, Some("second"));
    // The next lap change starts a lap, it completes none.
    assert_eq!(handler.handle_telemetry_frame(2, false, 3).unwrap(), None);
}

fn weekend() -> WeekendInfo {
    WeekendInfo {
        track_name: "Mount Panorama".to_string(),
        track_id: Some(142),
        track_config_name: Some("Full Circuit".to_string()),
        track_type: None,
        track_length: "6.2 km".to_string(),
        series_id: None,
    }
}

fn driver(car_id: i32, name: &str) -> DriverEntry {
    DriverEntry {
        car_id: Some(car_id),
        car_screen_name: Some(name.to_string()),
        car_class_id: Some(car_id * 10),
    }
}

#[test]
fn test_session_start_takes_the_players_car() {
    let session = SessionInfo {
        session_version: 1,
        weekend_info: weekend(),
        driver_info: Some(DriverInfo {
            driver_car_idx: Some(1),
            drivers: Some(vec![driver(1, "Pace Car"), driver(7, "Ligier JS P320")]),
        }),
    };
    let start = session_start(&session, 42, 1_700_000_000_000);
    assert_eq!(start.session_id, 42);
    assert_eq!(start.timestamp_millis, 1_700_000_000_000);
    assert_eq!(start.track_id, 142);
    assert_eq!(start.track_name, "Mount Panorama");
    assert_eq!(start.track_config_name.as_deref(), Some("Full Circuit"));
    assert_eq!(start.track_type, "road course");
    assert_eq!(start.car_id, 7);
    assert_eq!(start.car_name, "Ligier JS P320");
    assert_eq!(start.car_class_id, 70);
    assert_eq!(start.series_id, 0);
}

#[test]
fn test_session_start_without_a_car() {
    let with = |driver_info: Option<DriverInfo>| SessionInfo {
        session_version: 1,
        weekend_info: weekend(),
        driver_info,
    };
    let cases = vec![
        with(None),
        with(Some(DriverInfo { driver_car_idx: Some(0), drivers: None })),
        with(Some(DriverInfo { driver_car_idx: Some(5), drivers: Some(vec![driver(1, "A")]) })),
        with(Some(DriverInfo { driver_car_idx: Some(-1), drivers: Some(vec![driver(1, "A")]) })),
    ];
    for session in cases {
        let start = session_start(&session, 1, 2);
        assert_eq!((start.car_id, start.car_name.as_str(), start.car_class_id), (0, "", 0));
    }
    // A missing index counts as zero.
    let session =
        with(Some(DriverInfo { driver_car_idx: None, drivers: Some(vec![driver(3, "Mazda")]) }));
    assert_eq!(session_start(&session, 1, 2).car_id, 3);
}

#[test]
fn test_begin_session_gives_fresh_ids() {
    let session = SessionInfo { session_version: 1, weekend_info: weekend(), driver_info: None };
    let a = begin_session(&session);
    let b = begin_session(&session);
    assert_ne!(a.session_id, b.session_id);
    assert_eq!(a.track_name, "Mount Panorama");
    assert!(a.timestamp_millis > 1_600_000_000_000);
    assert!(b.timestamp_millis >= a.timestamp_millis);
}

#[test]
fn test_api_urls_of_endpoints() {
    let base = "http://localhost:8000";
    assert_eq!(endpoint_url(base, Endpoint::Health), "http://localhost:8000/api/v1/health");
    assert_eq!(
        endpoint_url(base, Endpoint::LatestSession),
        "http://localhost:8000/api/v1/telemetry/sessions/latest"
    );
    assert_eq!(
        endpoint_url(base, Endpoint::LapMetricsUpload),
        "http://localhost:8000/api/v1/metrics/lap"
    );
    assert_eq!(endpoint_url(base, Endpoint::Sessions), "http://localhost:8000/api/v1/sessions");
    assert_eq!(
        lap_upload_url(base, "550e8400"),
        "http://localhost:8000/api/v1/telemetry/lap?lap_id=550e8400"
    );
    assert_eq!(lap_metrics_url(base, "abc"), "http://localhost:8000/api/v1/metrics/lap/abc");
    assert_eq!(session_url(base, "abc"), "http://localhost:8000/api/v1/sessions/abc");
}

#[test]
fn test_classify_status() {
    assert_eq!(classify_status(200, false), ResponseClass::Success);
    assert_eq!(classify_status(299, true), ResponseClass::Success);
    assert_eq!(classify_status(199, true), ResponseClass::ServerError);
    assert_eq!(classify_status(300, false), ResponseClass::ServerError);
    assert_eq!(classify_status(404, true), ResponseClass::NotFound);
    assert_eq!(classify_status(404, false), ResponseClass::ServerError);
    assert_eq!(classify_status(500, true), ResponseClass::ServerError);
}

#[test]
fn test_health_from_body() {
    let parsed =
        HealthResponse { status: "healthy".to_string(), version: Some("1.2".to_string()) };
    let h = health_from_body(Some(parsed));
    assert_eq!(h.status, "healthy");
    assert_eq!(h.version.as_deref(), Some("1.2"));
    let h = health_from_body(None);
    assert_eq!(h.status, "ok");
    assert!(h.version.is_none());
}

#[test]
fn test_response_models_hold_their_fields() {
    let lap = LapUploadResponse {
        status: "success".to_string(),
        message: "Uploaded".to_string(),
        lap_id: "550e8400-e29b-41d4-a716-446655440000".to_string(),
    };
    assert_eq!(lap.status, "success");
    assert_eq!(lap.lap_id, "550e8400-e29b-41d4-a716-446655440000");
    let metrics = MetricsUploadResponse {
        status: "success".to_string(),
        message: "Metrics uploaded".to_string(),
        lap_metrics_id: "abc123".to_string(),
    };
    assert_eq!(metrics.lap_metrics_id, "abc123");
    assert_eq!(metrics.message, "Metrics uploaded");
}

#[test]
fn test_collection_progress_is_due_every_thousand_frames() {
    let mut progress = CollectionProgress::new();
    let due: Vec<u64> = (0..3000)
        .filter_map(|_| if progress.record_frame() { Some(progress.frame_count) } else { None })
        .collect();
    assert_eq!(due, vec![1000, 2000, 3000]);
    let mut full = CollectionProgress { frame_count: u64::MAX };
    assert!(!full.record_frame());
    assert_eq!(full.frame_count, u64::MAX);
}
