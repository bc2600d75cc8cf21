//! Tests of the telemetry source module.

use racing_coach_client::config::TelemetryMode;
use racing_coach_client::telemetry::collector::CollectorError;
use racing_coach_client::telemetry::source::{plan_source, SourcePlan};
use racing_coach_client::telemetry::{TelemetrySourceConfig, TelemetrySourceError};

#[test]
fn test_error_ibt_open_error() {
    let error = TelemetrySourceError::IbtOpenError("file not found".to_string());
    let error_str = error.to_string();
    assert!(error_str.contains("IBT file") || error_str.contains("file not found"));
}

#[test]
fn test_error_connection_error() {
    let error = TelemetrySourceError::ConnectionError("connection refused".to_string());
    let error_str = error.to_string();
    assert!(error_str.contains("iRacing") || error_str.contains("connection refused"));
}

#[test]
fn test_error_missing_ibt_file() {
    let error = TelemetrySourceError::MissingIbtFile;
    let error_str = error.to_string();
    assert!(error_str.contains("IBT") || error_str.contains("ibt") || error_str.contains("file"));
}

#[test]
fn test_error_debug() {
    let error = TelemetrySourceError::MissingIbtFile;
    let debug_str = format!("{:?}", error);
    assert!(debug_str.contains("MissingIbtFile"));
}

#[test]
fn test_source_error_messages_exact() {
    assert_eq!(
        TelemetrySourceError::IbtOpenError("x".to_string()).to_string(),
        "Failed to open IBT file: x"
    );
    assert_eq!(
        TelemetrySourceError::ConnectionError("y".to_string()).to_string(),
        "Failed to connect to iRacing: y"
    );
    assert_eq!(
        TelemetrySourceError::MissingIbtFile.to_string(),
        "No IBT file specified for replay mode"
    );
    let wrapped: CollectorError = TelemetrySourceError::MissingIbtFile.into();
    assert_eq!(wrapped.to_string(), "Source error: No IBT file specified for replay mode");
    assert_eq!(
        CollectorError::EventBusError("closed".to_string()).to_string(),
        "Event bus error: closed"
    );
}

#[test]
fn test_source_config() {
    let config = TelemetrySourceConfig {
        mode: TelemetryMode::Replay,
        ibt_file: Some("test.ibt".to_string()),
        playback_speed_permille: 2000,
    };
    assert_eq!(config.mode, TelemetryMode::Replay);
    assert_eq!(config.playback_speed_permille, 2000);
}

#[test]
fn test_source_create_replay_missing_file() {
    let config = TelemetrySourceConfig {
        mode: TelemetryMode::Replay,
        ibt_file: None,
        playback_speed_permille: 1000,
    };
    assert!(matches!(plan_source(&config, false), Err(TelemetrySourceError::MissingIbtFile)));
}

#[test]
fn test_source_create_live_on_non_windows() {
    let config = TelemetrySourceConfig {
        mode: TelemetryMode::Live,
        ibt_file: None,
        playback_speed_permille: 1000,
    };
    match plan_source(&config, false) {
        Err(TelemetrySourceError::ConnectionError(m)) => {
            assert_eq!(m, "Live mode is only available on Windows")
        }
        _ => panic!("expected a connection error"),
    }
    assert!(matches!(plan_source(&config, true), Ok(SourcePlan::Live)));
}

#[test]
fn test_source_plan_replay() {
    let config = TelemetrySourceConfig {
        mode: TelemetryMode::Replay,
        ibt_file: Some("data.ibt".to_string()),
        playback_speed_permille: 2500,
    };
    match plan_source(&config, false) {
        Ok(SourcePlan::Replay { path, speed_permille }) => {
            assert_eq!(path, "data.ibt");
            assert_eq!(speed_permille, 2500);
        }
        _ => panic!("expected a replay"),
    }
}

fn replay_config(path: &str, playback_speed_permille: u32) -> TelemetrySourceConfig {
    TelemetrySourceConfig {
        mode: TelemetryMode::Replay,
        ibt_file: Some(path.to_string()),
        playback_speed_permille,
    }
}

#[test]
fn test_source_config_replay_mode() {
    let config = replay_config("test.ibt", 1000);
    assert_eq!(config.mode, TelemetryMode::Replay);
    assert_eq!(config.playback_speed_permille, 1000);
    assert!(config.ibt_file.is_some());
}

#[test]
fn test_source_config_live_mode() {
    let config = TelemetrySourceConfig {
        mode: TelemetryMode::Live,
        ibt_file: None,
        playback_speed_permille: 1000,
    };
    assert_eq!(config.mode, TelemetryMode::Live);
    assert!(config.ibt_file.is_none());
}

#[test]
fn test_source_config_custom_speed() {
    let config = replay_config("data.ibt", 2500);
    assert_eq!(config.playback_speed_permille, 2500);
}

#[test]
fn test_source_config_clone() {
    let config = replay_config("test.ibt", 1500);
    let cloned = config.clone();
    assert_eq!(config.mode, cloned.mode);
    assert_eq!(config.playback_speed_permille, cloned.playback_speed_permille);
    assert_eq!(config.ibt_file, cloned.ibt_file);
}

#[test]
fn test_source_config_debug() {
    let config = replay_config("test.ibt", 1000);
    let debug_str = format!("{:?}", config);
    assert!(debug_str.contains("TelemetrySourceConfig"));
    assert!(debug_str.contains("Replay"));
}

#[test]
fn test_source_config_path_with_spaces() {
    let config = replay_config("/path/with spaces/file.ibt", 1000);
    assert_eq!(config.ibt_file.as_ref().unwrap(), "/path/with spaces/file.ibt");
    match plan_source(&config, false) {
        Ok(SourcePlan::Replay { path, .. }) => assert_eq!(path, "/path/with spaces/file.ibt"),
        _ => panic!("expected a replay"),
    }
}

#[test]
fn test_source_config_relative_path() {
    let config = replay_config("./data/test.ibt", 1000);
    assert!(config.ibt_file.is_some());
}

#[test]
fn test_source_config_absolute_path() {
    let config = replay_config("/home/user/data/test.ibt", 1000);
    assert!(std::path::Path::new(config.ibt_file.as_ref().unwrap()).is_absolute());
}

#[test]
fn test_source_config_speed_normal() {
    assert_eq!(replay_config("test.ibt", 1000).playback_speed_permille, 1000);
}

#[test]
fn test_source_config_speed_fast() {
    assert_eq!(replay_config("test.ibt", 10_000).playback_speed_permille, 10_000);
}

#[test]
fn test_source_config_speed_slow() {
    assert_eq!(replay_config("test.ibt", 500).playback_speed_permille, 500);
}

#[test]
fn test_source_config_speed_fractional() {
    assert_eq!(replay_config("test.ibt", 1500).playback_speed_permille, 1500);
}
