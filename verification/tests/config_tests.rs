//! Tests of the configuration module.

use racing_coach_client::config::{validate, ArgsCheck, Config, ConfigError, TelemetryMode};
use std::path::Path;

fn args(mode: TelemetryMode, file: Option<&str>, speed: f64, threshold: f32) -> ArgsCheck {
    ArgsCheck {
        mode,
        file: file.map(|p| p.to_string()),
        file_exists: file.map(|p| Path::new(p).exists()).unwrap_or(false),
        speed_is_positive: speed > 0.0,
        speed_text: format!("{}", speed),
        threshold_in_range: (0.0..=1.0).contains(&threshold),
        threshold_text: format!("{}", threshold),
    }
}

fn config_with_url(url: &str) -> Config {
    Config { server_url: url.to_string(), ..Default::default() }
}

#[test]
fn test_telemetry_mode_from_str() {
    assert_eq!("live".parse::<TelemetryMode>().unwrap(), TelemetryMode::Live);
    assert_eq!("Live".parse::<TelemetryMode>().unwrap(), TelemetryMode::Live);
    assert_eq!("LIVE".parse::<TelemetryMode>().unwrap(), TelemetryMode::Live);
    assert_eq!("replay".parse::<TelemetryMode>().unwrap(), TelemetryMode::Replay);
    assert!("invalid".parse::<TelemetryMode>().is_err());
}

#[test]
fn test_telemetry_mode_parsing() {
    assert_eq!("live".parse::<TelemetryMode>().unwrap(), TelemetryMode::Live);
    assert_eq!("Live".parse::<TelemetryMode>().unwrap(), TelemetryMode::Live);
    assert_eq!("LIVE".parse::<TelemetryMode>().unwrap(), TelemetryMode::Live);
    assert_eq!("replay".parse::<TelemetryMode>().unwrap(), TelemetryMode::Replay);
    assert_eq!("Replay".parse::<TelemetryMode>().unwrap(), TelemetryMode::Replay);
    assert_eq!("REPLAY".parse::<TelemetryMode>().unwrap(), TelemetryMode::Replay);
}

#[test]
fn test_telemetry_mode_invalid() {
    assert!("invalid".parse::<TelemetryMode>().is_err());
    assert!("".parse::<TelemetryMode>().is_err());
    assert!("live_mode".parse::<TelemetryMode>().is_err());
}

#[test]
fn test_telemetry_mode_display() {
    assert_eq!(TelemetryMode::Live.to_string(), "live");
    assert_eq!(TelemetryMode::Replay.to_string(), "replay");
}

#[test]
fn test_telemetry_mode_error_message() {
    let err = "Fast".parse::<TelemetryMode>().unwrap_err();
    assert_eq!(err, "Invalid telemetry mode: Fast. Use 'live' or 'replay'");
}

#[test]
fn test_telemetry_mode_from_lowercase_uses_the_lowercase_form() {
    assert_eq!(TelemetryMode::from_lowercase("LIVE", "live"), Ok(TelemetryMode::Live));
    assert!(TelemetryMode::from_lowercase("live", "LIVE").is_err());
}

#[test]
fn test_telemetry_mode_default_is_live() {
    assert_eq!(TelemetryMode::default(), TelemetryMode::Live);
}

#[test]
fn config_test_default_config() {
    let config = Config::default();
    assert_eq!(config.mode, TelemetryMode::Live);
    assert!(config.upload_enabled);
}

#[test]
fn config_tests_test_default_config() {
    let config = Config::default();
    assert_eq!(config.mode, TelemetryMode::Live);
    assert!(config.ibt_file.is_none());
    assert_eq!(config.server_url, "http://localhost:8000");
    assert!(config.upload_enabled);
    assert_eq!(config.log_level, "info");
}

#[test]
fn test_api_urls() {
    let config = config_with_url("http://example.com:8000");
    assert_eq!(config.telemetry_api_url(), "http://example.com:8000/api/v1/telemetry");
    assert_eq!(config.metrics_api_url(), "http://example.com:8000/api/v1/metrics");
    assert_eq!(config.sessions_api_url(), "http://example.com:8000/api/v1/sessions");
}

#[test]
fn test_config_api_urls() {
    let config = config_with_url("http://example.com:9000");
    assert_eq!(config.telemetry_api_url(), "http://example.com:9000/api/v1/telemetry");
    assert_eq!(config.metrics_api_url(), "http://example.com:9000/api/v1/metrics");
    assert_eq!(config.sessions_api_url(), "http://example.com:9000/api/v1/sessions");
    assert_eq!(config.health_url(), "http://example.com:9000/api/v1/health");
}

#[test]
fn test_config_validation_replay_without_file() {
    let check = args(TelemetryMode::Replay, None, 1.0, 0.05);
    assert!(matches!(validate(&check), Err(ConfigError::MissingIbtFile)));
}

#[test]
fn test_config_validation_invalid_speed() {
    let check = args(TelemetryMode::Live, None, -1.0, 0.05);
    assert!(matches!(validate(&check), Err(ConfigError::InvalidPlaybackSpeed(_))));
}

#[test]
fn test_cli_args_validation_live_mode() {
    assert!(validate(&args(TelemetryMode::Live, None, 1.0, 0.05)).is_ok());
}

#[test]
fn test_cli_args_validation_replay_without_file() {
    let result = validate(&args(TelemetryMode::Replay, None, 1.0, 0.05));
    assert!(result.is_err());
    assert!(matches!(result.unwrap_err(), ConfigError::MissingIbtFile));
}

#[test]
fn test_cli_args_validation_replay_with_nonexistent_file() {
    let result = validate(&args(
        TelemetryMode::Replay,
        Some("/nonexistent/path/file.ibt"),
        1.0,
        0.05,
    ));
    assert!(result.is_err());
    assert!(matches!(result.unwrap_err(), ConfigError::IbtFileNotFound(_)));
}

#[test]
fn test_cli_args_validation_replay_with_existing_file() {
    let mut check = args(TelemetryMode::Replay, Some("session.ibt"), 1.0, 0.05);
    check.file_exists = true;
    assert!(validate(&check).is_ok());
}

#[test]
fn test_cli_args_validation_invalid_playback_speed_zero() {
    let result = validate(&args(TelemetryMode::Live, None, 0.0, 0.05));
    assert!(result.is_err());
    assert!(matches!(result.unwrap_err(), ConfigError::InvalidPlaybackSpeed(_)));
}

#[test]
fn test_cli_args_validation_invalid_playback_speed_negative() {
    let result = validate(&args(TelemetryMode::Live, None, -1.0, 0.05));
    assert!(result.is_err());
    assert!(matches!(result.unwrap_err(), ConfigError::InvalidPlaybackSpeed(_)));
}

#[test]
fn test_cli_args_validation_valid_playback_speeds() {
    for speed in [0.1, 0.5, 1.0, 2.0, 10.0, 100.0] {
        let check = args(TelemetryMode::Live, None, speed, 0.05);
        assert!(validate(&check).is_ok(), "Speed {} should be valid", speed);
    }
}

#[test]
fn test_cli_args_validation_invalid_threshold_negative() {
    let result = validate(&args(TelemetryMode::Live, None, 1.0, -0.1));
    assert!(result.is_err());
    assert!(matches!(result.unwrap_err(), ConfigError::InvalidThreshold(_)));
}

#[test]
fn test_cli_args_validation_invalid_threshold_greater_than_one() {
    let result = validate(&args(TelemetryMode::Live, None, 1.0, 1.5));
    assert!(result.is_err());
    assert!(matches!(result.unwrap_err(), ConfigError::InvalidThreshold(_)));
}

#[test]
fn test_cli_args_validation_valid_thresholds() {
    for threshold in [0.0, 0.01, 0.05, 0.1, 0.5, 0.99, 1.0] {
        let check = args(TelemetryMode::Live, None, 1.0, threshold);
        assert!(validate(&check).is_ok(), "Threshold {} should be valid", threshold);
    }
}

#[test]
fn test_validation_reports_the_first_fault() {
    // No file comes before a bad speed, a bad speed before a bad threshold.
    let check = args(TelemetryMode::Replay, None, -1.0, 2.0);
    assert!(matches!(validate(&check), Err(ConfigError::MissingIbtFile)));
    let check = args(TelemetryMode::Replay, Some("/nonexistent/file.ibt"), -1.0, 2.0);
    assert!(matches!(validate(&check), Err(ConfigError::InvalidPlaybackSpeed(_))));
    let check = args(TelemetryMode::Replay, Some("/nonexistent/file.ibt"), 1.0, 2.0);
    assert!(matches!(validate(&check), Err(ConfigError::InvalidThreshold(_))));
    // A live source does not care whether the file exists.
    let check = args(TelemetryMode::Live, Some("/nonexistent/file.ibt"), 1.0, 0.5);
    assert!(validate(&check).is_ok());
}

#[test]
fn test_config_from_args() {
    let mut check = args(TelemetryMode::Replay, Some("session.ibt"), 2.0, 0.1);
    check.file_exists = true;
    let config =
        Config::from_args(&check, "http://custom:9000".to_string(), false, "debug".to_string())
            .unwrap();
    assert_eq!(config.mode, TelemetryMode::Replay);
    assert_eq!(config.ibt_file, Some("session.ibt".to_string()));
    assert_eq!(config.server_url, "http://custom:9000");
    assert!(!config.upload_enabled);
    assert_eq!(config.log_level, "debug");
}

#[test]
fn test_config_from_args_fails_validation() {
    let check = args(TelemetryMode::Replay, None, 1.0, 0.05);
    let result =
        Config::from_args(&check, "http://localhost:8000".to_string(), true, "info".to_string());
    assert!(result.is_err());
}

#[test]
fn test_config_error_display() {
    let errors = vec![
        (ConfigError::MissingIbtFile, "IBT file path is required"),
        (ConfigError::IbtFileNotFound("/test".to_string()), "/test"),
        (ConfigError::InvalidPlaybackSpeed(format!("{}", -1.0f64)), "-1"),
        (ConfigError::InvalidThreshold(format!("{}", 2.0f32)), "2"),
        (ConfigError::Other("custom error".to_string()), "custom error"),
    ];
    for (error, expected_substring) in errors {
        let error_str = error.to_string();
        assert!(
            error_str.contains(expected_substring),
            "Error '{}' should contain '{}'",
            error_str,
            expected_substring
        );
    }
}

#[test]
fn test_config_error_exact_messages() {
    assert_eq!(
        ConfigError::InvalidPlaybackSpeed("-1".to_string()).to_string(),
        "Invalid playback speed: -1. Must be positive"
    );
    assert_eq!(
        ConfigError::InvalidThreshold("2".to_string()).to_string(),
        "Invalid lap completion threshold: 2. Must be between 0.0 and 1.0"
    );
    assert_eq!(
        ConfigError::IbtFileNotFound("/test".to_string()).to_string(),
        "IBT file not found: /test"
    );
    assert_eq!(ConfigError::Other("x".to_string()).to_string(), "Configuration error: x");
}

#[test]
fn test_config_url_with_trailing_slash() {
    let config = config_with_url("http://example.com:8000/");
    assert!(config.telemetry_api_url().contains("/api/v1/telemetry"));
}

#[test]
fn test_config_with_different_ports() {
    for port in [80, 443, 8000, 8080, 3000, 9000] {
        let config = config_with_url(&format!("http://localhost:{}", port));
        assert!(config.health_url().contains(&port.to_string()));
    }
}

#[test]
fn test_config_with_https() {
    let config = config_with_url("https://secure.example.com");
    assert!(config.health_url().starts_with("https://"));
}

#[test]
fn test_telemetry_mode_from_str_is_parse() {
    for text in ["live", "Replay", "REPLAY", "", "fast", "live "] {
        assert_eq!(text.parse::<TelemetryMode>(), TelemetryMode::parse(text));
    }
}
