//! Client configuration: the telemetry mode and the rules a set of command
//! line arguments has to meet.

use vstd::prelude::*;
use vstd::string::*;

verus! {

/// Telemetry source mode.
#[derive(Debug, Clone, Copy, PartialEq, Eq, Structural)]
pub enum TelemetryMode {
    /// Live connection to the simulator.
    Live,
    /// Replay from a recorded file.
    Replay,
}

/// What the standard library's `str::to_lowercase` returns for a string.
pub uninterp spec fn lowercase(s: Seq<char>) -> Seq<char>;

/// Calls `str::to_lowercase`. The Unicode lowercase mapping is not spelled
/// out here: the result is only named, as `lowercase` of the argument.
#[verifier::external_body]
fn to_lowercase(s: &str) -> (r: String)
    ensures
        r@ == lowercase(s@),
{
    s.to_lowercase()
}

/// The mode that an already lowercased name stands for, if any.
pub open spec fn mode_of_name(lower: Seq<char>) -> Option<TelemetryMode> {
    if lower == "live"@ {
        Some(TelemetryMode::Live)
    } else if lower == "replay"@ {
        Some(TelemetryMode::Replay)
    } else {
        None
    }
}

/// The message for a name that is no mode.
pub open spec fn invalid_mode_message(s: Seq<char>) -> Seq<char> {
    "Invalid telemetry mode: "@ + s + ". Use 'live' or 'replay'"@
}

/// The result of parsing `s`, whose lowercase form is `lower`.
pub open spec fn parse_mode(s: Seq<char>, lower: Seq<char>) -> Result<TelemetryMode, Seq<char>> {
    match mode_of_name(lower) {
        Some(m) => Ok(m),
        None => Err(invalid_mode_message(s)),
    }
}

/// The result of parsing, with the text of its error.
pub open spec fn result_view(r: Result<TelemetryMode, String>) -> Result<TelemetryMode, Seq<char>> {
    match r {
        Ok(m) => Ok(m),
        Err(e) => Err(e@),
    }
}

impl TelemetryMode {
    /// The lowercase name of the mode.
    pub open spec fn name(self) -> Seq<char> {
        match self {
            TelemetryMode::Live => "live"@,
            TelemetryMode::Replay => "replay"@,
        }
    }

    /// Decides the mode from the text as given and its lowercase form.
    pub fn from_lowercase(s: &str, lower: &str) -> (r: Result<TelemetryMode, String>)
        ensures
            result_view(r) == parse_mode(s@, lower@),
    {
        let lower_owned = String::from_str(lower);
        if lower_owned == String::from_str("live") {
            Ok(TelemetryMode::Live)
        } else if lower_owned == String::from_str("replay") {
            Ok(TelemetryMode::Replay)
        } else {
            let mut msg = String::from_str("Invalid telemetry mode: ");
            msg.append(s);
            msg.append(". Use 'live' or 'replay'");
            Err(msg)
        }
    }

    /// Parses a mode name without regard to case.
    pub fn parse(s: &str) -> (r: Result<TelemetryMode, String>)
        ensures
            result_view(r) == parse_mode(s@, lowercase(s@)),
    {
        let lower = to_lowercase(s);
        TelemetryMode::from_lowercase(s, lower.as_str())
    }

    /// The name of the mode as it is written on the command line.
    pub fn to_string(&self) -> (r: String)
        ensures
            r@ == self.name(),
    {
        match self {
            TelemetryMode::Live => String::from_str("live"),
            TelemetryMode::Replay => String::from_str("replay"),
        }
    }
}

impl Default for TelemetryMode {
    fn default() -> (r: TelemetryMode)
        ensures
            r == TelemetryMode::Live,
    {
        TelemetryMode::Live
    }
}

impl std::str::FromStr for TelemetryMode {
    type Err = String;

    fn from_str(s: &str) -> (r: Result<TelemetryMode, String>)
        ensures
            result_view(r) == parse_mode(s@, lowercase(s@)),
    {
        TelemetryMode::parse(s)
    }
}

/// Why a set of arguments is refused. Where a value is at fault the error
/// carries it as text.
#[derive(Debug)]
pub enum ConfigError {
    MissingIbtFile,
    IbtFileNotFound(String),
    InvalidPlaybackSpeed(String),
    InvalidThreshold(String),
    Other(String),
}

/// `ConfigError` as a mathematical value.
pub enum ConfigFault {
    MissingIbtFile,
    IbtFileNotFound(Seq<char>),
    InvalidPlaybackSpeed(Seq<char>),
    InvalidThreshold(Seq<char>),
    Other(Seq<char>),
}

impl View for ConfigError {
    type V = ConfigFault;

    open spec fn view(&self) -> ConfigFault {
        match self {
            ConfigError::MissingIbtFile => ConfigFault::MissingIbtFile,
            ConfigError::IbtFileNotFound(p) => ConfigFault::IbtFileNotFound(p@),
            ConfigError::InvalidPlaybackSpeed(v) => ConfigFault::InvalidPlaybackSpeed(v@),
            ConfigError::InvalidThreshold(v) => ConfigFault::InvalidThreshold(v@),
            ConfigError::Other(m) => ConfigFault::Other(m@),
        }
    }
}

impl ConfigError {
    /// The text of the error.
    pub open spec fn spec_message(&self) -> Seq<char> {
        match self {
            ConfigError::MissingIbtFile => "IBT file path is required for replay mode"@,
            ConfigError::IbtFileNotFound(p) => "IBT file not found: "@ + p@,
            ConfigError::InvalidPlaybackSpeed(v) => "Invalid playback speed: "@ + v@
                + ". Must be positive"@,
            ConfigError::InvalidThreshold(v) => "Invalid lap completion threshold: "@ + v@
                + ". Must be between 0.0 and 1.0"@,
            ConfigError::Other(m) => "Configuration error: "@ + m@,
        }
    }

    /// The text of the error.
    pub fn to_string(&self) -> (r: String)
        ensures
            r@ == self.spec_message(),
    {
        match self {
            ConfigError::MissingIbtFile => String::from_str(
                "IBT file path is required for replay mode",
            ),
            ConfigError::IbtFileNotFound(p) => {
                let mut m = String::from_str("IBT file not found: ");
                m.append(p.as_str());
                m
            },
            ConfigError::InvalidPlaybackSpeed(v) => {
                let mut m = String::from_str("Invalid playback speed: ");
                m.append(v.as_str());
                m.append(". Must be positive");
                m
            },
            ConfigError::InvalidThreshold(v) => {
                let mut m = String::from_str("Invalid lap completion threshold: ");
                m.append(v.as_str());
                m.append(". Must be between 0.0 and 1.0");
                m
            },
            ConfigError::Other(msg) => {
                let mut m = String::from_str("Configuration error: ");
                m.append(msg.as_str());
                m
            },
        }
    }
}

/// What is known of a set of command line arguments when it is validated.
/// The two numbers come with the outcome of their range test and with
/// their text.
#[derive(Debug)]
pub struct ArgsCheck {
    pub mode: TelemetryMode,
    /// Path of the recorded file, if one was given.
    pub file: Option<String>,
    /// Whether that file exists.
    pub file_exists: bool,
    /// Whether the playback speed is above zero.
    pub speed_is_positive: bool,
    pub speed_text: String,
    /// Whether the lap completion threshold lies between 0 and 1, ends included.
    pub threshold_in_range: bool,
    pub threshold_text: String,
}

/// The first fault of a set of arguments: replay needs a file; the speed
/// has to be positive; the threshold has to be in range; the file of a
/// replay has to exist.
pub open spec fn spec_validate(check: ArgsCheck) -> Option<ConfigFault> {
    if check.mode == TelemetryMode::Replay && check.file is None {
        Some(ConfigFault::MissingIbtFile)
    } else if !check.speed_is_positive {
        Some(ConfigFault::InvalidPlaybackSpeed(check.speed_text@))
    } else if !check.threshold_in_range {
        Some(ConfigFault::InvalidThreshold(check.threshold_text@))
    } else if check.file is Some && check.mode == TelemetryMode::Replay && !check.file_exists {
        Some(ConfigFault::IbtFileNotFound(check.file->Some_0@))
    } else {
        None
    }
}

/// The fault that a result reports.
pub open spec fn fault_of(r: Result<(), ConfigError>) -> Option<ConfigFault> {
    match r {
        Ok(_) => None,
        Err(e) => Some(e@),
    }
}

/// Validates a set of arguments.
pub fn validate(check: &ArgsCheck) -> (r: Result<(), ConfigError>)
    ensures
        fault_of(r) == spec_validate(*check),
{
    let replay = match check.mode {
        TelemetryMode::Replay => true,
        TelemetryMode::Live => false,
    };
    if replay && check.file.is_none() {
        return Err(ConfigError::MissingIbtFile);
    }
    if !check.speed_is_positive {
        return Err(ConfigError::InvalidPlaybackSpeed(check.speed_text.clone()));
    }
    if !check.threshold_in_range {
        return Err(ConfigError::InvalidThreshold(check.threshold_text.clone()));
    }
    if let Some(path) = &check.file {
        if replay && !check.file_exists {
            return Err(ConfigError::IbtFileNotFound(path.clone()));
        }
    }
    Ok(())
}

/// The configuration of the client, without its two fractional numbers
/// (playback speed and lap completion threshold), which the application
/// keeps beside it.
#[derive(Debug)]
pub struct Config {
    pub mode: TelemetryMode,
    pub ibt_file: Option<String>,
    pub server_url: String,
    pub upload_enabled: bool,
    pub log_level: String,
}

impl Config {
    /// The configuration that validated arguments give.
    pub fn from_args(
        check: &ArgsCheck,
        server_url: String,
        upload_enabled: bool,
        log_level: String,
    ) -> (r: Result<Config, ConfigError>)
        ensures
            match r {
                Ok(c) => spec_validate(*check) is None && c.mode == check.mode && c.server_url
                    == server_url && c.upload_enabled == upload_enabled && c.log_level == log_level
                    && match (c.ibt_file, check.file) {
                    (Some(a), Some(b)) => a@ == b@,
                    (None, None) => true,
                    _ => false,
                },
                Err(e) => spec_validate(*check) == Some(e@),
            },
    {
        match validate(check) {
            Ok(_) => {},
            Err(e) => {
                return Err(e);
            },
        }
        let ibt_file = match &check.file {
            Some(p) => Some(p.clone()),
            None => None,
        };
        Ok(Config { mode: check.mode, ibt_file, server_url, upload_enabled, log_level })
    }

    /// The base URL of the telemetry endpoints.
    pub fn telemetry_api_url(&self) -> (r: String)
        ensures
            r@ == self.server_url@ + "/api/v1/telemetry"@,
    {
        crate::api::endpoint_url(self.server_url.as_str(), crate::api::Endpoint::Telemetry)
    }

    /// The base URL of the metrics endpoints.
    pub fn metrics_api_url(&self) -> (r: String)
        ensures
            r@ == self.server_url@ + "/api/v1/metrics"@,
    {
        crate::api::endpoint_url(self.server_url.as_str(), crate::api::Endpoint::Metrics)
    }

    /// The base URL of the sessions endpoints.
    pub fn sessions_api_url(&self) -> (r: String)
        ensures
            r@ == self.server_url@ + "/api/v1/sessions"@,
    {
        crate::api::endpoint_url(self.server_url.as_str(), crate::api::Endpoint::Sessions)
    }

    /// The URL of the health check.
    pub fn health_url(&self) -> (r: String)
        ensures
            r@ == self.server_url@ + "/api/v1/health"@,
    {
        crate::api::endpoint_url(self.server_url.as_str(), crate::api::Endpoint::Health)
    }
}

impl Default for Config {
    fn default() -> (r: Self)
        ensures
            r.mode == TelemetryMode::Live,
            r.ibt_file is None,
            r.server_url@ == "http://localhost:8000"@,
            r.upload_enabled,
            r.log_level@ == "info"@,
    {
        Config {
            mode: TelemetryMode::Live,
            ibt_file: None,
            server_url: String::from_str("http://localhost:8000"),
            upload_enabled: true,
            log_level: String::from_str("info"),
        }
    }
}

} // verus!
