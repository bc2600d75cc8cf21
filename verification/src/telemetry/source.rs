//! The choice between a live and a replayed telemetry source.

use vstd::prelude::*;
use vstd::string::*;

use crate::config::TelemetryMode;
use crate::pitwall::connection::Connection;

verus! {

/// Configuration of a telemetry source. The playback speed is held in
/// thousandths: 1000 is real time.
#[derive(Debug, Clone)]
pub struct TelemetrySourceConfig {
    pub mode: TelemetryMode,
    pub ibt_file: Option<String>,
    pub playback_speed_permille: u32,
}

/// What can go wrong with a telemetry source.
#[derive(Debug)]
pub enum TelemetrySourceError {
    IbtOpenError(String),
    ConnectionError(String),
    MissingIbtFile,
}

impl TelemetrySourceError {
    /// The text of the error.
    pub open spec fn spec_message(&self) -> Seq<char> {
        match self {
            TelemetrySourceError::IbtOpenError(detail) => "Failed to open IBT file: "@ + detail@,
            TelemetrySourceError::ConnectionError(detail) => "Failed to connect to iRacing: "@
                + detail@,
            TelemetrySourceError::MissingIbtFile => "No IBT file specified for replay mode"@,
        }
    }

    /// The text of the error.
    pub fn to_string(&self) -> (r: String)
        ensures
            r@ == self.spec_message(),
    {
        match self {
            TelemetrySourceError::IbtOpenError(detail) => {
                let mut m = String::from_str("Failed to open IBT file: ");
                m.append(detail.as_str());
                m
            },
            TelemetrySourceError::ConnectionError(detail) => {
                let mut m = String::from_str("Failed to connect to iRacing: ");
                m.append(detail.as_str());
                m
            },
            TelemetrySourceError::MissingIbtFile => String::from_str(
                "No IBT file specified for replay mode",
            ),
        }
    }
}

/// The source that a configuration asks for.
#[derive(Debug)]
pub enum SourcePlan {
    /// Replay the file at the speed, in thousandths.
    Replay { path: String, speed_permille: u32 },
    /// Connect to the simulator.
    Live,
}

/// `SourcePlan` or the error, as mathematical values.
pub enum PlanSpec {
    Replay { path: Seq<char>, speed_permille: u32 },
    Live,
    MissingIbtFile,
    LiveUnavailable,
}

/// The view of a plan or its error: of the errors only the two that
/// planning itself gives have a view of their own.
pub open spec fn plan_view(r: Result<SourcePlan, TelemetrySourceError>) -> Option<PlanSpec> {
    match r {
        Ok(SourcePlan::Replay { path, speed_permille }) => Some(
            PlanSpec::Replay { path: path@, speed_permille },
        ),
        Ok(SourcePlan::Live) => Some(PlanSpec::Live),
        Err(TelemetrySourceError::MissingIbtFile) => Some(PlanSpec::MissingIbtFile),
        Err(TelemetrySourceError::ConnectionError(m)) => if m@
            == "Live mode is only available on Windows"@ {
            Some(PlanSpec::LiveUnavailable)
        } else {
            None
        },
        Err(TelemetrySourceError::IbtOpenError(_)) => None,
    }
}

/// The source that a configuration asks for: replay needs a file, and a
/// live source exists only where the platform has one.
pub open spec fn spec_plan_source(config: TelemetrySourceConfig, live_available: bool) -> PlanSpec {
    match config.mode {
        TelemetryMode::Replay => match config.ibt_file {
            Some(path) => PlanSpec::Replay {
                path: path@,
                speed_permille: config.playback_speed_permille,
            },
            None => PlanSpec::MissingIbtFile,
        },
        TelemetryMode::Live => if live_available {
            PlanSpec::Live
        } else {
            PlanSpec::LiveUnavailable
        },
    }
}

/// Decides which source a configuration asks for, before anything is opened.
pub fn plan_source(config: &TelemetrySourceConfig, live_available: bool) -> (r: Result<
    SourcePlan,
    TelemetrySourceError,
>)
    ensures
        plan_view(r) == Some(spec_plan_source(*config, live_available)),
{
    match config.mode {
        TelemetryMode::Replay => match &config.ibt_file {
            Some(path) => Ok(
                SourcePlan::Replay {
                    path: path.clone(),
                    speed_permille: config.playback_speed_permille,
                },
            ),
            None => Err(TelemetrySourceError::MissingIbtFile),
        },
        TelemetryMode::Live => if live_available {
            Ok(SourcePlan::Live)
        } else {
            Err(
                TelemetrySourceError::ConnectionError(
                    String::from_str("Live mode is only available on Windows"),
                ),
            )
        },
    }
}

/// A live telemetry source, connected to the simulator.
#[derive(Debug)]
pub struct LiveSource {
    pub connection: Connection,
}

/// A telemetry source that replays a recorded file.
#[derive(Debug)]
pub struct ReplaySource {
    pub connection: Connection,
}

impl LiveSource {
    /// Packets per second of the source.
    pub fn source_hz(&self) -> (r: u32)
        ensures
            r == self.connection.source_hz,
    {
        self.connection.source_hz()
    }
}

impl ReplaySource {
    /// Packets per second of the source.
    pub fn source_hz(&self) -> (r: u32)
        ensures
            r == self.connection.source_hz,
    {
        self.connection.source_hz()
    }
}

} // verus!
