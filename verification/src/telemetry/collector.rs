//! What the collector tells the event bus when a session starts.

use vstd::prelude::*;
use vstd::string::*;

use super::source::TelemetrySourceError;
use crate::pitwall::session::{DriverEntry, DriverInfo, SessionInfo};

verus! {

/// What can go wrong in the collector.
#[derive(Debug)]
pub enum CollectorError {
    SourceError(TelemetrySourceError),
    EventBusError(String),
}

impl CollectorError {
    /// The text of the error.
    pub open spec fn spec_message(&self) -> Seq<char> {
        match self {
            CollectorError::SourceError(e) => "Source error: "@ + e.spec_message(),
            CollectorError::EventBusError(detail) => "Event bus error: "@ + detail@,
        }
    }

    /// The text of the error.
    pub fn to_string(&self) -> (r: String)
        ensures
            r@ == self.spec_message(),
    {
        match self {
            CollectorError::SourceError(e) => {
                let mut m = String::from_str("Source error: ");
                let inner = e.to_string();
                m.append(inner.as_str());
                m
            },
            CollectorError::EventBusError(detail) => {
                let mut m = String::from_str("Event bus error: ");
                m.append(detail.as_str());
                m
            },
        }
    }
}

impl From<TelemetrySourceError> for CollectorError {
    fn from(e: TelemetrySourceError) -> (r: CollectorError) {
        CollectorError::SourceError(e)
    }
}

impl vstd::std_specs::convert::FromSpecImpl<TelemetrySourceError> for CollectorError {
    open spec fn obeys_from_spec() -> bool {
        true
    }

    open spec fn from_spec(e: TelemetrySourceError) -> CollectorError {
        CollectorError::SourceError(e)
    }
}

/// The start of a session, as it is published on the event bus. The
/// session id is a UUID as a number; the timestamp counts milliseconds
/// since the Unix epoch.
#[derive(Debug)]
pub struct SessionStart {
    pub session_id: u128,
    pub timestamp_millis: i64,
    pub track_id: i32,
    pub track_name: String,
    pub track_config_name: Option<String>,
    pub track_type: String,
    pub car_id: i32,
    pub car_name: String,
    pub car_class_id: i32,
    pub series_id: i32,
}

/// `SessionStart` as a mathematical value.
pub struct SessionStartSpec {
    pub session_id: u128,
    pub timestamp_millis: i64,
    pub track_id: i32,
    pub track_name: Seq<char>,
    pub track_config_name: Option<Seq<char>>,
    pub track_type: Seq<char>,
    pub car_id: i32,
    pub car_name: Seq<char>,
    pub car_class_id: i32,
    pub series_id: i32,
}

/// The text of a string that may be missing.
pub open spec fn text_of(s: Option<String>) -> Option<Seq<char>> {
    match s {
        Some(t) => Some(t@),
        None => None,
    }
}

impl View for SessionStart {
    type V = SessionStartSpec;

    open spec fn view(&self) -> SessionStartSpec {
        SessionStartSpec {
            session_id: self.session_id,
            timestamp_millis: self.timestamp_millis,
            track_id: self.track_id,
            track_name: self.track_name@,
            track_config_name: text_of(self.track_config_name),
            track_type: self.track_type@,
            car_id: self.car_id,
            car_name: self.car_name@,
            car_class_id: self.car_class_id,
            series_id: self.series_id,
        }
    }
}

/// A number that may be missing, or zero.
pub open spec fn or_zero(v: Option<i32>) -> i32 {
    match v {
        Some(x) => x,
        None => 0,
    }
}

/// The player's car among the drivers: the entry at the player's index,
/// where the index is not negative and the list is that long. A missing
/// index counts as zero.
pub open spec fn spec_player_car(info: Option<DriverInfo>) -> Option<DriverEntry> {
    match info {
        Some(di) => match di.drivers {
            Some(drivers) => {
                let idx = or_zero(di.driver_car_idx);
                if 0 <= idx < drivers@.len() {
                    Some(drivers@[idx as int])
                } else {
                    None
                }
            },
            None => None,
        },
        None => None,
    }
}

/// What the start of a session says of it. Missing numbers are zero, a
/// missing car name is empty, a missing track type is "road course".
pub open spec fn spec_session_start(session: SessionInfo, session_id: u128, timestamp_millis: i64) -> SessionStartSpec {
    let car = spec_player_car(session.driver_info);
    SessionStartSpec {
        session_id,
        timestamp_millis,
        track_id: or_zero(session.weekend_info.track_id),
        track_name: session.weekend_info.track_name@,
        track_config_name: text_of(session.weekend_info.track_config_name),
        track_type: match session.weekend_info.track_type {
            Some(t) => t@,
            None => "road course"@,
        },
        car_id: match car {
            Some(c) => or_zero(c.car_id),
            None => 0,
        },
        car_name: match car {
            Some(DriverEntry { car_screen_name: Some(n), .. }) => n@,
            _ => Seq::empty(),
        },
        car_class_id: match car {
            Some(c) => or_zero(c.car_class_id),
            None => 0,
        },
        series_id: or_zero(session.weekend_info.series_id),
    }
}

/// The player's car among the drivers.
fn player_car(info: &Option<DriverInfo>) -> (r: Option<&DriverEntry>)
    ensures
        match r {
            Some(c) => spec_player_car(*info) == Some(*c),
            None => spec_player_car(*info) is None,
        },
{
    match info {
        Some(di) => match &di.drivers {
            Some(drivers) => {
                let idx: i32 = match di.driver_car_idx {
                    Some(i) => i,
                    None => 0,
                };
                if idx >= 0 && (idx as usize) < drivers.len() {
                    Some(&drivers[idx as usize])
                } else {
                    None
                }
            },
            None => None,
        },
        None => None,
    }
}

/// A copy of a string that may be missing.
fn clone_text(s: &Option<String>) -> (r: Option<String>)
    ensures
        text_of(r) == text_of(*s),
{
    match s {
        Some(t) => Some(t.clone()),
        None => None,
    }
}

/// A number that may be missing, or zero.
fn value_or_zero(v: Option<i32>) -> (r: i32)
    ensures
        r == or_zero(v),
{
    match v {
        Some(x) => x,
        None => 0,
    }
}

/// Builds the start of a session from its metadata, for a given id and time.
pub fn session_start(session: &SessionInfo, session_id: u128, timestamp_millis: i64) -> (r:
    SessionStart)
    ensures
        r@ == spec_session_start(*session, session_id, timestamp_millis),
{
    let weekend = &session.weekend_info;
    let car = player_car(&session.driver_info);
    let (car_id, car_name, car_class_id) = match car {
        Some(c) => (
            value_or_zero(c.car_id),
            match &c.car_screen_name {
                Some(n) => n.clone(),
                None => String::new(),
            },
            value_or_zero(c.car_class_id),
        ),
        None => (0, String::new(), 0),
    };
    SessionStart {
        session_id,
        timestamp_millis,
        track_id: value_or_zero(weekend.track_id),
        track_name: weekend.track_name.clone(),
        track_config_name: clone_text(&weekend.track_config_name),
        track_type: match &weekend.track_type {
            Some(t) => t.clone(),
            None => String::from_str("road course"),
        },
        car_id,
        car_name,
        car_class_id,
        series_id: value_or_zero(weekend.series_id),
    }
}

/// Every so many frames the collector reports its progress.
pub const PROGRESS_EVERY: u64 = 1000;

/// How many frames the collector has taken from its source.
#[derive(Debug, Clone, Copy, PartialEq, Eq, Structural)]
pub struct CollectionProgress {
    /// Frames collected; the count stops at the largest number that fits.
    pub frame_count: u64,
}

impl CollectionProgress {
    /// Progress before the first frame.
    pub fn new() -> (r: Self)
        ensures
            r.frame_count == 0,
    {
        CollectionProgress { frame_count: 0 }
    }

    /// The count after one more frame.
    pub open spec fn counted(self) -> u64 {
        if self.frame_count < u64::MAX {
            (self.frame_count + 1) as u64
        } else {
            self.frame_count
        }
    }

    /// Counts a frame and says whether progress is to be reported, which
    /// it is at every multiple of `PROGRESS_EVERY`.
    pub fn record_frame(&mut self) -> (due: bool)
        ensures
            final(self).frame_count == old(self).counted(),
            due == (old(self).counted() % PROGRESS_EVERY == 0),
    {
        if self.frame_count < u64::MAX {
            self.frame_count += 1;
        }
        self.frame_count % PROGRESS_EVERY == 0
    }
}

/// A fresh random identifier: `uuid::Uuid::new_v4`, as a number. Nothing is
/// claimed of it: it differs from call to call.
#[verifier::external_body]
pub(crate) fn new_uuid() -> (r: u128) {
    uuid::Uuid::new_v4().as_u128()
}

/// The time now: `chrono::Utc::now`, in milliseconds since the Unix epoch.
/// Nothing is claimed of it.
#[verifier::external_body]
pub(crate) fn now_millis() -> (r: i64) {
    chrono::Utc::now().timestamp_millis()
}

/// Starts a session: gives it a fresh id and the time now, and builds what
/// is published of it. Whatever id and time come out, the rest is what
/// `session_start` makes of the metadata.
pub fn begin_session(session: &SessionInfo) -> (r: SessionStart)
    ensures
        r@ == spec_session_start(*session, r.session_id, r.timestamp_millis),
{
    let session_id = new_uuid();
    let timestamp_millis = now_millis();
    session_start(session, session_id, timestamp_millis)
}

} // verus!
