//! Session metadata, as far as the engine and its clients read it.

use vstd::prelude::*;

verus! {

/// The event that a session belongs to.
#[derive(Debug)]
pub struct WeekendInfo {
    pub track_name: String,
    pub track_id: Option<i32>,
    pub track_config_name: Option<String>,
    pub track_type: Option<String>,
    pub track_length: String,
    pub series_id: Option<i32>,
}

/// One car of the session.
#[derive(Debug)]
pub struct DriverEntry {
    pub car_id: Option<i32>,
    pub car_screen_name: Option<String>,
    pub car_class_id: Option<i32>,
}

/// The drivers of the session and which of them the player is.
#[derive(Debug)]
pub struct DriverInfo {
    pub driver_car_idx: Option<i32>,
    pub drivers: Option<Vec<DriverEntry>>,
}

/// Parsed session metadata of one session version. It is not edited once
/// built: a later version's metadata takes its place.
#[derive(Debug)]
pub struct SessionInfo {
    pub session_version: u32,
    pub weekend_info: WeekendInfo,
    pub driver_info: Option<DriverInfo>,
}

} // verus!
