//! The server's API as the client sees it: where the endpoints are and
//! what a response means.

use vstd::prelude::*;
use vstd::string::*;

verus! {

/// Response from the lap upload endpoint.
#[derive(Debug)]
pub struct LapUploadResponse {
    pub status: String,
    pub message: String,
    pub lap_id: String,
}

/// Response from the metrics upload endpoint.
#[derive(Debug)]
pub struct MetricsUploadResponse {
    pub status: String,
    pub message: String,
    pub lap_metrics_id: String,
}

/// Health check response.
#[derive(Debug)]
pub struct HealthResponse {
    pub status: String,
    pub version: Option<String>,
}

/// The endpoints of the API.
#[derive(Debug, Clone, Copy, PartialEq, Eq, Structural)]
pub enum Endpoint {
    Health,
    Telemetry,
    Metrics,
    Sessions,
    LatestSession,
    LapMetricsUpload,
}

/// The path of an endpoint below the server's base URL.
pub open spec fn spec_path(endpoint: Endpoint) -> Seq<char> {
    match endpoint {
        Endpoint::Health => "/api/v1/health"@,
        Endpoint::Telemetry => "/api/v1/telemetry"@,
        Endpoint::Metrics => "/api/v1/metrics"@,
        Endpoint::Sessions => "/api/v1/sessions"@,
        Endpoint::LatestSession => "/api/v1/telemetry/sessions/latest"@,
        Endpoint::LapMetricsUpload => "/api/v1/metrics/lap"@,
    }
}

/// The URL of an endpoint: the base as it is given, then the path.
pub fn endpoint_url(base_url: &str, endpoint: Endpoint) -> (r: String)
    ensures
        r@ == base_url@ + spec_path(endpoint),
{
    let mut url = String::from_str(base_url);
    let path: &str = match endpoint {
        Endpoint::Health => "/api/v1/health",
        Endpoint::Telemetry => "/api/v1/telemetry",
        Endpoint::Metrics => "/api/v1/metrics",
        Endpoint::Sessions => "/api/v1/sessions",
        Endpoint::LatestSession => "/api/v1/telemetry/sessions/latest",
        Endpoint::LapMetricsUpload => "/api/v1/metrics/lap",
    };
    url.append(path);
    url
}

/// The URL to which a lap with the given id is uploaded.
pub fn lap_upload_url(base_url: &str, lap_id: &str) -> (r: String)
    ensures
        r@ == base_url@ + "/api/v1/telemetry/lap?lap_id="@ + lap_id@,
{
    let mut url = String::from_str(base_url);
    url.append("/api/v1/telemetry/lap?lap_id=");
    url.append(lap_id);
    url
}

/// The URL of the metrics of the lap with the given id.
pub fn lap_metrics_url(base_url: &str, lap_id: &str) -> (r: String)
    ensures
        r@ == base_url@ + "/api/v1/metrics/lap/"@ + lap_id@,
{
    let mut url = String::from_str(base_url);
    url.append("/api/v1/metrics/lap/");
    url.append(lap_id);
    url
}

/// The URL of the session with the given id.
pub fn session_url(base_url: &str, session_id: &str) -> (r: String)
    ensures
        r@ == base_url@ + "/api/v1/sessions/"@ + session_id@,
{
    let mut url = String::from_str(base_url);
    url.append("/api/v1/sessions/");
    url.append(session_id);
    url
}

/// What the status of a response means.
#[derive(Debug, Clone, Copy, PartialEq, Eq, Structural)]
pub enum ResponseClass {
    /// 200 to 299: the body holds the answer.
    Success,
    /// 404 on an endpoint that looks one thing up.
    NotFound,
    /// Anything else: the body holds the server's message.
    ServerError,
}

/// What a status means. `lookup` says whether the endpoint looks one thing
/// up, so that 404 means that it is not there.
pub open spec fn spec_classify(status: u16, lookup: bool) -> ResponseClass {
    if 200 <= status <= 299 {
        ResponseClass::Success
    } else if lookup && status == 404 {
        ResponseClass::NotFound
    } else {
        ResponseClass::ServerError
    }
}

/// Classifies the status of a response.
pub fn classify_status(status: u16, lookup: bool) -> (r: ResponseClass)
    ensures
        r == spec_classify(status, lookup),
{
    if status >= 200 && status <= 299 {
        ResponseClass::Success
    } else if lookup && status == 404 {
        ResponseClass::NotFound
    } else {
        ResponseClass::ServerError
    }
}

/// The health that a successful response reports: what its body says, or
/// plain "ok" where the body cannot be read.
pub fn health_from_body(parsed: Option<HealthResponse>) -> (r: HealthResponse)
    ensures
        match parsed {
            Some(h) => r == h,
            None => r.status@ == "ok"@ && r.version is None,
        },
{
    match parsed {
        Some(h) => h,
        None => HealthResponse { status: String::from_str("ok"), version: None },
    }
}

} // verus!
