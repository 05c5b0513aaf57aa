//! The data model of the pipeline: source kinds, captured frames, analysis
//! results, persisted event records, and the request payloads of the API.
//!
//! Stream and event identifiers are carried as the 128-bit value of their
//! UUID; timestamps as milliseconds since the Unix epoch.  The confidence of
//! a detected event is kept as the decimal text of the number exactly as the
//! model produced it, since the pipeline never computes with it.

use vstd::prelude::*;

use crate::text::str_eq;

verus! {

/// The kinds of video source a stream can be configured with.
#[derive(Debug, Clone, Copy, PartialEq, Eq, Structural)]
pub enum SourceType {
    /// RTSP stream (IP cameras), transcoded by the media tool.
    Rtsp,
    /// HTTP MJPEG stream, transcoded by the media tool.
    Mjpeg,
    /// HTTP snapshot endpoint, polled with periodic GET requests.
    Snapshot,
    /// Local USB camera or webcam.
    Usb,
    /// Mock source: a local file played on repeat, or a web video resolved
    /// through the URL-extractor tool.
    Mock,
}

impl SourceType {
    /// The textual form used in stream records.
    pub fn as_str(&self) -> (s: &'static str)
        ensures
            s@ == self.spec_str(),
    {
        match self {
            SourceType::Rtsp => "rtsp",
            SourceType::Mjpeg => "mjpeg",
            SourceType::Snapshot => "snapshot",
            SourceType::Usb => "usb",
            SourceType::Mock => "mock",
        }
    }

    pub open spec fn spec_str(self) -> Seq<char> {
        match self {
            SourceType::Rtsp => "rtsp"@,
            SourceType::Mjpeg => "mjpeg"@,
            SourceType::Snapshot => "snapshot"@,
            SourceType::Usb => "usb"@,
            SourceType::Mock => "mock"@,
        }
    }

    /// Which source kind a stream record's `source_type` column denotes,
    /// if any.
    pub open spec fn spec_from_str(s: Seq<char>) -> Option<SourceType> {
        if s == "rtsp"@ {
            Some(SourceType::Rtsp)
        } else if s == "mjpeg"@ {
            Some(SourceType::Mjpeg)
        } else if s == "snapshot"@ {
            Some(SourceType::Snapshot)
        } else if s == "usb"@ {
            Some(SourceType::Usb)
        } else if s == "mock"@ {
            Some(SourceType::Mock)
        } else {
            None
        }
    }

    /// Parses the textual form; rejects anything but the five known kinds.
    pub fn from_str(s: &str) -> (r: Option<SourceType>)
        ensures
            r == Self::spec_from_str(s@),
    {
        if str_eq(s, "rtsp") {
            Some(SourceType::Rtsp)
        } else if str_eq(s, "mjpeg") {
            Some(SourceType::Mjpeg)
        } else if str_eq(s, "snapshot") {
            Some(SourceType::Snapshot)
        } else if str_eq(s, "usb") {
            Some(SourceType::Usb)
        } else if str_eq(s, "mock") {
            Some(SourceType::Mock)
        } else {
            None
        }
    }
}

/// The risk a frame's scene was judged to carry.
#[derive(Debug, Clone, Copy, PartialEq, Eq, Structural)]
pub enum RiskLevel {
    /// The "none" level: nothing of concern.
    NoRisk,
    Low,
    Medium,
    High,
}

impl Default for RiskLevel {
    fn default() -> (r: Self)
        ensures
            r == RiskLevel::NoRisk,
    {
        RiskLevel::NoRisk
    }
}

impl RiskLevel {
    /// The textual form used in prompts, persisted records, and queries.
    pub fn as_str(&self) -> (s: &'static str)
        ensures
            s@ == self.spec_str(),
    {
        match self {
            RiskLevel::NoRisk => "none",
            RiskLevel::Low => "low",
            RiskLevel::Medium => "medium",
            RiskLevel::High => "high",
        }
    }

    pub open spec fn spec_str(self) -> Seq<char> {
        match self {
            RiskLevel::NoRisk => "none"@,
            RiskLevel::Low => "low"@,
            RiskLevel::Medium => "medium"@,
            RiskLevel::High => "high"@,
        }
    }

    /// Which risk level a piece of model output denotes, if any.
    pub open spec fn spec_from_str(s: Seq<char>) -> Option<RiskLevel> {
        if s == "none"@ {
            Some(RiskLevel::NoRisk)
        } else if s == "low"@ {
            Some(RiskLevel::Low)
        } else if s == "medium"@ {
            Some(RiskLevel::Medium)
        } else if s == "high"@ {
            Some(RiskLevel::High)
        } else {
            None
        }
    }

    /// Parses the textual form; rejects anything but the four levels.
    pub fn from_str(s: &str) -> (r: Option<RiskLevel>)
        ensures
            r == Self::spec_from_str(s@),
    {
        if str_eq(s, "none") {
            Some(RiskLevel::NoRisk)
        } else if str_eq(s, "low") {
            Some(RiskLevel::Low)
        } else if str_eq(s, "medium") {
            Some(RiskLevel::Medium)
        } else if str_eq(s, "high") {
            Some(RiskLevel::High)
        } else {
            None
        }
    }
}

/// A single captured image from a stream, on its way to analysis.
#[derive(Debug, Clone)]
pub struct CapturedFrame {
    /// The stream's UUID as its 128-bit value.
    pub stream_id: u128,
    pub stream_name: String,
    /// Raw JPEG bytes.
    pub data: Vec<u8>,
    /// Capture time, in milliseconds since the Unix epoch.
    pub captured_at: i64,
}

impl CapturedFrame {
    /// Wraps one frame for the analysis queue.
    pub fn new(stream_id: u128, stream_name: &str, data: Vec<u8>, captured_at: i64) -> (f:
        CapturedFrame)
        ensures
            f.stream_id == stream_id,
            f.stream_name@ == stream_name@,
            f.data == data,
            f.captured_at == captured_at,
    {
        CapturedFrame { stream_id, stream_name: stream_name.to_owned(), data, captured_at }
    }
}

/// One event the model detected in a frame.
#[derive(Debug, Clone)]
pub struct DetectedEvent {
    pub event_type: String,
    pub details: Option<String>,
    /// The confidence in `[0, 1]`, kept as the decimal text of the number.
    pub confidence: String,
}

/// The structured outcome of analyzing one frame.
#[derive(Debug, Clone)]
pub struct AnalysisResult {
    /// Short title (at most a few words), absent when the model gave none.
    pub title: Option<String>,
    pub description: String,
    pub events: Vec<DetectedEvent>,
    pub risk_level: RiskLevel,
    /// The custom rule the model says determined the risk level, verbatim,
    /// or absent when it used its own judgment.
    pub triggered_rule: Option<String>,
}

/// A per-stream rule handed to the model to steer its threat-level decision.
pub struct VlmRule {
    pub description: String,
    /// `"none"`, `"low"`, `"medium"` or `"high"`.
    pub threat_level: String,
}

/// A stream's configuration as loaded from the persistent store.
#[derive(Debug, Clone)]
pub struct StreamRecord {
    /// The stream's UUID as its 128-bit value.
    pub id: u128,
    pub name: String,
    pub source_type: String,
    pub source_url: String,
    pub capture_interval_sec: i32,
    pub enabled: bool,
}

/// A persisted analysis event, mirroring the event table row.
#[derive(Debug, Clone)]
pub struct AnalysisEvent {
    /// The event's UUID as its 128-bit value.
    pub id: u128,
    /// The stream's UUID as its 128-bit value.
    pub stream_id: u128,
    /// Capture time of the analyzed frame, in milliseconds since the epoch.
    pub captured_at: i64,
    pub description: String,
    /// The detected events, serialized as a JSON array.
    pub events: String,
    pub risk_level: String,
    pub triggered_rule: Option<String>,
    pub raw_response: Option<String>,
    pub title: Option<String>,
    pub frame: Option<Vec<u8>>,
    pub status: String,
    /// Set by the store on insertion, in milliseconds since the epoch.
    pub created_at: i64,
}

/// Payload for updating an event (for instance, resolving a threat).
#[derive(Debug, Clone)]
pub struct UpdateEventRequest {
    pub status: String,
}

/// Payload for creating a per-stream rule.
#[derive(Debug, Clone)]
pub struct CreateRuleRequest {
    pub description: String,
    /// `"none"`, `"low"`, `"medium"` or `"high"`.
    pub threat_level: String,
    pub position: i32,
}

/// Payload for updating a per-stream rule; absent fields stay unchanged.
#[derive(Debug, Clone)]
pub struct UpdateRuleRequest {
    pub description: Option<String>,
    pub threat_level: Option<String>,
    pub position: Option<i32>,
}

/// Payload for creating a blueprint (a floor-plan image).
#[derive(Debug, Clone)]
pub struct CreateBlueprintRequest {
    pub name: Option<String>,
    /// Base64-encoded image, optional.
    pub image_base64: Option<String>,
}

/// Payload for updating a blueprint; absent fields stay unchanged.
#[derive(Debug, Clone)]
pub struct UpdateBlueprintRequest {
    pub name: Option<String>,
    pub image_base64: Option<String>,
}

/// The capture interval a stream is created with when the request names
/// none, in seconds.
pub fn default_interval() -> (r: i32)
    ensures
        r == 5,
{
    5
}

/// Whether a stream is enabled when the creation request does not say.
pub fn default_enabled() -> (r: bool)
    ensures
        r,
{
    true
}

/// How many events an event query returns when no limit is given.
pub fn default_limit() -> (r: i64)
    ensures
        r == 50,
{
    50
}

} // verus!
