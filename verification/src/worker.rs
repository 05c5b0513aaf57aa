//! The analysis worker's decisions around one frame: normalizing the
//! model's result, building the event record to persist, and deciding when
//! an alert goes out.
//!
//! The worker loop itself — sharing the queue's receive end, the store
//! round-trips, the model call — lives with the process; a bad frame is
//! logged and skipped there so a worker never dies of one.

use vstd::prelude::*;

use crate::json::{events_to_json, spec_events_json};
use crate::model::{AnalysisEvent, AnalysisResult, CapturedFrame, RiskLevel};
use crate::text::{spec_trim, trim};

verus! {

/// The status every event record is born with.
pub const INITIAL_EVENT_STATUS: &'static str = "unresolved";

/// How many persisted events the process-wide broadcast channel buffers
/// for its subscribers.
pub const EVENT_BROADCAST_CAPACITY: usize = 256;

/// What an optional free-text field persists as: trimmed, and absent when
/// nothing but whitespace remains.
pub open spec fn spec_normalized_opt(s: Option<String>) -> Option<Seq<char>> {
    match s {
        Some(text) => if spec_trim(text@).len() == 0 {
            None
        } else {
            Some(spec_trim(text@))
        },
        None => None,
    }
}

/// Trims an optional free-text field, dropping it when empty.
pub fn normalize_opt(s: &Option<String>) -> (r: Option<String>)
    ensures
        match r {
            Some(t) => spec_normalized_opt(*s) == Some(t@),
            None => spec_normalized_opt(*s) is None,
        },
{
    match s {
        Some(text) => {
            let t = trim(text.as_str());
            if t.unicode_len() == 0 {
                None
            } else {
                Some(t.to_owned())
            }
        },
        None => None,
    }
}

/// Builds the event record a worker persists for one analyzed frame: the
/// frame's own capture time and bytes, the result's description and risk
/// level, its events as JSON, the title and triggered rule trimmed with
/// empty ones dropped, and the initial `unresolved` status.  The store
/// assigns `created_at` on insertion; until then it is zero.
pub fn build_event_record(event_id: u128, frame: &CapturedFrame, result: &AnalysisResult) -> (r:
    AnalysisEvent)
    ensures
        r.id == event_id,
        r.stream_id == frame.stream_id,
        r.captured_at == frame.captured_at,
        r.description@ == result.description@,
        r.events@ == spec_events_json(result.events@),
        r.risk_level@ == result.risk_level.spec_str(),
        match r.triggered_rule {
            Some(t) => spec_normalized_opt(result.triggered_rule) == Some(t@),
            None => spec_normalized_opt(result.triggered_rule) is None,
        },
        match r.title {
            Some(t) => spec_normalized_opt(result.title) == Some(t@),
            None => spec_normalized_opt(result.title) is None,
        },
        r.raw_response is None,
        match r.frame {
            Some(f) => f@ == frame.data@,
            None => false,
        },
        r.status@ == INITIAL_EVENT_STATUS@,
        r.created_at == 0,
{
    AnalysisEvent {
        id: event_id,
        stream_id: frame.stream_id,
        captured_at: frame.captured_at,
        description: result.description.clone(),
        events: events_to_json(&result.events),
        risk_level: result.risk_level.as_str().to_owned(),
        triggered_rule: normalize_opt(&result.triggered_rule),
        raw_response: None,
        title: normalize_opt(&result.title),
        frame: Some(vstd::slice::slice_to_vec(frame.data.as_slice())),
        status: INITIAL_EVENT_STATUS.to_owned(),
        created_at: 0,
    }
}

/// An alert goes out for a frame exactly when its risk level is high.
pub fn should_alert(result: &AnalysisResult) -> (r: bool)
    ensures
        r == (result.risk_level == RiskLevel::High),
{
    result.risk_level == RiskLevel::High
}

} // verus!
