//! The frame-capture and analysis core of a multi-camera security platform:
//! JPEG stream framing, live frame fan-out, capture throttling and
//! backpressure, stream lifecycle, vision-model prompt construction and
//! output parsing, event records, and alerting decisions.

use vstd::prelude::*;

pub mod alerts;
pub mod assistant;
pub mod b64;
pub mod blueprints;
pub mod capture;
pub mod config;
pub mod errors;
pub mod frame_store;
pub mod ids;
pub mod jpeg;
pub mod json;
pub mod live;
pub mod manager;
pub mod model;
pub mod text;
pub mod timefmt;
pub mod vlm;
pub mod worker;

pub use jpeg::extract_jpeg_frames;
pub use model::SourceType;
pub use vlm::build_rules_prompt;
pub use vlm::parse_or_fallback;

verus! {

} // verus!
