use cipher_shield::assistant::{
    assistant_reply, events_summary, format_event_line, resolved_summary,
    streams_summary, tool_action, ToolAction, ASSISTANT_TOOLS_JSON,
};
use cipher_shield::blueprints::{decode_blueprint_image, encode_blueprint_image};
use cipher_shield::errors::AppError;
use cipher_shield::ids::{uuid_from_str, uuid_to_string};
use cipher_shield::json::{events_to_json, lag_warning_json};
use cipher_shield::live::multipart_part;
use cipher_shield::model::{AnalysisEvent, DetectedEvent, RiskLevel, SourceType, StreamRecord};
use cipher_shield::timefmt::{format_minute, parse_opt_datetime};

#[test]
fn lag_warning_matches_wire_format() {
    assert_eq!(lag_warning_json(0), "{\"type\":\"lag_warning\",\"missed\":0}");
    assert_eq!(lag_warning_json(17), "{\"type\":\"lag_warning\",\"missed\":17}");
    let v: serde_json::Value = serde_json::from_str(&lag_warning_json(5)).unwrap();
    assert_eq!(v["type"], "lag_warning");
    assert_eq!(v["missed"], 5);
}

#[test]
fn multipart_part_frames_the_jpeg() {
    let frame = [0xffu8, 0xd8, 0x00, 0xff, 0xd9];
    let part = multipart_part(&frame);
    let expected_header =
        "--frame\r\nContent-Type: image/jpeg\r\nContent-Length: 5\r\n\r\n".as_bytes();
    assert_eq!(&part[..expected_header.len()], expected_header);
    assert_eq!(&part[expected_header.len()..expected_header.len() + 5], &frame);
    assert_eq!(&part[part.len() - 2..], b"\r\n");
}

#[test]
fn uuid_round_trip() {
    let id: u128 = 0x550e8400e29b41d4a716446655440000;
    let text = uuid_to_string(id);
    assert_eq!(text, "550e8400-e29b-41d4-a716-446655440000");
    assert_eq!(uuid_from_str(&text), Some(id));
    assert_eq!(uuid_from_str("550E8400-E29B-41D4-A716-446655440000"), Some(id));
    assert_eq!(uuid_from_str("550e8400e29b41d4a716446655440000"), Some(id));
    assert_eq!(uuid_from_str("not-a-uuid"), None);
    assert_eq!(uuid_from_str(""), None);
    let zero = uuid_to_string(0);
    assert_eq!(zero, "00000000-0000-0000-0000-000000000000");
}

#[test]
fn datetime_parsing() {
    assert_eq!(parse_opt_datetime(""), None);
    assert_eq!(parse_opt_datetime("   "), None);
    assert_eq!(parse_opt_datetime("2024-01-01"), Some(1_704_067_200_000));
    assert_eq!(parse_opt_datetime("1970-01-01"), Some(0));
    assert_eq!(parse_opt_datetime("1970-01-02 00:00:01"), Some(86_401_000));
    assert_eq!(parse_opt_datetime("2024-01-01T00:00:00Z"), Some(1_704_067_200_000));
    assert_eq!(parse_opt_datetime(" 2024-01-01T01:00:00+01:00 "), Some(1_704_067_200_000));
    assert_eq!(parse_opt_datetime("2023-12-31T23:00:00-01:00"), Some(1_704_067_200_000));
    assert_eq!(parse_opt_datetime("2024-02-29"), Some(1_709_164_800_000));
    assert_eq!(parse_opt_datetime("2023-02-29"), None);
    assert_eq!(parse_opt_datetime("2024-13-01"), None);
    assert_eq!(parse_opt_datetime("yesterday"), None);
}

#[test]
fn minute_formatting() {
    assert_eq!(format_minute(0), "1970-01-01 00:00");
    assert_eq!(format_minute(1_704_067_200_000), "2024-01-01 00:00");
    assert_eq!(format_minute(1_704_153_599_000), "2024-01-01 23:59");
}

fn event() -> AnalysisEvent {
    AnalysisEvent {
        id: 1,
        stream_id: 0x550e8400e29b41d4a716446655440000,
        captured_at: 1_704_067_260_000,
        description: "quiet street".to_string(),
        events: "[]".to_string(),
        risk_level: "low".to_string(),
        triggered_rule: None,
        raw_response: None,
        title: None,
        frame: None,
        status: "unresolved".to_string(),
        created_at: 0,
    }
}

#[test]
fn event_lines_and_summaries() {
    let line = format_event_line(&event());
    assert_eq!(
        line,
        "- 2024-01-01 00:01 | low | - | quiet street | unresolved | 550e8400-e29b-41d4-a716-446655440000"
    );
    assert_eq!(events_summary(&vec![]), "No events.");
    let two = vec![event(), event()];
    let s = events_summary(&two);
    assert!(s.starts_with("2 events:\n- "));
    assert_eq!(s.lines().count(), 3);
    assert_eq!(resolved_summary(3), "Resolved 3 events.");
}

#[test]
fn stream_summary_lines() {
    let s = StreamRecord {
        id: 1,
        name: "gate".to_string(),
        source_type: "rtsp".to_string(),
        source_url: "rtsp://x".to_string(),
        capture_interval_sec: 5,
        enabled: true,
    };
    assert_eq!(
        streams_summary(&vec![s]),
        "00000000-0000-0000-0000-000000000001 | gate | rtsp"
    );
}

#[test]
fn tool_dispatch() {
    let args = "{\"from\":\"2024-01-01\",\"stream_id\":\"550e8400-e29b-41d4-a716-446655440000\",\"risk_level\":\" high \",\"limit\":5000}";
    match tool_action("list_events", args) {
        ToolAction::ListEvents(q) => {
            assert_eq!(q.from, Some(1_704_067_200_000));
            assert_eq!(q.to, None);
            assert_eq!(q.stream_id, Some(0x550e8400e29b41d4a716446655440000));
            assert_eq!(q.risk_level.as_deref(), Some("high"));
            assert_eq!(q.limit, 2000);
            assert_eq!(q.offset, 0);
        },
        _ => panic!("wrong action"),
    }
    match tool_action("list_events", "{}") {
        ToolAction::ListEvents(q) => {
            assert_eq!(q.limit, 1000);
            assert_eq!(q.stream_id, None);
        },
        _ => panic!("wrong action"),
    }
    assert!(matches!(tool_action("list_streams", "{}"), ToolAction::ListStreams));
    assert!(matches!(tool_action("resolve_events", "{}"), ToolAction::ResolveEvents(_)));
    match tool_action("delete_everything", "{}") {
        ToolAction::Unknown(t) => assert_eq!(t, "Unknown tool: delete_everything"),
        _ => panic!("wrong action"),
    }
}

#[test]
fn tools_schema_is_valid_json() {
    let v: serde_json::Value = serde_json::from_str(ASSISTANT_TOOLS_JSON).unwrap();
    assert_eq!(v.as_array().unwrap().len(), 3);
    assert_eq!(v[0]["function"]["name"], "list_events");
}

#[test]
fn reply_decision() {
    assert_eq!(assistant_reply("hello", false), Some("hello".to_string()));
    assert_eq!(assistant_reply("", false), Some("No response.".to_string()));
    assert_eq!(assistant_reply("ignored", true), None);
}

#[test]
fn blueprint_image_decoding() {
    assert_eq!(decode_blueprint_image(&None).unwrap(), None);
    assert_eq!(decode_blueprint_image(&Some("".to_string())).unwrap(), None);
    assert_eq!(decode_blueprint_image(&Some("aGk=".to_string())).unwrap(), Some(b"hi".to_vec()));
    match decode_blueprint_image(&Some("!!!".to_string())) {
        Err(AppError::BadRequest(m)) => assert_eq!(m, "invalid image_base64"),
        _ => panic!("expected a bad request"),
    }
    assert_eq!(encode_blueprint_image(&Some(b"hi".to_vec())), Some("aGk=".to_string()));
    assert_eq!(encode_blueprint_image(&None), None);
}

#[test]
fn error_statuses_and_messages() {
    assert_eq!(AppError::NotFound("x".to_string()).http_status(), 404);
    assert_eq!(AppError::BadRequest("x".to_string()).http_status(), 400);
    assert_eq!(AppError::Vlm("x".to_string()).http_status(), 502);
    assert_eq!(AppError::Database("x".to_string()).http_status(), 500);
    assert_eq!(AppError::Stream("x".to_string()).http_status(), 500);
    assert_eq!(AppError::Other("boom".to_string()).http_status(), 500);
    assert_eq!(AppError::NotFound("Stream 1 not found".to_string()).message(),
        "Not found: Stream 1 not found");
    assert_eq!(AppError::Other("boom".to_string()).message(), "boom");
}

#[test]
fn source_and_risk_levels_round_trip() {
    for (s, v) in [
        ("rtsp", SourceType::Rtsp),
        ("mjpeg", SourceType::Mjpeg),
        ("snapshot", SourceType::Snapshot),
        ("usb", SourceType::Usb),
        ("mock", SourceType::Mock),
    ] {
        assert_eq!(SourceType::from_str(s), Some(v));
        assert_eq!(v.as_str(), s);
    }
    assert_eq!(SourceType::from_str("webcam"), None);
    for (s, v) in [
        ("none", RiskLevel::NoRisk),
        ("low", RiskLevel::Low),
        ("medium", RiskLevel::Medium),
        ("high", RiskLevel::High),
    ] {
        assert_eq!(RiskLevel::from_str(s), Some(v));
        assert_eq!(v.as_str(), s);
    }
    assert_eq!(RiskLevel::from_str("severe"), None);
}

#[test]
fn json_escaping_round_trips_through_a_real_parser() {
    for s in [
        "plain",
        "with \"quotes\" and \\backslashes\\",
        "line\nbreaks\tand\rreturns",
        "control \u{01} byte",
        "unicode: caméra — ✓",
        "",
    ] {
        let body = lag_warning_json(1);
        assert!(serde_json::from_str::<serde_json::Value>(&body).is_ok());
        let literal = format!(
            "{{\"description\":{},\"events\":[],\"risk_level\":\"none\"}}",
            serde_json::to_string(s).unwrap()
        );
        let parsed = cipher_shield::parse_or_fallback(&literal);
        assert_eq!(parsed.description, s);
    }
}

#[test]
fn event_json_escapes_field_text() {
    let events = vec![DetectedEvent {
        event_type: "unusual_activity".to_string(),
        details: Some("saw a \"thing\"\non two lines".to_string()),
        confidence: "0.5".to_string(),
    }];
    let text = events_to_json(&events);
    let v: serde_json::Value = serde_json::from_str(&text).unwrap();
    assert_eq!(v[0]["event_type"], "unusual_activity");
    assert_eq!(v[0]["details"], "saw a \"thing\"\non two lines");
    assert_eq!(v[0]["confidence"], 0.5);
}

#[test]
fn trimming_covers_unicode_whitespace() {
    // The cleanup removes everything std's trim removes, not only ASCII:
    // no-break space, ideographic space, and the vertical tab all go.
    let padded = "\u{00a0}\u{3000}\x0b 2024-01-01 \u{2003}";
    assert_eq!(parse_opt_datetime(padded), Some(1_704_067_200_000));
    let fenced = "\u{00a0}```json\n{\"description\":\"x\",\"events\":[],\"risk_level\":\"low\"}\n```\u{2028}";
    let r = cipher_shield::parse_or_fallback(fenced);
    assert_eq!(r.description, "x");
    assert_eq!(r.risk_level, RiskLevel::Low);
}
