use cipher_shield::alerts::alert_plan;
use cipher_shield::manager::{capture_plan, capturer_kind, clamp_interval_secs, interval_ms,
    CapturerKind, TaskRegistry};
use cipher_shield::model::{AnalysisResult, CapturedFrame, DetectedEvent, RiskLevel, SourceType,
    StreamRecord};
use cipher_shield::worker::{build_event_record, should_alert, INITIAL_EVENT_STATUS};

fn record(source_type: &str, interval: i32) -> StreamRecord {
    StreamRecord {
        id: 11,
        name: "front door".to_string(),
        source_type: source_type.to_string(),
        source_url: "rtsp://cam/1".to_string(),
        capture_interval_sec: interval,
        enabled: true,
    }
}

#[test]
fn intervals_are_clamped_to_one_second() {
    assert_eq!(clamp_interval_secs(0), 1);
    assert_eq!(clamp_interval_secs(-5), 1);
    assert_eq!(clamp_interval_secs(1), 1);
    assert_eq!(clamp_interval_secs(30), 30);
    assert_eq!(interval_ms(0), 1_000);
    assert_eq!(interval_ms(3), 3_000);
}

#[test]
fn capturer_kind_follows_source() {
    assert_eq!(capturer_kind(SourceType::Snapshot), CapturerKind::Snapshot);
    assert_eq!(capturer_kind(SourceType::Rtsp), CapturerKind::Subprocess);
    assert_eq!(capturer_kind(SourceType::Mock), CapturerKind::Subprocess);
}

#[test]
fn capture_plan_parses_and_rejects() {
    let p = capture_plan(&record("snapshot", 0)).unwrap();
    assert_eq!(p.kind, CapturerKind::Snapshot);
    assert_eq!(p.source, SourceType::Snapshot);
    assert_eq!(p.interval_ms, 1_000);
    let p = capture_plan(&record("mjpeg", 7)).unwrap();
    assert_eq!(p.kind, CapturerKind::Subprocess);
    assert_eq!(p.interval_ms, 7_000);
    assert!(capture_plan(&record("webcam", 5)).is_none());
}

#[test]
fn restart_leaves_exactly_one_task() {
    let rt = tokio::runtime::Runtime::new().unwrap();
    rt.block_on(async {
        let mut reg = TaskRegistry::new();
        let h1 = tokio::spawn(async { tokio::time::sleep(std::time::Duration::from_secs(60)).await });
        assert!(reg.insert_task(4, h1).is_none());
        let h2 = tokio::spawn(async { tokio::time::sleep(std::time::Duration::from_secs(60)).await });
        reg.restart_stream(4, h2);
        // A second insert for the same id hands back the previous handle:
        // the map held exactly one.
        let h3 = tokio::spawn(async {});
        let previous = reg.insert_task(4, h3);
        assert!(previous.is_some());
        previous.unwrap().abort();
        reg.stop_stream(4);
        let h4 = tokio::spawn(async {});
        assert!(reg.insert_task(4, h4).is_none());
        reg.stop_stream(4);
    });
}

#[test]
fn stop_is_idempotent_and_scoped() {
    let rt = tokio::runtime::Runtime::new().unwrap();
    rt.block_on(async {
        let mut reg = TaskRegistry::new();
        reg.stop_stream(99);
        let h = tokio::spawn(async {});
        assert!(reg.insert_task(1, h).is_none());
        reg.stop_stream(2);
        let h2 = tokio::spawn(async {});
        assert!(reg.insert_task(1, h2).is_some());
    });
}

fn result(risk: RiskLevel) -> AnalysisResult {
    AnalysisResult {
        title: Some("  Person at door  ".to_string()),
        description: "someone waiting".to_string(),
        events: vec![DetectedEvent {
            event_type: "person_detected".to_string(),
            details: None,
            confidence: "0.8".to_string(),
        }],
        risk_level: risk,
        triggered_rule: Some("   ".to_string()),
    }
}

#[test]
fn event_record_is_normalized() {
    let frame = CapturedFrame {
        stream_id: 3,
        stream_name: "gate".to_string(),
        data: vec![0xff, 0xd8, 0xff, 0xd9],
        captured_at: 1_700_000_000_000,
    };
    let rec = build_event_record(77, &frame, &result(RiskLevel::Medium));
    assert_eq!(rec.id, 77);
    assert_eq!(rec.stream_id, 3);
    assert_eq!(rec.captured_at, 1_700_000_000_000);
    assert_eq!(rec.description, "someone waiting");
    assert_eq!(
        rec.events,
        "[{\"event_type\":\"person_detected\",\"details\":null,\"confidence\":0.8}]"
    );
    assert_eq!(rec.risk_level, "medium");
    assert_eq!(rec.title.as_deref(), Some("Person at door"));
    assert_eq!(rec.triggered_rule, None);
    assert_eq!(rec.raw_response, None);
    assert_eq!(rec.frame.as_deref(), Some(&[0xff, 0xd8, 0xff, 0xd9][..]));
    assert_eq!(rec.status, INITIAL_EVENT_STATUS);
    assert_eq!(rec.created_at, 0);
}

#[test]
fn alert_fires_only_on_high_risk() {
    assert!(!should_alert(&result(RiskLevel::NoRisk)));
    assert!(!should_alert(&result(RiskLevel::Low)));
    assert!(!should_alert(&result(RiskLevel::Medium)));
    assert!(should_alert(&result(RiskLevel::High)));
}

#[test]
fn alert_noop_without_credentials() {
    // Without gateway credentials the alert is a silent no-op; the event
    // was already persisted and broadcast by then.
    let r = alert_plan(None, None, None, None, None, "gate", "high", "fire");
    assert!(r.is_none());
    let r = alert_plan(
        Some("".to_string()),
        Some("tok".to_string()),
        Some("+100".to_string()),
        None,
        Some("+200".to_string()),
        "gate",
        "high",
        "fire",
    );
    assert!(r.is_none());
}

#[test]
fn alert_request_is_fully_formed() {
    let long_description = "x".repeat(250);
    let r = alert_plan(
        Some("AC123".to_string()),
        Some("tok".to_string()),
        Some("+15550001".to_string()),
        Some("  +15550002  ".to_string()),
        Some("+15550003".to_string()),
        "gate",
        "high",
        &long_description,
    )
    .unwrap();
    assert_eq!(r.url, "https://api.twilio.com/2010-04-01/Accounts/AC123/Messages.json");
    assert_eq!(r.account_sid, "AC123");
    assert_eq!(r.auth_token, "tok");
    assert_eq!(r.from_number, "+15550001");
    assert_eq!(r.to_number, "+15550002");
    assert_eq!(
        r.body,
        format!("Cipher-Shield: high risk on stream \"gate\". {}", "x".repeat(100))
    );
}

#[test]
fn alert_falls_back_to_default_number() {
    let r = alert_plan(
        Some("AC1".to_string()),
        Some("t".to_string()),
        Some("+1".to_string()),
        Some("   ".to_string()),
        Some("+2".to_string()),
        "s",
        "high",
        "d",
    )
    .unwrap();
    assert_eq!(r.to_number, "+2");
}
