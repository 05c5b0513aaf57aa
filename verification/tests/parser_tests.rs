use cipher_shield::model::RiskLevel;
use cipher_shield::parse_or_fallback;

#[test]
fn direct_json_parses() {
    let raw = "{\"description\":\"a dog\",\"events\":[],\"risk_level\":\"none\"}";
    let r = parse_or_fallback(raw);
    assert_eq!(r.description, "a dog");
    assert!(r.events.is_empty());
    assert_eq!(r.risk_level, RiskLevel::NoRisk);
    assert_eq!(r.title, None);
    assert_eq!(r.triggered_rule, None);
}

#[test]
fn fenced_json_parses() {
    let raw = "thinking...\n```json\n{\"description\":\"x\",\"events\":[],\"risk_level\":\"low\"}\n```";
    let r = parse_or_fallback(raw);
    assert_eq!(r.risk_level, RiskLevel::Low);
    assert_eq!(r.description, "x");
    assert!(r.events.is_empty());
    assert_eq!(r.title, None);
    assert_eq!(r.triggered_rule, None);
}

#[test]
fn chain_of_thought_takes_last_object() {
    let raw = "{ reasoning: ... } final answer: {\"description\":\"y\",\"events\":[{\"event_type\":\"person_detected\",\"confidence\":0.9}],\"risk_level\":\"medium\"}";
    let r = parse_or_fallback(raw);
    assert_eq!(r.risk_level, RiskLevel::Medium);
    assert_eq!(r.description, "y");
    assert_eq!(r.events.len(), 1);
    assert_eq!(r.events[0].event_type, "person_detected");
    assert_eq!(r.events[0].confidence, "0.9");
    assert_eq!(r.events[0].details, None);
}

#[test]
fn junk_falls_back_to_raw_description() {
    let raw = "the camera shows nothing of note";
    let r = parse_or_fallback(raw);
    assert_eq!(r.description, raw);
    assert!(r.events.is_empty());
    assert_eq!(r.risk_level, RiskLevel::NoRisk);
    assert_eq!(r.title, None);
    assert_eq!(r.triggered_rule, None);
}

#[test]
fn unparseable_braces_fall_back() {
    let raw = "data { not json } end {still: not json}";
    let r = parse_or_fallback(raw);
    assert_eq!(r.description, raw);
    assert_eq!(r.risk_level, RiskLevel::NoRisk);
}

#[test]
fn title_and_rule_carried_through() {
    let raw = "{\"title\":\"Fire near door\",\"description\":\"flames\",\"events\":[{\"event_type\":\"fire_detected\",\"details\":\"south wall\",\"confidence\":1.0}],\"risk_level\":\"high\",\"triggered_rule\":\"Fire anywhere\"}";
    let r = parse_or_fallback(raw);
    assert_eq!(r.title.as_deref(), Some("Fire near door"));
    assert_eq!(r.risk_level, RiskLevel::High);
    assert_eq!(r.triggered_rule.as_deref(), Some("Fire anywhere"));
    assert_eq!(r.events[0].details.as_deref(), Some("south wall"));
}

#[test]
fn null_title_is_absent() {
    let raw = "{\"title\":null,\"description\":\"d\",\"events\":[],\"risk_level\":\"low\",\"triggered_rule\":null}";
    let r = parse_or_fallback(raw);
    assert_eq!(r.title, None);
    assert_eq!(r.triggered_rule, None);
}

#[test]
fn bad_risk_level_falls_back() {
    let raw = "{\"description\":\"d\",\"events\":[],\"risk_level\":\"catastrophic\"}";
    let r = parse_or_fallback(raw);
    assert_eq!(r.description, raw);
    assert_eq!(r.risk_level, RiskLevel::NoRisk);
}

#[test]
fn agrees_with_serde_json_on_the_document() {
    let raw = "{\"description\":\"two people\",\"events\":[{\"event_type\":\"person_detected\",\"confidence\":0.75}],\"risk_level\":\"low\"}";
    let v: serde_json::Value = serde_json::from_str(raw).unwrap();
    let r = parse_or_fallback(raw);
    assert_eq!(v["description"].as_str().unwrap(), r.description);
    assert_eq!(
        v["events"][0]["confidence"].as_f64().unwrap(),
        r.events[0].confidence.parse::<f64>().unwrap()
    );
}

#[test]
fn scan_skips_a_shapeless_object_and_takes_the_result_object() {
    // The rightmost brace opens an object without the result shape; the
    // scan backs up further and finds the real result object.
    let raw = "note {\"x\":1} then {\"description\":\"z\",\"events\":[],\"risk_level\":\"high\"}";
    let r = parse_or_fallback(raw);
    assert_eq!(r.description, "z");
    assert_eq!(r.risk_level, RiskLevel::High);
}

#[test]
fn json_without_result_shape_anywhere_falls_back() {
    // Every brace suffix parses as JSON or fails, but none has the result
    // shape, so the whole raw text is kept as the description.
    let raw = "{\"x\":1}";
    let r = parse_or_fallback(raw);
    assert_eq!(r.description, raw);
    assert_eq!(r.risk_level, RiskLevel::NoRisk);
    assert!(r.events.is_empty());
}
