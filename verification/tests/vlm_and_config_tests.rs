use base64::Engine;
use cipher_shield::build_rules_prompt;
use cipher_shield::config::{AppConfig, ConfigError, VlmBackend};
use cipher_shield::model::VlmRule;
use cipher_shield::vlm::{
    analysis_prompt, chat_reply_text, chat_request_body, encode_image, full_system_prompt,
    generate_reply_text, generate_request_body, jpeg_data_uri, normalized_base_url,
    strip_fences, SYSTEM_PROMPT,
};

fn rule(level: &str, text: &str) -> VlmRule {
    VlmRule { description: text.to_string(), threat_level: level.to_string() }
}

#[test]
fn rules_prompt_without_rules_asks_for_null() {
    assert_eq!(
        build_rules_prompt(&[]),
        "\n\nThere are no custom rules for this camera. Set triggered_rule to null."
    );
}

#[test]
fn rules_prompt_lists_rules_in_upper_case() {
    let p = build_rules_prompt(&[rule("high", "Person climbing the fence"), rule("low", "A cat")]);
    assert!(p.contains("- HIGH: Person climbing the fence\n"));
    assert!(p.contains("- LOW: A cat\n"));
    assert!(p.starts_with("\n\nCustom threat assessment rules for this camera"));
    assert!(p.contains("copy verbatim from the list above"));
}

#[test]
fn full_prompt_appends_addendum() {
    let p = full_system_prompt(&[]);
    assert!(p.starts_with(SYSTEM_PROMPT));
    assert!(p.ends_with("Set triggered_rule to null."));
}

#[test]
fn user_prompt_names_the_stream() {
    assert_eq!(
        analysis_prompt("yard"),
        "Analyze this security camera frame from 'yard'. Respond with the required JSON."
    );
}

#[test]
fn generate_body_is_valid_json_with_the_fields() {
    let body = generate_request_body("moondream", "look", "sys \"quoted\"", "aGk=");
    let v: serde_json::Value = serde_json::from_str(&body).unwrap();
    assert_eq!(v["model"], "moondream");
    assert_eq!(v["prompt"], "look");
    assert_eq!(v["system"], "sys \"quoted\"");
    assert_eq!(v["images"][0], "aGk=");
    assert_eq!(v["stream"], false);
}

#[test]
fn chat_body_is_valid_json_with_ordered_content() {
    let body = chat_request_body("gpt-4o", "sys", "look\nclosely", "data:image/jpeg;base64,aGk=");
    let v: serde_json::Value = serde_json::from_str(&body).unwrap();
    assert_eq!(v["model"], "gpt-4o");
    assert_eq!(v["messages"][0]["role"], "system");
    assert_eq!(v["messages"][0]["content"], "sys");
    assert_eq!(v["messages"][1]["role"], "user");
    assert_eq!(v["messages"][1]["content"][0]["type"], "image_url");
    assert_eq!(
        v["messages"][1]["content"][0]["image_url"]["url"],
        "data:image/jpeg;base64,aGk="
    );
    assert_eq!(v["messages"][1]["content"][1]["type"], "text");
    assert_eq!(v["messages"][1]["content"][1]["text"], "look\nclosely");
    assert_eq!(v["max_tokens"], 512);
    assert_eq!(v["stream"], false);
}

#[test]
fn image_encoding_matches_base64() {
    let bytes = [0xffu8, 0xd8, 0x01, 0x02, 0xff, 0xd9];
    let ours = encode_image(&bytes);
    assert_eq!(ours, base64::engine::general_purpose::STANDARD.encode(bytes));
    assert_eq!(jpeg_data_uri(&ours), format!("data:image/jpeg;base64,{}", ours));
}

#[test]
fn response_text_extraction() {
    assert_eq!(generate_reply_text("{\"response\":\"hello\"}"), Some("hello".to_string()));
    assert_eq!(generate_reply_text("{\"other\":1}"), None);
    assert_eq!(generate_reply_text("not json"), None);
    assert_eq!(
        chat_reply_text("{\"choices\":[{\"message\":{\"content\":\"hi\"}}]}"),
        Some("hi".to_string())
    );
    assert_eq!(chat_reply_text("{\"choices\":[]}"), Some(String::new()));
    assert_eq!(chat_reply_text("{\"choices\":[{\"message\":{}}]}"), None);
    assert_eq!(chat_reply_text("{}"), None);
    assert_eq!(
        chat_reply_text(
            "{\"choices\":[{\"message\":{\"content\":\"first\"}},{\"message\":{\"content\":\"second\"}}]}"
        ),
        Some("first".to_string())
    );
}

#[test]
fn fences_are_stripped() {
    assert_eq!(strip_fences("  ```json\n{\"a\":1}\n```  "), "{\"a\":1}");
    assert_eq!(strip_fences("```{\"a\":1}```"), "{\"a\":1}");
    assert_eq!(strip_fences("plain"), "plain");
}

#[test]
fn base_urls_lose_trailing_slashes() {
    assert_eq!(normalized_base_url("http://localhost:11434/"), "http://localhost:11434");
    assert_eq!(normalized_base_url("http://x//"), "http://x");
    assert_eq!(normalized_base_url("http://x"), "http://x");
}

#[test]
fn config_defaults() {
    let c = AppConfig::from_vars(
        None,
        None,
        Some("postgres://db".to_string()),
        None,
        None,
        None,
        None,
        None,
        None,
        None,
        None,
    )
    .unwrap();
    assert_eq!(c.server.host, "0.0.0.0");
    assert_eq!(c.server.port, 8080);
    assert_eq!(c.database_url, "postgres://db");
    match c.vlm {
        VlmBackend::Ollama(o) => {
            assert_eq!(o.base_url, "http://localhost:11434");
            assert_eq!(o.model, "moondream");
        },
        VlmBackend::OpenAiCompat(_) => panic!("wrong backend"),
    }
    assert_eq!(c.analysis_workers, 4);
    assert_eq!(c.frame_queue_size, 64);
}

#[test]
fn config_openai_backend_requires_url_and_key() {
    let base = |url: Option<&str>, key: Option<&str>| {
        AppConfig::from_vars(
            None,
            None,
            Some("postgres://db".to_string()),
            Some("openai_compat".to_string()),
            None,
            None,
            url.map(|s| s.to_string()),
            key.map(|s| s.to_string()),
            None,
            None,
            None,
        )
    };
    assert_eq!(base(None, Some("k")).unwrap_err(), ConfigError::MissingOpenAiBaseUrl);
    assert_eq!(base(Some("http://u"), None).unwrap_err(), ConfigError::MissingOpenAiApiKey);
    let c = base(Some("http://u"), Some("k")).unwrap();
    match c.vlm {
        VlmBackend::OpenAiCompat(o) => {
            assert_eq!(o.base_url, "http://u");
            assert_eq!(o.api_key, "k");
            assert_eq!(o.model, "Qwen/Qwen2-VL-7B-Instruct");
        },
        VlmBackend::Ollama(_) => panic!("wrong backend"),
    }
}

#[test]
fn config_rejections() {
    let with_port = |p: &str| {
        AppConfig::from_vars(
            None,
            Some(p.to_string()),
            Some("postgres://db".to_string()),
            None,
            None,
            None,
            None,
            None,
            None,
            None,
            None,
        )
    };
    assert_eq!(with_port("no").unwrap_err(), ConfigError::InvalidPort);
    assert_eq!(with_port("70000").unwrap_err(), ConfigError::InvalidPort);
    assert_eq!(with_port("8081").unwrap().server.port, 8081);
    let r = AppConfig::from_vars(
        None, None, None, None, None, None, None, None, None, None, None,
    );
    assert_eq!(r.unwrap_err(), ConfigError::MissingDatabaseUrl);
    let r = AppConfig::from_vars(
        None,
        None,
        Some("postgres://db".to_string()),
        Some("other".to_string()),
        None,
        None,
        None,
        None,
        None,
        None,
        None,
    );
    assert_eq!(r.unwrap_err(), ConfigError::UnknownBackend);
    let r = AppConfig::from_vars(
        None,
        None,
        Some("postgres://db".to_string()),
        None,
        None,
        None,
        None,
        None,
        None,
        Some("-1".to_string()),
        None,
    );
    assert_eq!(r.unwrap_err(), ConfigError::InvalidWorkers);
}
