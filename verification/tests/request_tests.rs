use llm_client::LlmProfile;
use llm_client::LlmProvider;

fn profile(provider: &str) -> LlmProfile {
    LlmProfile::from_str(provider, "test-model", "sk-123", None, None)
}

#[test]
fn standard_request_without_options() {
    let p = profile("openai");
    let payload = p.build_request("hello");
    assert_eq!(
        payload,
        "{\"model\":\"test-model\",\"messages\":[{\"role\":\"user\",\"content\":\"hello\"}]}"
    );
}

#[test]
fn ollama_request_has_stream_flag() {
    let p = profile("ollama");
    let payload = p.build_request("hello");
    assert_eq!(
        payload,
        "{\"model\":\"test-model\",\"messages\":[{\"role\":\"user\",\"content\":\"hello\"}],\"stream\":false}"
    );
}

#[test]
fn shape_follows_provider_not_ollama() {
    for slug in ["openai", "anthropic", "google", "xai", "mistral", "deepseek", "groq", "together", "bogus"] {
        let payload = profile(slug).build_request("m");
        assert!(!payload.contains("\"stream\""), "unexpected stream flag for {slug}");
    }
    assert!(profile("ollama").build_request("m").contains("\"stream\":false"));
}

#[test]
fn options_present_are_serialized() {
    let p = LlmProfile::from_str("openai", "m", "k", Some(700), Some(256));
    let payload = p.build_request("hi");
    assert_eq!(
        payload,
        "{\"model\":\"m\",\"messages\":[{\"role\":\"user\",\"content\":\"hi\"}],\"temperature\":0.700,\"max_tokens\":256}"
    );
}

#[test]
fn ollama_options_follow_stream_flag() {
    let p = LlmProfile::from_str("ollama", "m", "k", Some(1000), None);
    let payload = p.build_request("hi");
    assert_eq!(
        payload,
        "{\"model\":\"m\",\"messages\":[{\"role\":\"user\",\"content\":\"hi\"}],\"stream\":false,\"temperature\":1.000}"
    );
}

#[test]
fn absent_options_are_omitted_not_null() {
    let payload = profile("openai").build_request("hi");
    assert!(!payload.contains("temperature"));
    assert!(!payload.contains("max_tokens"));
    assert!(!payload.contains("null"));
}

#[test]
fn message_and_model_are_json_escaped() {
    let p = LlmProfile::from_str("openai", "m\"x", "k", None, None);
    let payload = p.build_request("line1\nline\\2 \"quoted\"\tend\u{1}");
    assert_eq!(
        payload,
        "{\"model\":\"m\\\"x\",\"messages\":[{\"role\":\"user\",\"content\":\"line1\\nline\\\\2 \\\"quoted\\\"\\tend\\u0001\"}]}"
    );
    let parsed: serde_json::Value = serde_json::from_str(payload.as_str()).unwrap();
    assert_eq!(
        parsed["messages"][0]["content"].as_str().unwrap(),
        "line1\nline\\2 \"quoted\"\tend\u{1}"
    );
}

#[test]
fn empty_message_passes_through() {
    let payload = profile("openai").build_request("");
    assert_eq!(
        payload,
        "{\"model\":\"test-model\",\"messages\":[{\"role\":\"user\",\"content\":\"\"}]}"
    );
}

#[test]
fn resolve_url_uses_provider_default_when_empty() {
    let p = profile("openai");
    assert_eq!(p.resolve_url(), "https://api.openai.com/v1/chat/completions");
}

#[test]
fn resolve_url_substitutes_placeholders_in_default() {
    let p = LlmProfile::from_str("google", "gemini-pro", "KEY42", None, None);
    assert_eq!(
        p.resolve_url(),
        "https://generativelanguage.googleapis.com/v1beta/models/gemini-pro:generateContent?key=KEY42"
    );
}

#[test]
fn resolve_url_substitutes_placeholders_in_custom_url() {
    let mut p = LlmProfile::from_str("openai", "mod", "sek", None, None);
    p.api_url = "http://example.com/~model~/run?k=~api_key~&m=~model~".to_string();
    assert_eq!(p.resolve_url(), "http://example.com/mod/run?k=sek&m=mod");
}

#[test]
fn profile_from_str_fields() {
    let p = LlmProfile::from_str("Anthropic", "chat-model", "key", Some(500), Some(9));
    assert!(matches!(p.provider, LlmProvider::anthropic));
    assert_eq!(p.model_name, "chat-model");
    assert_eq!(p.api_key, "key");
    assert_eq!(p.temperature_milli, Some(500));
    assert_eq!(p.max_tokens, Some(9));
    assert_eq!(p.api_url, "");
}

#[test]
fn temperature_is_formatted_in_thousandths() {
    let p = LlmProfile::from_str("openai", "m", "k", Some(50), None);
    let payload = p.build_request("x");
    assert!(payload.contains("\"temperature\":0.050"), "{payload}");
    let p = LlmProfile::from_str("openai", "m", "k", Some(1234), None);
    let payload = p.build_request("x");
    assert!(payload.contains("\"temperature\":1.234"), "{payload}");
    let parsed: serde_json::Value = serde_json::from_str(payload.as_str()).unwrap();
    assert!((parsed["temperature"].as_f64().unwrap() - 1.234).abs() < 1e-9);
}
