use llm_client::LlmProvider;

#[test]
fn from_usize_maps_each_index() {
    assert!(matches!(LlmProvider::from_usize(0), LlmProvider::ollama));
    assert!(matches!(LlmProvider::from_usize(1), LlmProvider::openai));
    assert!(matches!(LlmProvider::from_usize(2), LlmProvider::anthropic));
    assert!(matches!(LlmProvider::from_usize(3), LlmProvider::google));
    assert!(matches!(LlmProvider::from_usize(4), LlmProvider::xai));
    assert!(matches!(LlmProvider::from_usize(5), LlmProvider::mistral));
    assert!(matches!(LlmProvider::from_usize(6), LlmProvider::deepseek));
    assert!(matches!(LlmProvider::from_usize(7), LlmProvider::groq));
    assert!(matches!(LlmProvider::from_usize(8), LlmProvider::together));
}

#[test]
fn from_usize_out_of_range_is_other() {
    assert!(matches!(LlmProvider::from_usize(9), LlmProvider::other));
    assert!(matches!(LlmProvider::from_usize(100), LlmProvider::other));
    assert!(matches!(LlmProvider::from_usize(usize::MAX), LlmProvider::other));
}

#[test]
fn display_names() {
    assert_eq!(LlmProvider::ollama.to_string(), "Ollama");
    assert_eq!(LlmProvider::openai.to_string(), "OpenAI");
    assert_eq!(LlmProvider::anthropic.to_string(), "Anthropic");
    assert_eq!(LlmProvider::google.to_string(), "Google Gemini");
    assert_eq!(LlmProvider::xai.to_string(), "X.ai");
    assert_eq!(LlmProvider::mistral.to_string(), "Mistral");
    assert_eq!(LlmProvider::deepseek.to_string(), "Deepseek");
    assert_eq!(LlmProvider::groq.to_string(), "Groq");
    assert_eq!(LlmProvider::together.to_string(), "TogetherAI");
    assert_eq!(LlmProvider::other.to_string(), "Other");
}

#[test]
fn slug_round_trips_for_every_concrete_provider() {
    let providers = [
        LlmProvider::ollama,
        LlmProvider::openai,
        LlmProvider::anthropic,
        LlmProvider::google,
        LlmProvider::xai,
        LlmProvider::mistral,
        LlmProvider::deepseek,
        LlmProvider::groq,
        LlmProvider::together,
    ];
    for p in providers {
        let slug = p.to_slug();
        assert_eq!(LlmProvider::from_str(slug.as_str()), p);
    }
}

#[test]
fn from_str_is_case_insensitive() {
    assert!(matches!(LlmProvider::from_str("OpenAI"), LlmProvider::openai));
    assert!(matches!(LlmProvider::from_str("ANTHROPIC"), LlmProvider::anthropic));
    assert!(matches!(LlmProvider::from_str("Ollama"), LlmProvider::ollama));
}

#[test]
fn from_str_unknown_is_other() {
    assert!(matches!(LlmProvider::from_str("bogus"), LlmProvider::other));
    assert!(matches!(LlmProvider::from_str(""), LlmProvider::other));
    assert!(matches!(LlmProvider::from_str("openai2"), LlmProvider::other));
}

#[test]
fn default_urls() {
    assert_eq!(
        LlmProvider::ollama.get_completion_url(),
        "http://localhost:11434/api/chat"
    );
    assert_eq!(
        LlmProvider::google.get_completion_url(),
        "https://generativelanguage.googleapis.com/v1beta/models/~model~:generateContent?key=~api_key~"
    );
    assert_eq!(
        LlmProvider::other.get_completion_url(),
        "http://localhost:8000/v1/chat/completions"
    );
    assert_eq!(
        LlmProvider::mistral.get_completion_url(),
        "https://api.mixtral.ai/v1/chat/completions"
    );
}

#[test]
fn selectable_options_menu_in_order() {
    let options = LlmProvider::get_indexmap_options();
    assert_eq!(options.len(), 8);
    let entries: Vec<(&String, &String)> = options.iter().collect();
    assert_eq!(entries[0], (&"1".to_string(), &"OpenAI".to_string()));
    assert_eq!(entries[1], (&"2".to_string(), &"Anthropic".to_string()));
    assert_eq!(entries[2], (&"3".to_string(), &"Google Gemini".to_string()));
    assert_eq!(entries[3], (&"4".to_string(), &"X.ai".to_string()));
    assert_eq!(entries[4], (&"5".to_string(), &"Mistral".to_string()));
    assert_eq!(entries[5], (&"6".to_string(), &"Deepseek".to_string()));
    assert_eq!(entries[6], (&"7".to_string(), &"Groq".to_string()));
    assert_eq!(entries[7], (&"8".to_string(), &"TogetherAI".to_string()));
}
