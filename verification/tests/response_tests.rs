use llm_client::LlmError;
use llm_client::LlmProvider;
use llm_client::extract_completion;

#[test]
fn ollama_body_yields_content() {
    let body = "{\"message\":{\"role\":\"assistant\",\"content\":\"hi\"}}";
    let r = extract_completion(LlmProvider::ollama, 200, body);
    assert_eq!(r.unwrap(), "hi");
}

#[test]
fn standard_body_yields_first_choice() {
    let body = "{\"choices\":[{\"message\":{\"role\":\"assistant\",\"content\":\"hi\"}}]}";
    let r = extract_completion(LlmProvider::openai, 200, body);
    assert_eq!(r.unwrap(), "hi");
}

#[test]
fn standard_body_with_two_choices_takes_the_first() {
    let body = "{\"choices\":[{\"message\":{\"role\":\"assistant\",\"content\":\"first\"}},{\"message\":{\"role\":\"assistant\",\"content\":\"second\"}}]}";
    let r = extract_completion(LlmProvider::groq, 200, body);
    assert_eq!(r.unwrap(), "first");
}

#[test]
fn empty_choices_is_no_completion_error() {
    let r = extract_completion(LlmProvider::openai, 200, "{\"choices\":[]}");
    assert!(matches!(r, Err(LlmError::NoCompletion)));
}

#[test]
fn malformed_json_is_deserialize_error() {
    let r = extract_completion(LlmProvider::openai, 200, "not json at all");
    match r {
        Err(LlmError::Deserialize(msg)) => assert!(!msg.is_empty()),
        _ => panic!("expected a deserialization error"),
    }
}

#[test]
fn wrong_shape_is_deserialize_error() {
    let r = extract_completion(LlmProvider::ollama, 200, "{\"message\":{\"role\":\"assistant\"}}");
    assert!(matches!(r, Err(LlmError::Deserialize(_))));
    let r = extract_completion(LlmProvider::openai, 200, "{\"choices\":[{\"message\":{\"content\":7}}]}");
    assert!(matches!(r, Err(LlmError::Deserialize(_))));
}

#[test]
fn provider_selects_the_response_shape() {
    let ollama_body = "{\"message\":{\"role\":\"assistant\",\"content\":\"hi\"}}";
    assert!(matches!(
        extract_completion(LlmProvider::openai, 200, ollama_body),
        Err(LlmError::Deserialize(_))
    ));
    let standard_body = "{\"choices\":[{\"message\":{\"role\":\"assistant\",\"content\":\"hi\"}}]}";
    assert!(matches!(
        extract_completion(LlmProvider::ollama, 200, standard_body),
        Err(LlmError::Deserialize(_))
    ));
}

#[test]
fn non_200_status_is_an_http_error_and_body_is_not_parsed() {
    let good_body = "{\"choices\":[{\"message\":{\"role\":\"assistant\",\"content\":\"hi\"}}]}";
    match extract_completion(LlmProvider::openai, 500, good_body) {
        Err(LlmError::HttpStatus(code)) => assert_eq!(code, 500),
        _ => panic!("expected an HTTP status error"),
    }
    match extract_completion(LlmProvider::ollama, 404, "garbage that would not parse") {
        Err(LlmError::HttpStatus(code)) => assert_eq!(code, 404),
        _ => panic!("expected an HTTP status error"),
    }
}
