use llm_client::LlmProfile;

fn profile() -> LlmProfile {
    LlmProfile::from_str("openai", "m", "k", None, None)
}

#[test]
fn object_extraction_from_noise() {
    let p = profile();
    let v: serde_json::Value = p
        .extract_json("noise {\"a\":1,\"b\":[1,2]} trailing", true)
        .unwrap();
    let expected: serde_json::Value = serde_json::from_str("{\"a\":1,\"b\":[1,2]}").unwrap();
    assert_eq!(v, expected);
}

#[test]
fn array_extraction_from_noise() {
    let p = profile();
    let v: serde_json::Value = p.extract_json("prefix [1,2,{\"x\":3}] suffix", false).unwrap();
    let expected: serde_json::Value = serde_json::from_str("[1,2,{\"x\":3}]").unwrap();
    assert_eq!(v, expected);
}

#[test]
fn unbalanced_braces_yield_nothing() {
    let p = profile();
    let v: Option<serde_json::Value> = p.extract_json("{\"a\":1", true);
    assert!(v.is_none());
}

#[test]
fn no_opening_delimiter_yields_nothing() {
    let p = profile();
    let v: Option<serde_json::Value> = p.extract_json("plain words only", true);
    assert!(v.is_none());
    let v: Option<serde_json::Value> = p.extract_json("plain words only", false);
    assert!(v.is_none());
}

#[test]
fn nested_objects_are_matched_by_depth() {
    let p = profile();
    let v: serde_json::Value = p
        .extract_json("x {\"a\":{\"b\":{\"c\":1}},\"d\":2} y {\"e\":3}", true)
        .unwrap();
    let expected: serde_json::Value =
        serde_json::from_str("{\"a\":{\"b\":{\"c\":1}},\"d\":2}").unwrap();
    assert_eq!(v, expected);
}

#[test]
fn brace_inside_quoted_value_confuses_the_depth_counter() {
    // The scan counts delimiters without string awareness: the `}` inside the
    // quoted value closes the scan early, so the candidate is not valid JSON
    // and extraction yields nothing.
    let p = profile();
    let v: Option<serde_json::Value> = p.extract_json("{\"a\":\"}\"}", true);
    assert!(v.is_none());
}

#[test]
fn typed_extraction_into_a_struct_like_map() {
    let p = profile();
    let v: std::collections::HashMap<String, i64> =
        p.extract_json("take {\"a\":1,\"b\":2} please", true).unwrap();
    assert_eq!(v.get("a"), Some(&1));
    assert_eq!(v.get("b"), Some(&2));
}

#[test]
fn flexible_prefers_object_over_array() {
    let p = profile();
    let v: serde_json::Value = p.extract_json_flexible("[1,2] and {\"a\":1}").unwrap();
    let expected: serde_json::Value = serde_json::from_str("{\"a\":1}").unwrap();
    assert_eq!(v, expected);
}

#[test]
fn flexible_falls_back_to_array() {
    let p = profile();
    let v: serde_json::Value = p.extract_json_flexible("values [1,2,3] here").unwrap();
    let expected: serde_json::Value = serde_json::from_str("[1,2,3]").unwrap();
    assert_eq!(v, expected);
}

#[test]
fn flexible_bare_scalar_number() {
    let p = profile();
    let v: serde_json::Value = p.extract_json_flexible("the answer is 42.").unwrap();
    let expected: serde_json::Value = serde_json::from_str("42").unwrap();
    assert_eq!(v, expected);
}

#[test]
fn flexible_quoted_string() {
    let p = profile();
    let v: serde_json::Value = p.extract_json_flexible("result: \"done\"").unwrap();
    let expected: serde_json::Value = serde_json::from_str("\"done\"").unwrap();
    assert_eq!(v, expected);
}

#[test]
fn flexible_booleans_and_null() {
    let p = profile();
    let v: bool = p.extract_json_flexible("it is true indeed").unwrap();
    assert!(v);
    let v: serde_json::Value = p.extract_json_flexible("nothing but null here").unwrap();
    assert!(v.is_null());
}

#[test]
fn flexible_decimal_and_exponent_numbers() {
    let p = profile();
    let v: f64 = p.extract_json_flexible("pi is 3.14 roughly").unwrap();
    assert!((v - 3.14).abs() < 1e-12);
    let v: f64 = p.extract_json_flexible("avogadro 6.02e23 of them").unwrap();
    assert!((v - 6.02e23).abs() < 1e12);
}

#[test]
fn flexible_number_glued_to_word_is_not_a_whole_word() {
    let p = profile();
    let v: Option<serde_json::Value> = p.extract_json_flexible("abc42def and x9");
    assert!(v.is_none());
}

#[test]
fn flexible_string_with_escaped_quote() {
    let p = profile();
    let v: String = p.extract_json_flexible("say \"a\\\"b\" now").unwrap();
    assert_eq!(v, "a\"b");
}

#[test]
fn flexible_nothing_found() {
    let p = profile();
    let v: Option<serde_json::Value> = p.extract_json_flexible("just words");
    assert!(v.is_none());
}

#[test]
fn flexible_typed_target_skips_candidates_that_do_not_fit() {
    // The object candidate does not parse as a plain number, nor does the
    // quoted "a", so a numeric target falls through to the first bare
    // scalar, which is the 1 inside the object.
    let p = profile();
    let v: i64 = p.extract_json_flexible("{\"a\":1} and then 7 more").unwrap();
    assert_eq!(v, 1);
}

#[test]
fn minus_sign_counts_only_after_a_word_character() {
    // The boundary before a match is judged at the sign itself, so a minus
    // after a space is left out of the match, while one glued to a word
    // character is kept.
    let p = profile();
    let v: i64 = p.extract_json_flexible("the answer is -42.").unwrap();
    assert_eq!(v, 42);
    let v: i64 = p.extract_json_flexible("offset x-42 here").unwrap();
    assert_eq!(v, -42);
}

#[test]
fn number_glued_to_exponent_letter_fails_the_boundary() {
    // "1e" has no exponent digits, and the bare "1" is then followed by a
    // word character, so no scalar is found at that position.
    let p = profile();
    let v: Option<i64> = p.extract_json_flexible("tag 1e only");
    assert!(v.is_none());
}

#[test]
fn broken_exponent_falls_back_to_shorter_number() {
    // After "1.5" the boundary check lands on the word character `e`, so the
    // fraction is given back too and only the leading "1" is matched.
    let p = profile();
    let v: f64 = p.extract_json_flexible("value 1.5e+ rest").unwrap();
    assert!((v - 1.0).abs() < 1e-12);
}

#[test]
fn unterminated_string_yields_no_string_candidate() {
    let p = profile();
    let v: Option<String> = p.extract_json_flexible("say \"oops");
    assert!(v.is_none());
}

#[test]
fn string_with_trailing_backslash_never_closes() {
    let p = profile();
    let v: Option<String> = p.extract_json_flexible("quote \"ab\\");
    assert!(v.is_none());
}

#[test]
fn candidate_scans_are_independent_of_one_another() {
    // Each kind is scanned from the start of the text on its own: the array,
    // string and scalar candidates here all sit inside the object candidate.
    let cands = llm_client::flexible_candidates("x {\"a\":[1]} [2] \"s\" 3");
    assert_eq!(cands, vec!["{\"a\":[1]}", "[1]", "\"a\"", "1"]);
}

#[test]
fn span_extraction_does_not_judge_json_validity() {
    // The span scan is purely delimiter-driven; validity is judged only by
    // the deserializer afterwards.
    let span = llm_client::extract_json_span("a {not json} b", true);
    assert_eq!(span.unwrap(), "{not json}");
    let span = llm_client::extract_json_span("a {not json} b", false);
    assert!(span.is_none());
}
