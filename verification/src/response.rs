use vstd::prelude::*;
use crate::provider::LlmProvider;

verus! {

/// What can go wrong between handing a payload to the transport and holding
/// a completion: the transport itself failed (carrying the underlying
/// message), the server answered with a status other than 200 (carrying the
/// code), the body did not match the provider's response shape (carrying the
/// parser's message), or the body was well-formed but offered no choices.
#[derive(Debug)]
pub enum LlmError {
    Transport(String),
    HttpStatus(u16),
    Deserialize(String),
    NoCompletion,
}

/// The completion inside an Ollama-shaped response body, when the body is
/// JSON of the shape `{"message": {"role": .., "content": ..}}` with string
/// role and content; absent when the body does not match that shape.
pub uninterp spec fn ollama_completion_of(body: Seq<char>) -> Option<Seq<char>>;

/// The list of completions inside a standard response body, when the body is
/// JSON of the shape `{"choices": [{"message": {"role": .., "content": ..}},
/// ..]}` with string roles and contents; absent when the body does not match
/// that shape. The list is empty when `choices` is the empty list.
pub uninterp spec fn chat_completions_of(body: Seq<char>) -> Option<Seq<Seq<char>>>;

/// Relies on `serde_json::from_str` and the `serde_json::Value` accessors:
/// whether the body text parses as the Ollama response shape, and the
/// content string inside it, depend on the body text alone. A syntax error
/// carries the parser's message; a shape mismatch carries a fixed one.
#[verifier::external_body]
fn parse_ollama_completion(body: &str) -> (r: Result<String, String>)
    ensures
        r is Ok <==> ollama_completion_of(body@) is Some,
        r is Ok ==> r->Ok_0@ == ollama_completion_of(body@)->0,
{
    let v: serde_json::Value = match serde_json::from_str(body) {
        Ok(v) => v,
        Err(e) => return Err(e.to_string()),
    };
    let role = v.pointer("/message/role").and_then(serde_json::Value::as_str);
    let content = v.pointer("/message/content").and_then(serde_json::Value::as_str);
    match (role, content) {
        (Some(_), Some(content)) => Ok(content.to_owned()),
        _ => Err("response does not match the expected message shape".to_owned()),
    }
}

/// Relies on `serde_json::from_str` and the `serde_json::Value` accessors:
/// whether the body text parses as the standard choices shape, and the
/// content strings inside it, depend on the body text alone. A syntax error
/// carries the parser's message; a shape mismatch carries a fixed one.
#[verifier::external_body]
fn parse_chat_completions(body: &str) -> (r: Result<Vec<String>, String>)
    ensures
        r is Ok <==> chat_completions_of(body@) is Some,
        r is Ok ==> r->Ok_0.deep_view() == chat_completions_of(body@)->0,
{
    let v: serde_json::Value = serde_json::from_str(body).map_err(|e| e.to_string())?;
    let choices = v.get("choices").and_then(serde_json::Value::as_array).ok_or_else(
        || "response does not match the expected choices shape".to_owned(),
    )?;
    let mut out = Vec::with_capacity(choices.len());
    for choice in choices {
        let role = choice.pointer("/message/role").and_then(serde_json::Value::as_str);
        match choice.pointer("/message/content").and_then(serde_json::Value::as_str) {
            Some(content) if role.is_some() => out.push(content.to_owned()),
            _ => return Err("response does not match the expected message shape".to_owned()),
        }
    }
    Ok(out)
}

/// Extracts the single completion from a raw HTTP answer. Any status other
/// than exactly 200 is an error carrying the code, and the body is then not
/// looked at. On 200, an Ollama profile reads the single-message shape, any
/// other provider reads the choices shape and takes the first choice; a body
/// of the wrong shape is a deserialization error, and an empty choices list
/// is the distinct no-completion error.
pub fn extract_completion(provider: LlmProvider, status: u16, body: &str) -> (r: Result<
    String,
    LlmError,
>)
    ensures
        status != 200 ==> r == Err::<String, LlmError>(LlmError::HttpStatus(status)),
        status == 200 && provider == LlmProvider::ollama ==> (match ollama_completion_of(body@) {
            Some(content) => r is Ok && r->Ok_0@ == content,
            None => r is Err && r->Err_0 is Deserialize,
        }),
        status == 200 && provider != LlmProvider::ollama ==> (match chat_completions_of(body@) {
            Some(contents) => {
                if contents.len() == 0 {
                    r is Err && r->Err_0 is NoCompletion
                } else {
                    r is Ok && r->Ok_0@ == contents[0]
                }
            },
            None => r is Err && r->Err_0 is Deserialize,
        }),
{
    if status != 200 {
        return Err(LlmError::HttpStatus(status));
    }
    if provider == LlmProvider::ollama {
        match parse_ollama_completion(body) {
            Ok(content) => Ok(content),
            Err(message) => Err(LlmError::Deserialize(message)),
        }
    } else {
        match parse_chat_completions(body) {
            Ok(contents) => {
                if contents.len() == 0 {
                    Err(LlmError::NoCompletion)
                } else {
                    let first = contents[0].clone();
                    proof {
                        assert(first@ == chat_completions_of(body@)->0[0]);
                    }
                    Ok(first)
                }
            },
            Err(message) => Err(LlmError::Deserialize(message)),
        }
    }
}

} // verus!
