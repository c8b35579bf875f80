use vstd::prelude::*;
use crate::extract::deserialize_fragment;
use crate::extract::flexible_candidates;
use crate::extract::extract_json_span;
use crate::extract::spec_flexible_candidates;
use crate::extract::spec_json_span;
use crate::provider::LlmProvider;
use crate::provider::spec_from_slug;

verus! {

/// A profile for talking to one LLM provider: the provider, the credentials,
/// the model, and the generation options. The temperature is held in
/// thousandths (700 stands for 0.700), so the profile carries plain integers
/// only. An empty `api_url` means the provider's default endpoint.
#[derive(Clone, Debug)]
pub struct LlmProfile {
    pub provider: LlmProvider,
    pub api_key: String,
    pub model_name: String,
    pub temperature_milli: Option<u32>,
    pub max_tokens: Option<usize>,
    pub api_url: String,
}

impl Default for LlmProfile {
    /// An empty profile aimed at the default provider.
    fn default() -> (r: Self)
        ensures
            r.provider == LlmProvider::ollama,
            r.api_key@ == Seq::<char>::empty(),
            r.model_name@ == Seq::<char>::empty(),
            r.temperature_milli is None,
            r.max_tokens is None,
            r.api_url@ == Seq::<char>::empty(),
    {
        LlmProfile {
            provider: LlmProvider::ollama,
            api_key: String::new(),
            model_name: String::new(),
            temperature_milli: None,
            max_tokens: None,
            api_url: String::new(),
        }
    }
}

impl LlmProfile {
    /// Builds a profile from plain string parameters. The provider comes from
    /// a case-insensitive slug lookup, and the endpoint is left empty, which
    /// selects the provider's default.
    pub fn from_str(
        provider_slug: &str,
        model_name: &str,
        api_key: &str,
        temperature_milli: Option<u32>,
        max_tokens: Option<usize>,
    ) -> (r: Self)
        ensures
            r.provider == spec_from_slug(provider_slug@),
            r.model_name@ == model_name@,
            r.api_key@ == api_key@,
            r.temperature_milli == temperature_milli,
            r.max_tokens == max_tokens,
            r.api_url@ == Seq::<char>::empty(),
    {
        LlmProfile {
            provider: LlmProvider::from_str(provider_slug),
            api_key: api_key.to_owned(),
            model_name: model_name.to_owned(),
            temperature_milli,
            max_tokens,
            api_url: String::new(),
        }
    }

    /// Best-effort extraction of the first balanced JSON object (or array,
    /// when `is_object` is false) embedded in arbitrary text, handed to the
    /// deserializer of the caller's target type. Nothing is an expected
    /// outcome, never an error: when no candidate exists, or the candidate
    /// does not parse as a `T`, the result is absent.
    pub fn extract_json<T: serde::de::DeserializeOwned>(&self, input: &str, is_object: bool) -> (r:
        Option<T>)
        ensures
            spec_json_span(input@, is_object) is None ==> r is None,
    {
        match extract_json_span(input, is_object) {
            Some(candidate) => deserialize_fragment(candidate.as_str()),
            None => None,
        }
    }

    /// Best-effort extraction of any JSON value embedded in arbitrary text:
    /// an object, else an array, else a quoted string, else a bare scalar
    /// word, each candidate handed to the deserializer in that order, and the
    /// first that parses as a `T` wins.
    pub fn extract_json_flexible<T: serde::de::DeserializeOwned>(&self, input: &str) -> (r: Option<
        T,
    >)
        ensures
            spec_flexible_candidates(input@).len() == 0 ==> r is None,
    {
        let candidates = flexible_candidates(input);
        let mut i: usize = 0;
        while i < candidates.len()
            invariant
                candidates.deep_view() == spec_flexible_candidates(input@),
                i <= candidates.len(),
            decreases candidates.len() - i,
        {
            match deserialize_fragment::<T>(candidates[i].as_str()) {
                Some(v) => {
                    return Some(v);
                },
                None => {},
            }
            i = i + 1;
        }
        None
    }
}

} // verus!
