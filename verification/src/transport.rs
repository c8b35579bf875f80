use vstd::prelude::*;
use vstd::string::*;
use crate::profile::LlmProfile;
use crate::provider::spec_default_url;
use crate::text::replace_all;
use crate::text::spec_replace;

verus! {

/// The URL a profile sends to: the custom endpoint verbatim when one is set,
/// else the provider's default template, with every occurrence of `~model~`
/// replaced by the model name and `~api_key~` by the API key.
pub open spec fn spec_resolve_url(p: LlmProfile) -> Seq<char> {
    let base = if p.api_url@.len() == 0 {
        spec_default_url(p.provider)
    } else {
        p.api_url@
    };
    spec_replace(spec_replace(base, "~model~"@, p.model_name@), "~api_key~"@, p.api_key@)
}

impl LlmProfile {
    /// Resolves the endpoint URL for this profile, as `spec_resolve_url`
    /// says: the custom URL when present, else the provider default, with the
    /// model and API-key placeholders substituted.
    pub fn resolve_url(&self) -> (r: String)
        ensures
            r@ == spec_resolve_url(*self),
    {
        proof {
            reveal_strlit("~model~");
            reveal_strlit("~api_key~");
        }
        let base = if self.api_url.as_str().is_empty() {
            self.provider.get_completion_url()
        } else {
            self.api_url.clone()
        };
        let with_model = replace_all(base.as_str(), "~model~", self.model_name.as_str());
        replace_all(with_model.as_str(), "~api_key~", self.api_key.as_str())
    }
}

} // verus!
