use vstd::prelude::*;
use vstd::string::*;

verus! {

/// The supported LLM backends. `other` stands for any custom or
/// unrecognized provider and falls back to a generic local endpoint.
#[allow(non_camel_case_types)]
#[derive(Clone, Copy, Debug, PartialEq, Eq, Hash, Structural)]
pub enum LlmProvider {
    ollama,
    openai,
    anthropic,
    google,
    xai,
    mistral,
    deepseek,
    groq,
    together,
    other,
}

impl Default for LlmProvider {
    /// The default provider is the local Ollama server.
    fn default() -> (r: Self)
        ensures
            r == LlmProvider::ollama,
    {
        LlmProvider::ollama
    }
}

/// The provider selected by a numeric index: 0 through 8 name the
/// concrete providers in a fixed order; every other index is `other`.
pub open spec fn spec_from_index(value: int) -> LlmProvider {
    if value == 0 { LlmProvider::ollama }
    else if value == 1 { LlmProvider::openai }
    else if value == 2 { LlmProvider::anthropic }
    else if value == 3 { LlmProvider::google }
    else if value == 4 { LlmProvider::xai }
    else if value == 5 { LlmProvider::mistral }
    else if value == 6 { LlmProvider::deepseek }
    else if value == 7 { LlmProvider::groq }
    else if value == 8 { LlmProvider::together }
    else { LlmProvider::other }
}

/// The index under which `spec_from_index` reaches each provider;
/// `other` sits at 9, outside the selectable range.
pub open spec fn spec_provider_index(p: LlmProvider) -> int {
    match p {
        LlmProvider::ollama => 0,
        LlmProvider::openai => 1,
        LlmProvider::anthropic => 2,
        LlmProvider::google => 3,
        LlmProvider::xai => 4,
        LlmProvider::mistral => 5,
        LlmProvider::deepseek => 6,
        LlmProvider::groq => 7,
        LlmProvider::together => 8,
        LlmProvider::other => 9,
    }
}

/// The human-readable name of each provider.
pub open spec fn spec_display_name(p: LlmProvider) -> Seq<char> {
    match p {
        LlmProvider::ollama => "Ollama"@,
        LlmProvider::openai => "OpenAI"@,
        LlmProvider::anthropic => "Anthropic"@,
        LlmProvider::google => "Google Gemini"@,
        LlmProvider::xai => "X.ai"@,
        LlmProvider::mistral => "Mistral"@,
        LlmProvider::deepseek => "Deepseek"@,
        LlmProvider::groq => "Groq"@,
        LlmProvider::together => "TogetherAI"@,
        LlmProvider::other => "Other"@,
    }
}

/// The machine-readable slug of each provider.
pub open spec fn spec_slug(p: LlmProvider) -> Seq<char> {
    match p {
        LlmProvider::ollama => "ollama"@,
        LlmProvider::openai => "openai"@,
        LlmProvider::anthropic => "anthropic"@,
        LlmProvider::google => "google"@,
        LlmProvider::xai => "xai"@,
        LlmProvider::mistral => "mistral"@,
        LlmProvider::deepseek => "deepseek"@,
        LlmProvider::groq => "groq"@,
        LlmProvider::together => "together"@,
        LlmProvider::other => "other"@,
    }
}

/// The default chat-completion endpoint template of each provider.
/// A template may contain the placeholders `~model~` and `~api_key~`,
/// which the transport resolution substitutes before sending.
pub open spec fn spec_default_url(p: LlmProvider) -> Seq<char> {
    match p {
        LlmProvider::ollama => "http://localhost:11434/api/chat"@,
        LlmProvider::openai => "https://api.openai.com/v1/chat/completions"@,
        LlmProvider::anthropic => "https://api.anthropic.com/v1/messages"@,
        LlmProvider::google => "https://generativelanguage.googleapis.com/v1beta/models/~model~:generateContent?key=~api_key~"@,
        LlmProvider::xai => "https://api.x.ai/v1/chat/completions"@,
        LlmProvider::mistral => "https://api.mixtral.ai/v1/chat/completions"@,
        LlmProvider::deepseek => "https://api.deepseek.com/v1/chat/completions"@,
        LlmProvider::groq => "https://api.groq.com/openai/v1/chat/completions"@,
        LlmProvider::together => "https://api.together.xyz/v1/chat/completions"@,
        LlmProvider::other => "http://localhost:8000/v1/chat/completions"@,
    }
}

/// ASCII letters fold to lower case; every other character is unchanged.
pub open spec fn ascii_lower_char(c: char) -> char {
    match c {
        'A' => 'a', 'B' => 'b', 'C' => 'c', 'D' => 'd', 'E' => 'e',
        'F' => 'f', 'G' => 'g', 'H' => 'h', 'I' => 'i', 'J' => 'j',
        'K' => 'k', 'L' => 'l', 'M' => 'm', 'N' => 'n', 'O' => 'o',
        'P' => 'p', 'Q' => 'q', 'R' => 'r', 'S' => 's', 'T' => 't',
        'U' => 'u', 'V' => 'v', 'W' => 'w', 'X' => 'x', 'Y' => 'y',
        'Z' => 'z',
        _ => c,
    }
}

/// A string folded to lower case, character by character.
pub open spec fn ascii_lower(s: Seq<char>) -> Seq<char> {
    s.map_values(|c: char| ascii_lower_char(c))
}

/// Case-insensitive slug lookup: the slug is folded to lower case and
/// compared against each provider's slug; anything unrecognized is `other`.
pub open spec fn spec_from_slug(s: Seq<char>) -> LlmProvider {
    let l = ascii_lower(s);
    if l == spec_slug(LlmProvider::ollama) { LlmProvider::ollama }
    else if l == spec_slug(LlmProvider::openai) { LlmProvider::openai }
    else if l == spec_slug(LlmProvider::anthropic) { LlmProvider::anthropic }
    else if l == spec_slug(LlmProvider::google) { LlmProvider::google }
    else if l == spec_slug(LlmProvider::xai) { LlmProvider::xai }
    else if l == spec_slug(LlmProvider::mistral) { LlmProvider::mistral }
    else if l == spec_slug(LlmProvider::deepseek) { LlmProvider::deepseek }
    else if l == spec_slug(LlmProvider::groq) { LlmProvider::groq }
    else if l == spec_slug(LlmProvider::together) { LlmProvider::together }
    else { LlmProvider::other }
}

/// Folds one character to lower case, as `ascii_lower_char` says.
fn lower_char(c: char) -> (r: char)
    ensures
        r == ascii_lower_char(c),
{
    match c {
        'A' => 'a', 'B' => 'b', 'C' => 'c', 'D' => 'd', 'E' => 'e',
        'F' => 'f', 'G' => 'g', 'H' => 'h', 'I' => 'i', 'J' => 'j',
        'K' => 'k', 'L' => 'l', 'M' => 'm', 'N' => 'n', 'O' => 'o',
        'P' => 'p', 'Q' => 'q', 'R' => 'r', 'S' => 's', 'T' => 't',
        'U' => 'u', 'V' => 'v', 'W' => 'w', 'X' => 'x', 'Y' => 'y',
        'Z' => 'z',
        _ => c,
    }
}

/// Whether two strings are equal once both are folded to lower case.
fn eq_ignore_ascii_case(s: &str, t: &str) -> (b: bool)
    ensures
        b == (ascii_lower(s@) == ascii_lower(t@)),
{
    let n = s.unicode_len();
    if n != t.unicode_len() {
        proof {
            assert(ascii_lower(s@).len() == s@.len());
            assert(ascii_lower(t@).len() == t@.len());
        }
        return false;
    }
    let mut i: usize = 0;
    while i < n
        invariant
            n == s@.len(),
            n == t@.len(),
            i <= n,
            forall|j: int| 0 <= j < i ==> ascii_lower(s@)[j] == ascii_lower(t@)[j],
        decreases n - i,
    {
        let cs = lower_char(s.get_char(i));
        let ct = lower_char(t.get_char(i));
        if cs != ct {
            proof {
                assert(ascii_lower(s@)[i as int] != ascii_lower(t@)[i as int]);
            }
            return false;
        }
        i = i + 1;
    }
    proof {
        assert(ascii_lower(s@) =~= ascii_lower(t@));
    }
    true
}

impl LlmProvider {
    /// Maps a numeric index to a provider; indices outside 0..=8 give `other`.
    pub fn from_usize(value: usize) -> (r: Self)
        ensures
            r == spec_from_index(value as int),
    {
        match value {
            0 => Self::ollama,
            1 => Self::openai,
            2 => Self::anthropic,
            3 => Self::google,
            4 => Self::xai,
            5 => Self::mistral,
            6 => Self::deepseek,
            7 => Self::groq,
            8 => Self::together,
            _ => Self::other,
        }
    }

    /// The provider named by a slug, compared without regard to ASCII case;
    /// an unrecognized slug gives `other` rather than an error.
    pub fn from_str(slug: &str) -> (r: Self)
        ensures
            r == spec_from_slug(slug@),
    {
        proof {
            lemma_slugs_are_lower();
        }
        if eq_ignore_ascii_case(slug, "ollama") {
            Self::ollama
        } else if eq_ignore_ascii_case(slug, "openai") {
            Self::openai
        } else if eq_ignore_ascii_case(slug, "anthropic") {
            Self::anthropic
        } else if eq_ignore_ascii_case(slug, "google") {
            Self::google
        } else if eq_ignore_ascii_case(slug, "xai") {
            Self::xai
        } else if eq_ignore_ascii_case(slug, "mistral") {
            Self::mistral
        } else if eq_ignore_ascii_case(slug, "deepseek") {
            Self::deepseek
        } else if eq_ignore_ascii_case(slug, "groq") {
            Self::groq
        } else if eq_ignore_ascii_case(slug, "together") {
            Self::together
        } else {
            Self::other
        }
    }

    /// The provider's human-readable display name.
    pub fn to_string(&self) -> (r: String)
        ensures
            r@ == spec_display_name(*self),
    {
        match self {
            Self::ollama => String::from_str("Ollama"),
            Self::openai => String::from_str("OpenAI"),
            Self::anthropic => String::from_str("Anthropic"),
            Self::google => String::from_str("Google Gemini"),
            Self::xai => String::from_str("X.ai"),
            Self::mistral => String::from_str("Mistral"),
            Self::deepseek => String::from_str("Deepseek"),
            Self::groq => String::from_str("Groq"),
            Self::together => String::from_str("TogetherAI"),
            Self::other => String::from_str("Other"),
        }
    }

    /// The provider's machine-readable slug.
    pub fn to_slug(&self) -> (r: String)
        ensures
            r@ == spec_slug(*self),
    {
        match self {
            Self::ollama => String::from_str("ollama"),
            Self::openai => String::from_str("openai"),
            Self::anthropic => String::from_str("anthropic"),
            Self::google => String::from_str("google"),
            Self::xai => String::from_str("xai"),
            Self::mistral => String::from_str("mistral"),
            Self::deepseek => String::from_str("deepseek"),
            Self::groq => String::from_str("groq"),
            Self::together => String::from_str("together"),
            Self::other => String::from_str("other"),
        }
    }

    /// The provider's default chat-completion endpoint template.
    pub fn get_completion_url(&self) -> (r: String)
        ensures
            r@ == spec_default_url(*self),
    {
        match self {
            Self::ollama => String::from_str("http://localhost:11434/api/chat"),
            Self::openai => String::from_str("https://api.openai.com/v1/chat/completions"),
            Self::anthropic => String::from_str("https://api.anthropic.com/v1/messages"),
            Self::google => String::from_str("https://generativelanguage.googleapis.com/v1beta/models/~model~:generateContent?key=~api_key~"),
            Self::xai => String::from_str("https://api.x.ai/v1/chat/completions"),
            Self::mistral => String::from_str("https://api.mixtral.ai/v1/chat/completions"),
            Self::deepseek => String::from_str("https://api.deepseek.com/v1/chat/completions"),
            Self::groq => String::from_str("https://api.groq.com/openai/v1/chat/completions"),
            Self::together => String::from_str("https://api.together.xyz/v1/chat/completions"),
            Self::other => String::from_str("http://localhost:8000/v1/chat/completions"),
        }
    }
}

/// Every provider's slug is already in lower case, so folding it is a no-op.
proof fn lemma_slugs_are_lower()
    ensures
        forall|p: LlmProvider| #[trigger] ascii_lower(spec_slug(p)) == spec_slug(p),
{
    assert forall|p: LlmProvider| #[trigger] ascii_lower(spec_slug(p)) == spec_slug(p) by {
        reveal_strlit("ollama");
        reveal_strlit("openai");
        reveal_strlit("anthropic");
        reveal_strlit("google");
        reveal_strlit("xai");
        reveal_strlit("mistral");
        reveal_strlit("deepseek");
        reveal_strlit("groq");
        reveal_strlit("together");
        reveal_strlit("other");
        match p {
            LlmProvider::ollama => { assert(ascii_lower("ollama"@) =~= "ollama"@); },
            LlmProvider::openai => { assert(ascii_lower("openai"@) =~= "openai"@); },
            LlmProvider::anthropic => { assert(ascii_lower("anthropic"@) =~= "anthropic"@); },
            LlmProvider::google => { assert(ascii_lower("google"@) =~= "google"@); },
            LlmProvider::xai => { assert(ascii_lower("xai"@) =~= "xai"@); },
            LlmProvider::mistral => { assert(ascii_lower("mistral"@) =~= "mistral"@); },
            LlmProvider::deepseek => { assert(ascii_lower("deepseek"@) =~= "deepseek"@); },
            LlmProvider::groq => { assert(ascii_lower("groq"@) =~= "groq"@); },
            LlmProvider::together => { assert(ascii_lower("together"@) =~= "together"@); },
            LlmProvider::other => { assert(ascii_lower("other"@) =~= "other"@); },
        }
    }
}

/// Index lookup is a bijection between 0..=8 and the nine concrete
/// providers: `spec_from_index` inverts `spec_provider_index`.
pub proof fn lemma_from_index_round_trip(p: LlmProvider)
    requires
        p != LlmProvider::other,
    ensures
        0 <= spec_provider_index(p) <= 8,
        spec_from_index(spec_provider_index(p)) == p,
{
}

/// Every index at or above 9, and every negative index, maps to `other`.
pub proof fn lemma_from_index_out_of_range(value: int)
    requires
        value < 0 || value >= 9,
    ensures
        spec_from_index(value) == LlmProvider::other,
{
}

/// Slug lookup round-trips: every concrete provider is recovered from
/// its own slug.
pub proof fn lemma_from_slug_round_trip(p: LlmProvider)
    requires
        p != LlmProvider::other,
    ensures
        spec_from_slug(spec_slug(p)) == p,
{
    lemma_slugs_are_lower();
    reveal_strlit("ollama");
    reveal_strlit("openai");
    reveal_strlit("anthropic");
    reveal_strlit("google");
    reveal_strlit("xai");
    reveal_strlit("mistral");
    reveal_strlit("deepseek");
    reveal_strlit("groq");
    reveal_strlit("together");
    assert("ollama"@[1] != "openai"@[1]);
    assert("ollama"@[0] != "google"@[0]);
    assert("openai"@[0] != "google"@[0]);
    assert("deepseek"@[0] != "together"@[0]);
}

} // verus!
