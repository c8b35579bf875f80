use vstd::prelude::*;
use vstd::string::*;
use crate::profile::LlmProfile;
use crate::provider::LlmProvider;
use crate::text::digit_char;
use crate::text::digit_to_char;
use crate::text::push_char;
use crate::text::push_decimal;
use crate::text::spec_dec_digits;

verus! {

// The request builder serializes the chat payload itself, so the exact JSON
// text is part of the contract: one user-role message wrapping the input,
// the Ollama-specific shape (with an explicit non-streaming flag) exactly
// when the provider is Ollama, and the generation options omitted from the
// payload when they are absent rather than emitted as null.

/// The lower-case hexadecimal digit characters.
pub open spec fn hex_char(d: int) -> char {
    if d < 10 {
        digit_char(d)
    } else if d == 10 { 'a' } else if d == 11 { 'b' } else if d == 12 { 'c' }
    else if d == 13 { 'd' } else if d == 14 { 'e' } else if d == 15 { 'f' }
    else { '0' }
}

/// Produces a lower-case hexadecimal digit, as `hex_char` says.
fn hex_to_char(d: u32) -> (c: char)
    requires
        d < 16,
    ensures
        c == hex_char(d as int),
{
    if d < 10 {
        digit_to_char(d as u64)
    } else if d == 10 { 'a' } else if d == 11 { 'b' } else if d == 12 { 'c' }
    else if d == 13 { 'd' } else if d == 14 { 'e' } else { 'f' }
}

/// What one character becomes inside a JSON string literal: quotes and
/// backslashes are escaped, the named control characters use their short
/// escapes, any other control character uses a `\u00..` escape, and
/// everything else stands as itself.
pub open spec fn spec_escape_char(c: char) -> Seq<char> {
    if c == '"' { "\\\""@ }
    else if c == '\\' { "\\\\"@ }
    else if c == '\u{8}' { "\\b"@ }
    else if c == '\t' { "\\t"@ }
    else if c == '\n' { "\\n"@ }
    else if c == '\u{c}' { "\\f"@ }
    else if c == '\r' { "\\r"@ }
    else if (c as u32) < 32 {
        seq!['\\', 'u', '0', '0', hex_char(c as int / 16), hex_char(c as int % 16)]
    } else {
        seq![c]
    }
}

/// A whole string escaped for use inside a JSON string literal.
pub open spec fn spec_escape_string(s: Seq<char>) -> Seq<char>
    decreases s.len(),
{
    if s.len() == 0 {
        Seq::empty()
    } else {
        spec_escape_char(s[0]) + spec_escape_string(s.skip(1))
    }
}

/// Escapes a string for a JSON string literal, as `spec_escape_string` says.
fn escape_json_string(s: &str) -> (r: String)
    ensures
        r@ == spec_escape_string(s@),
{
    let n = s.unicode_len();
    let mut out = String::new();
    let mut i: usize = 0;
    proof {
        assert(s@.skip(0) =~= s@);
        assert(out@ + spec_escape_string(s@) =~= spec_escape_string(s@));
    }
    while i < n
        invariant
            n == s@.len(),
            i <= n,
            out@ + spec_escape_string(s@.skip(i as int)) == spec_escape_string(s@),
        decreases n - i,
    {
        let ghost tail = s@.skip(i as int);
        let ghost out0 = out@;
        proof {
            assert(tail[0] == s@[i as int]);
            assert(tail.skip(1) =~= s@.skip(i + 1));
            assert(spec_escape_string(tail) == spec_escape_char(s@[i as int])
                + spec_escape_string(s@.skip(i + 1)));
        }
        let c = s.get_char(i);
        if c == '"' {
            out.append("\\\"");
        } else if c == '\\' {
            out.append("\\\\");
        } else if c == '\u{8}' {
            out.append("\\b");
        } else if c == '\t' {
            out.append("\\t");
        } else if c == '\n' {
            out.append("\\n");
        } else if c == '\u{c}' {
            out.append("\\f");
        } else if c == '\r' {
            out.append("\\r");
        } else {
            let u = c as u32;
            if u < 32 {
                push_char(&mut out, '\\');
                push_char(&mut out, 'u');
                push_char(&mut out, '0');
                push_char(&mut out, '0');
                push_char(&mut out, hex_to_char(u / 16));
                push_char(&mut out, hex_to_char(u % 16));
                proof {
                    assert(out@ =~= out0 + spec_escape_char(s@[i as int]));
                }
            } else {
                push_char(&mut out, c);
                proof {
                    assert(out@ =~= out0 + spec_escape_char(s@[i as int]));
                }
            }
        }
        i = i + 1;
        proof {
            assert(out@ + spec_escape_string(s@.skip(i as int)) =~= out0 + spec_escape_string(
                s@.skip(i - 1),
            ));
        }
    }
    proof {
        assert(s@.skip(n as int) =~= Seq::<char>::empty());
        assert(out@ + spec_escape_string(s@.skip(n as int)) =~= out@);
    }
    out
}

/// A temperature in thousandths as a decimal numeral: the whole part, a
/// point, and exactly three fractional digits (700 becomes `0.700`).
pub open spec fn spec_milli_string(t: int) -> Seq<char> {
    spec_dec_digits(t / 1000) + seq![
        '.',
        digit_char((t / 100) % 10),
        digit_char((t / 10) % 10),
        digit_char(t % 10),
    ]
}

/// Appends a temperature in thousandths, as `spec_milli_string` says.
fn push_milli(out: &mut String, t: u32)
    ensures
        final(out)@ == old(out)@ + spec_milli_string(t as int),
{
    let ghost start = out@;
    push_decimal(out, (t / 1000) as u64);
    push_char(out, '.');
    push_char(out, digit_to_char(((t / 100) % 10) as u64));
    push_char(out, digit_to_char(((t / 10) % 10) as u64));
    push_char(out, digit_to_char((t % 10) as u64));
    proof {
        assert(out@ =~= start + spec_milli_string(t as int));
    }
}

/// The part of the payload shared by both shapes: the model name and the
/// single user-role message wrapping the input text, both JSON-escaped.
pub open spec fn spec_request_head(p: LlmProfile, message: Seq<char>) -> Seq<char> {
    "{\"model\":\""@ + spec_escape_string(p.model_name@)
        + "\",\"messages\":[{\"role\":\"user\",\"content\":\""@ + spec_escape_string(message)
        + "\"}]"@
}

/// The generation options of the payload: each of temperature and max_tokens
/// appears exactly when it is present, and an absent option contributes
/// nothing at all (it is not emitted as null).
pub open spec fn spec_options_part(p: LlmProfile) -> Seq<char> {
    (match p.temperature_milli {
        Some(t) => ",\"temperature\":"@ + spec_milli_string(t as int),
        None => Seq::empty(),
    }) + (match p.max_tokens {
        Some(m) => ",\"max_tokens\":"@ + spec_dec_digits(m as int),
        None => Seq::empty(),
    })
}

/// The standard chat-completion payload.
pub open spec fn spec_standard_request_json(p: LlmProfile, message: Seq<char>) -> Seq<char> {
    spec_request_head(p, message) + spec_options_part(p) + "}"@
}

/// The Ollama payload: the standard fields plus an explicit non-streaming
/// flag, placed between the messages and the options.
pub open spec fn spec_ollama_request_json(p: LlmProfile, message: Seq<char>) -> Seq<char> {
    spec_request_head(p, message) + ",\"stream\":false"@ + spec_options_part(p) + "}"@
}

/// The payload a profile sends for one message: the Ollama shape exactly
/// when the provider is Ollama, the standard shape otherwise.
pub open spec fn spec_request_json(p: LlmProfile, message: Seq<char>) -> Seq<char> {
    if p.provider == LlmProvider::ollama {
        spec_ollama_request_json(p, message)
    } else {
        spec_standard_request_json(p, message)
    }
}

/// For every profile and message, the built payload takes the Ollama shape
/// exactly when the provider is Ollama and the standard shape otherwise, and
/// the two shapes never coincide: the Ollama payload always carries the
/// explicit non-streaming flag the standard payload lacks.
pub proof fn lemma_request_shape_selection(p: LlmProfile, message: Seq<char>)
    ensures
        p.provider == LlmProvider::ollama ==> spec_request_json(p, message)
            == spec_ollama_request_json(p, message),
        p.provider != LlmProvider::ollama ==> spec_request_json(p, message)
            == spec_standard_request_json(p, message),
        spec_ollama_request_json(p, message) != spec_standard_request_json(p, message),
{
    reveal_strlit(",\"stream\":false");
    assert(spec_ollama_request_json(p, message).len() == spec_standard_request_json(
        p,
        message,
    ).len() + 15);
}

/// When both generation options are absent they contribute nothing to the
/// payload: it is exactly the shared head, the non-streaming flag for
/// Ollama, and the closing brace — no null fields.
pub proof fn lemma_request_omits_absent_options(p: LlmProfile, message: Seq<char>)
    requires
        p.temperature_milli is None,
        p.max_tokens is None,
    ensures
        spec_options_part(p) == Seq::<char>::empty(),
        p.provider == LlmProvider::ollama ==> spec_request_json(p, message) == spec_request_head(
            p,
            message,
        ) + ",\"stream\":false"@ + "}"@,
        p.provider != LlmProvider::ollama ==> spec_request_json(p, message) == spec_request_head(
            p,
            message,
        ) + "}"@,
{
    assert(spec_options_part(p) =~= Seq::<char>::empty());
    assert(spec_request_head(p, message) + ",\"stream\":false"@ + spec_options_part(p) + "}"@
        =~= spec_request_head(p, message) + ",\"stream\":false"@ + "}"@);
    assert(spec_request_head(p, message) + spec_options_part(p) + "}"@ =~= spec_request_head(
        p,
        message,
    ) + "}"@);
}

impl LlmProfile {
    /// Serializes the chat request for one message, as `spec_request_json`
    /// says: exactly one user-role message, the provider-appropriate shape,
    /// and absent options omitted from the payload.
    pub fn build_request(&self, message: &str) -> (r: String)
        ensures
            r@ == spec_request_json(*self, message@),
    {
        let esc_model = escape_json_string(self.model_name.as_str());
        let esc_message = escape_json_string(message);
        let mut options = String::new();
        match self.temperature_milli {
            Some(t) => {
                let ghost o0 = options@;
                options.append(",\"temperature\":");
                push_milli(&mut options, t);
                proof {
                    assert(options@ =~= o0 + (",\"temperature\":"@ + spec_milli_string(t as int)));
                }
            },
            None => {},
        }
        match self.max_tokens {
            Some(m) => {
                let ghost o1 = options@;
                options.append(",\"max_tokens\":");
                push_decimal(&mut options, m as u64);
                proof {
                    assert(options@ =~= o1 + (",\"max_tokens\":"@ + spec_dec_digits(m as int)));
                }
            },
            None => {},
        }
        proof {
            assert(options@ =~= spec_options_part(*self));
        }
        let mut out = String::from_str("{\"model\":\"");
        out.append(esc_model.as_str());
        out.append("\",\"messages\":[{\"role\":\"user\",\"content\":\"");
        out.append(esc_message.as_str());
        out.append("\"}]");
        proof {
            assert(out@ =~= spec_request_head(*self, message@));
        }
        if matches!(self.provider, LlmProvider::ollama) {
            out.append(",\"stream\":false");
        }
        out.append(options.as_str());
        out.append("}");
        proof {
            assert(out@ =~= spec_request_json(*self, message@));
        }
        out
    }
}

} // verus!
