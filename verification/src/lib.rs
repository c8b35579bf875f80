//! A verified client library for several LLM chat-completion HTTP APIs.
//!
//! The library covers everything that can be decided without touching the
//! network: the provider registry, request-payload construction, endpoint
//! resolution, response extraction, and a best-effort extractor that pulls a
//! JSON value out of arbitrary surrounding text. The HTTP round trip itself
//! is left to the caller, who hands the raw status code and body back in.

mod extract;
mod options;
mod profile;
mod provider;
mod request;
mod response;
mod text;
mod transport;

pub use text::digit_char;
pub use text::lemma_digit_char_injective;
pub use text::lemma_replace_absent;
pub use text::replace_all;
pub use text::spec_dec_digits;
pub use text::spec_replace;

pub use provider::LlmProvider;
pub use provider::ascii_lower;
pub use provider::ascii_lower_char;
pub use provider::lemma_from_index_out_of_range;
pub use provider::lemma_from_index_round_trip;
pub use provider::lemma_from_slug_round_trip;
pub use provider::spec_default_url;
pub use provider::spec_display_name;
pub use provider::spec_from_index;
pub use provider::spec_from_slug;
pub use provider::spec_provider_index;
pub use provider::spec_slug;

pub use extract::extract_json_span;
pub use extract::extract_scalar_candidate;
pub use extract::extract_string_candidate;
pub use extract::flexible_candidates;
pub use extract::is_ascii_digit;
pub use extract::is_word_char;
pub use extract::opt_seq;
pub use extract::spec_boundary;
pub use extract::spec_digits_end;
pub use extract::spec_exp_end;
pub use extract::lemma_find_from_first;
pub use extract::lemma_json_span_shape;
pub use extract::lemma_scalar_find_first;
pub use extract::lemma_scan_from_closes;
pub use extract::lemma_string_candidate_shape;
pub use extract::lemma_string_lit_end_closes;
pub use extract::spec_find_from;
pub use extract::spec_flexible_candidates;
pub use extract::spec_frac_end;
pub use extract::spec_json_span;
pub use extract::spec_literal_match_at;
pub use extract::spec_number_end;
pub use extract::spec_scalar_candidate;
pub use extract::spec_scalar_find;
pub use extract::spec_scalar_match_at;
pub use extract::spec_scan_from;
pub use extract::spec_string_candidate;
pub use extract::spec_string_lit_end;

pub use profile::LlmProfile;
pub use request::hex_char;
pub use request::lemma_request_omits_absent_options;
pub use request::lemma_request_shape_selection;
pub use request::spec_escape_char;
pub use request::spec_escape_string;
pub use request::spec_milli_string;
pub use request::spec_ollama_request_json;
pub use request::spec_options_part;
pub use request::spec_request_head;
pub use request::spec_request_json;
pub use request::spec_standard_request_json;

pub use response::LlmError;
pub use response::chat_completions_of;
pub use response::extract_completion;
pub use response::ollama_completion_of;
pub use transport::spec_resolve_url;

pub use options::index_map_entries;
