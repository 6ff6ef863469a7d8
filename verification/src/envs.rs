//! Session configuration: every knob with its documented default, computed
//! from the raw text values the process environment supplies.  Reading the
//! environment itself is left to the unverified shell; this module owns the
//! defaults and the parsing.

use vstd::prelude::*;
use vstd::string::*;
use crate::numbers::parse_usize_spec;
use crate::numbers::parse_usize;

verus! {

/// Read-only configuration shared by every session.
pub struct Config {
    /// Generation model name; default `llama3.2`.
    pub model: String,
    /// Embedding model name; default `embeddinggemma`.
    pub embeddings_model: String,
    /// Similarity index name; default `idx:cv`.
    pub index_name: String,
    /// When set, generation is history-attached and reformulation is skipped.
    pub use_chat_history: bool,
    /// When set, each question is augmented with retrieved passages.
    pub use_index: bool,
    /// Similarity ranking width (the `k` of the nearest-neighbour search);
    /// default 3.
    pub max_results: usize,
    /// Cap on the result window of one search reply, independent of
    /// `max_results`; default 4.
    pub result_window: usize,
    /// Index service address; default `redis://127.0.0.1/`.
    pub redis_url: String,
    /// Listen port; default `3005`.
    pub port: String,
    /// System prompt text; default empty.
    pub system_prompt: String,
}

/// The value of one optional text setting: the given text, or the default.
pub open spec fn text_or(v: Option<String>, default: Seq<char>) -> Seq<char> {
    match v {
        Some(s) => s@,
        None => default,
    }
}

/// The value of one flag setting: set exactly when the text reads `true`.
pub open spec fn flag_of(v: Option<String>) -> bool {
    match v {
        Some(s) => s@ == "true"@,
        None => false,
    }
}

/// The value of one count setting: the decimal value of the text when it
/// parses, else the default.
pub open spec fn count_or(v: Option<String>, default: usize) -> usize {
    match v {
        Some(s) => match parse_usize_spec(vstd::utf8::encode_utf8(s@)) {
            Some(n) => n,
            None => default,
        },
        None => default,
    }
}

fn text_setting(v: Option<String>, default: &str) -> (r: String)
    ensures
        r@ == text_or(v, default@),
{
    match v {
        Some(s) => s,
        None => String::from_str(default),
    }
}

fn flag_setting(v: Option<String>) -> (r: bool)
    ensures
        r == flag_of(v),
{
    match &v {
        Some(s) => {
            let t = String::from_str("true");
            let r = *s == t;
            proof {
                reveal_strlit("true");
            }
            r
        },
        None => false,
    }
}

fn count_setting(v: Option<String>, default: usize) -> (r: usize)
    ensures
        r == count_or(v, default),
{
    match &v {
        Some(s) => match parse_usize(s.as_str().as_bytes()) {
            Some(n) => n,
            None => default,
        },
        None => default,
    }
}

/// Builds the configuration from the raw text of each setting, taking the
/// documented default wherever a setting is absent (or, for the counts,
/// does not parse as a decimal number).
pub fn config_from_values(
    model: Option<String>,
    embeddings_model: Option<String>,
    index_name: Option<String>,
    redis_url: Option<String>,
    port: Option<String>,
    use_index: Option<String>,
    use_chat_history: Option<String>,
    max_results: Option<String>,
    result_window: Option<String>,
    system_prompt: Option<String>,
) -> (c: Config)
    ensures
        c.model@ == text_or(model, "llama3.2"@),
        c.embeddings_model@ == text_or(embeddings_model, "embeddinggemma"@),
        c.index_name@ == text_or(index_name, "idx:cv"@),
        c.redis_url@ == text_or(redis_url, "redis://127.0.0.1/"@),
        c.port@ == text_or(port, "3005"@),
        c.use_index == flag_of(use_index),
        c.use_chat_history == flag_of(use_chat_history),
        c.max_results == count_or(max_results, 3),
        c.result_window == count_or(result_window, 4),
        c.system_prompt@ == text_or(system_prompt, ""@),
{
    Config {
        model: text_setting(model, "llama3.2"),
        embeddings_model: text_setting(embeddings_model, "embeddinggemma"),
        index_name: text_setting(index_name, "idx:cv"),
        use_chat_history: flag_setting(use_chat_history),
        use_index: flag_setting(use_index),
        max_results: count_setting(max_results, 3),
        result_window: count_setting(result_window, 4),
        redis_url: text_setting(redis_url, "redis://127.0.0.1/"),
        port: text_setting(port, "3005"),
        system_prompt: text_setting(system_prompt, ""),
    }
}

} // verus!
