use vstd::prelude::*;

verus! {

/// Whether every character is a decimal digit.
pub open spec fn all_digits(s: Seq<char>) -> bool {
    forall|i: int| 0 <= i < s.len() ==> 48 <= (#[trigger] s[i] as u32) <= 57
}

/// The number that a string of decimal digits writes.
pub open spec fn digits_value(s: Seq<char>) -> int
    decreases s.len(),
{
    if s.len() == 0 {
        0
    } else {
        digits_value(s.drop_last()) * 10 + (s.last() as u32 - 48)
    }
}

/// The count that a text writes in decimal, after an optional `+`; `None` where the
/// digits are missing, something else stands there, or the count overflows.
pub open spec fn usize_of(s: Seq<char>) -> Option<usize> {
    let d = if s.len() > 0 && s[0] == '+' {
        s.drop_first()
    } else {
        s
    };
    if d.len() > 0 && all_digits(d) && digits_value(d) <= usize::MAX {
        Some(digits_value(d) as usize)
    } else {
        None
    }
}

/// Relies on `str::parse::<usize>`: an optional `+`, then decimal digits, with
/// an error on anything else and on overflow.
#[verifier::external_body]
fn parse_count(s: &str) -> (r: Option<usize>)
    ensures
        r == usize_of(s@),
{
    s.parse::<usize>().ok()
}

/// The chunk size used where none is configured.
pub const DEFAULT_CHUNK_SIZE: usize = 5000;

/// The chunk overlap used where none is configured.
pub const DEFAULT_CHUNK_OVERLAP: usize = 200;

/// The settings of the application.
#[derive(Clone, Debug)]
pub struct Config {
    pub app_name: String,
    pub app_version: String,
    pub log_level: String,
    pub chunk_size: usize,
    pub chunk_overlap: usize,
    pub database_url: String,
    pub openai_api_key: String,
    pub openai_api_url: String,
    pub openai_chat_model: String,
    pub openai_embedding_model: String,
}

/// A setting's text, or `default` where it is not set.
pub open spec fn text_or(v: Option<String>, default: Seq<char>) -> Seq<char> {
    match v {
        Some(s) => s@,
        None => default,
    }
}

/// A count read from a setting's text, or `default` where it is not set or not a count.
pub open spec fn count_or(v: Option<String>, default: usize) -> usize {
    match v {
        Some(s) => match usize_of(s@) {
            Some(n) => n,
            None => default,
        },
        None => default,
    }
}

fn text_setting(v: Option<String>, default: &str) -> (r: String)
    ensures
        r@ == text_or(v, default@),
{
    match v {
        Some(s) => s,
        None => String::from_str(default),
    }
}

fn count_setting(v: Option<String>, default: usize) -> (r: usize)
    ensures
        r == count_or(v, default),
{
    match v {
        Some(s) => match parse_count(s.as_str()) {
            Some(n) => n,
            None => default,
        },
        None => default,
    }
}

/// The settings as they were found, by name; `None` for one that is not set.
pub struct Settings {
    pub app_name: Option<String>,
    pub app_version: Option<String>,
    pub log_level: Option<String>,
    pub chunk_size: Option<String>,
    pub chunk_overlap: Option<String>,
    pub database_url: Option<String>,
    pub openai_api_key: Option<String>,
    pub openai_api_url: Option<String>,
    pub openai_chat_model: Option<String>,
    pub openai_embedding_model: Option<String>,
}

impl Config {
    /// The configuration from the settings found: the version defaults to `1.0.0`,
    /// the log level to `INFO`, the chunk size to 5000 and the overlap to 200;
    /// other missing texts are empty.
    pub fn from_settings(s: Settings) -> (r: Config)
        ensures
            r.app_name@ == text_or(s.app_name, ""@),
            r.app_version@ == text_or(s.app_version, "1.0.0"@),
            r.log_level@ == text_or(s.log_level, "INFO"@),
            r.chunk_size == count_or(s.chunk_size, DEFAULT_CHUNK_SIZE),
            r.chunk_overlap == count_or(s.chunk_overlap, DEFAULT_CHUNK_OVERLAP),
            r.database_url@ == text_or(s.database_url, ""@),
            r.openai_api_key@ == text_or(s.openai_api_key, ""@),
            r.openai_api_url@ == text_or(s.openai_api_url, ""@),
            r.openai_chat_model@ == text_or(s.openai_chat_model, ""@),
            r.openai_embedding_model@ == text_or(s.openai_embedding_model, ""@),
    {
        Config {
            app_name: text_setting(s.app_name, ""),
            app_version: text_setting(s.app_version, "1.0.0"),
            log_level: text_setting(s.log_level, "INFO"),
            chunk_size: count_setting(s.chunk_size, DEFAULT_CHUNK_SIZE),
            chunk_overlap: count_setting(s.chunk_overlap, DEFAULT_CHUNK_OVERLAP),
            database_url: text_setting(s.database_url, ""),
            openai_api_key: text_setting(s.openai_api_key, ""),
            openai_api_url: text_setting(s.openai_api_url, ""),
            openai_chat_model: text_setting(s.openai_chat_model, ""),
            openai_embedding_model: text_setting(s.openai_embedding_model, ""),
        }
    }
}

} // verus!
