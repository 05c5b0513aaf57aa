//! The service configuration and its construction from the operator's
//! environment values.  The process reads the variables; every decision
//! about defaults, parsing and rejection is made here.

use vstd::prelude::*;

use crate::text::str_eq;

verus! {

/// Where the HTTP server binds.
#[derive(Debug, Clone)]
pub struct ServerConfig {
    pub host: String,
    pub port: u16,
}

/// The configuration of a "generate"-style provider.
#[derive(Debug, Clone)]
pub struct OllamaConfig {
    pub base_url: String,
    pub model: String,
}

/// The configuration of a "chat"-style provider with vision.
#[derive(Debug, Clone)]
pub struct OpenAiCompatConfig {
    pub base_url: String,
    pub api_key: String,
    pub model: String,
}

/// Which vision-model provider the pipeline talks to.
#[derive(Debug, Clone)]
pub enum VlmBackend {
    Ollama(OllamaConfig),
    OpenAiCompat(OpenAiCompatConfig),
}

/// Everything the process needs to start.
#[derive(Debug, Clone)]
pub struct AppConfig {
    pub server: ServerConfig,
    pub database_url: String,
    pub vlm: VlmBackend,
    pub analysis_workers: usize,
    pub frame_queue_size: usize,
}

/// Why a configuration was rejected.
#[derive(Debug, Clone, Copy, PartialEq, Eq, Structural)]
pub enum ConfigError {
    /// The server port is not a decimal number within range.
    InvalidPort,
    /// The database URL is not set.
    MissingDatabaseUrl,
    /// The chat-style provider needs a base URL.
    MissingOpenAiBaseUrl,
    /// The chat-style provider needs an API key.
    MissingOpenAiApiKey,
    /// The backend name is neither of the two providers.
    UnknownBackend,
    /// The worker count is not a decimal number within range.
    InvalidWorkers,
    /// The queue size is not a decimal number within range.
    InvalidQueueSize,
}

/// A decimal digit.
pub open spec fn spec_is_digit(c: char) -> bool {
    48 <= c as u32 <= 57
}

/// All characters are decimal digits.
pub open spec fn spec_all_digits(s: Seq<char>) -> bool {
    forall|i: int| 0 <= i < s.len() ==> spec_is_digit(#[trigger] s[i])
}

/// The value of a digit string, most significant digit first.
pub open spec fn spec_digits_val(s: Seq<char>) -> nat
    decreases s.len(),
{
    if s.len() == 0 {
        0
    } else {
        spec_digits_val(s.drop_last()) * 10 + (s.last() as u32 - 48) as nat
    }
}

/// A non-empty digit string whose value is at most `max`.
pub open spec fn spec_valid_dec(s: Seq<char>, max: nat) -> bool {
    s.len() > 0 && spec_all_digits(s) && spec_digits_val(s) <= max
}

/// Parses a non-negative decimal number of at most `max`; anything else —
/// empty, a stray character, too large — is rejected.
pub fn parse_decimal_u64(s: &str, max: u64) -> (r: Option<u64>)
    ensures
        match r {
            Some(v) => spec_valid_dec(s@, max as nat) && v == spec_digits_val(s@),
            None => !spec_valid_dec(s@, max as nat),
        },
{
    let n = s.unicode_len();
    if n == 0 {
        return None;
    }
    let mut acc: u128 = 0;
    let mut over: bool = false;
    let mut i: usize = 0;
    while i < n
        invariant
            n == s@.len(),
            0 <= i <= n,
            forall|k: int| 0 <= k < i ==> spec_is_digit(#[trigger] s@[k]),
            !over ==> acc == spec_digits_val(s@.take(i as int)) && acc <= max as u128,
            over ==> spec_digits_val(s@.take(i as int)) > max as nat,
        decreases n - i,
    {
        let c = s.get_char(i);
        let code = c as u32;
        if code < 48 || code > 57 {
            return None;
        }
        let d: u128 = (code - 48) as u128;
        proof {
            assert(s@.take(i + 1).drop_last() =~= s@.take(i as int));
            assert(s@.take(i + 1).last() == s@[i as int]);
        }
        if !over {
            let next: u128 = acc * 10 + d;
            if next > max as u128 {
                over = true;
            } else {
                acc = next;
            }
        }
        i = i + 1;
    }
    proof {
        assert(s@.take(n as int) =~= s@);
    }
    if over {
        None
    } else {
        Some(acc as u64)
    }
}

/// The value of a signed decimal text in the i64 range: an optional
/// leading minus sign, then digits.
pub open spec fn spec_signed_dec_val(s: Seq<char>) -> int {
    if s.len() > 0 && s[0] == '-' {
        -(spec_digits_val(s.skip(1)) as int)
    } else {
        spec_digits_val(s) as int
    }
}

/// A signed decimal text whose value fits an i64.
pub open spec fn spec_valid_signed_dec(s: Seq<char>) -> bool {
    if s.len() > 0 && s[0] == '-' {
        s.len() >= 2 && spec_all_digits(s.skip(1)) && spec_digits_val(s.skip(1))
            <= 0x8000000000000000
    } else {
        spec_valid_dec(s, 0x7fffffffffffffff)
    }
}

/// Parses a signed decimal integer in the i64 range; anything else —
/// empty, a stray character, out of range — is rejected.  This is also
/// how a JSON number's text reads as an integer: a fractional or
/// exponent form is rejected.
pub fn parse_decimal_i64(s: &str) -> (r: Option<i64>)
    ensures
        match r {
            Some(v) => spec_valid_signed_dec(s@) && v as int == spec_signed_dec_val(s@),
            None => !spec_valid_signed_dec(s@),
        },
{
    let n = s.unicode_len();
    if n > 0 && s.get_char(0) == '-' {
        let digits = s.substring_char(1, n);
        proof {
            assert(digits@ =~= s@.skip(1));
        }
        if digits.unicode_len() == 0 {
            return None;
        }
        match parse_decimal_u64(digits, 0x8000000000000000) {
            Some(m) => Some((-(m as i128)) as i64),
            None => None,
        }
    } else {
        match parse_decimal_u64(s, 0x7fffffffffffffff) {
            Some(v) => Some(v as i64),
            None => None,
        }
    }
}

/// The value, or the default when it is unset.
pub open spec fn spec_opt_or(v: Option<String>, d: Seq<char>) -> Seq<char> {
    match v {
        Some(s) => s@,
        None => d,
    }
}

fn opt_or(v: Option<String>, d: &str) -> (r: String)
    ensures
        r@ == spec_opt_or(v, d@),
{
    match v {
        Some(s) => s,
        None => String::from_str(d),
    }
}

impl AppConfig {
    /// Builds the configuration from the operator's environment values,
    /// applying the documented defaults: host `0.0.0.0`, port `8080`,
    /// backend `ollama` with its local URL and the `moondream` model, four
    /// analysis workers, a frame queue of sixty-four.  The chat-style
    /// backend requires its base URL and API key; the database URL is
    /// always required; numbers must be plain decimals in range.
    pub fn from_vars(
        host: Option<String>,
        port: Option<String>,
        database_url: Option<String>,
        backend: Option<String>,
        ollama_base_url: Option<String>,
        ollama_model: Option<String>,
        openai_base_url: Option<String>,
        openai_api_key: Option<String>,
        openai_model: Option<String>,
        workers: Option<String>,
        queue_size: Option<String>,
    ) -> (r: Result<AppConfig, ConfigError>)
        ensures
            match r {
                Ok(c) => {
                    &&& c.server.host@ == spec_opt_or(host, "0.0.0.0"@)
                    &&& spec_valid_dec(spec_opt_or(port, "8080"@), 0xffff)
                    &&& c.server.port as nat == spec_digits_val(spec_opt_or(port, "8080"@))
                    &&& database_url matches Some(d) && c.database_url@ == d@
                    &&& match c.vlm {
                        VlmBackend::Ollama(o) => {
                            &&& spec_opt_or(backend, "ollama"@) == "ollama"@
                            &&& o.base_url@ == spec_opt_or(
                                ollama_base_url,
                                "http://localhost:11434"@,
                            )
                            &&& o.model@ == spec_opt_or(ollama_model, "moondream"@)
                        },
                        VlmBackend::OpenAiCompat(o) => {
                            &&& spec_opt_or(backend, "ollama"@) == "openai_compat"@
                            &&& openai_base_url matches Some(b) && o.base_url@ == b@
                            &&& openai_api_key matches Some(k) && o.api_key@ == k@
                            &&& o.model@ == spec_opt_or(openai_model, "Qwen/Qwen2-VL-7B-Instruct"@)
                        },
                    }
                    &&& spec_valid_dec(spec_opt_or(workers, "4"@), usize::MAX as nat)
                    &&& c.analysis_workers as nat == spec_digits_val(spec_opt_or(workers, "4"@))
                    &&& spec_valid_dec(spec_opt_or(queue_size, "64"@), usize::MAX as nat)
                    &&& c.frame_queue_size as nat == spec_digits_val(
                        spec_opt_or(queue_size, "64"@),
                    )
                },
                Err(e) => match e {
                    ConfigError::InvalidPort => !spec_valid_dec(spec_opt_or(port, "8080"@), 0xffff),
                    ConfigError::MissingDatabaseUrl => database_url is None,
                    ConfigError::MissingOpenAiBaseUrl => spec_opt_or(backend, "ollama"@)
                        == "openai_compat"@ && openai_base_url is None,
                    ConfigError::MissingOpenAiApiKey => spec_opt_or(backend, "ollama"@)
                        == "openai_compat"@ && openai_api_key is None,
                    ConfigError::UnknownBackend => spec_opt_or(backend, "ollama"@) != "ollama"@
                        && spec_opt_or(backend, "ollama"@) != "openai_compat"@,
                    ConfigError::InvalidWorkers => !spec_valid_dec(
                        spec_opt_or(workers, "4"@),
                        usize::MAX as nat,
                    ),
                    ConfigError::InvalidQueueSize => !spec_valid_dec(
                        spec_opt_or(queue_size, "64"@),
                        usize::MAX as nat,
                    ),
                },
            },
    {
        let host_s = opt_or(host, "0.0.0.0");
        let port_s = opt_or(port, "8080");
        let port_v: u16 = match parse_decimal_u64(port_s.as_str(), 0xffff) {
            Some(v) => v as u16,
            None => {
                return Err(ConfigError::InvalidPort);
            },
        };
        let db = match database_url {
            Some(d) => d,
            None => {
                return Err(ConfigError::MissingDatabaseUrl);
            },
        };
        let backend_s = opt_or(backend, "ollama");
        let vlm: VlmBackend = if str_eq(backend_s.as_str(), "ollama") {
            VlmBackend::Ollama(
                OllamaConfig {
                    base_url: opt_or(ollama_base_url, "http://localhost:11434"),
                    model: opt_or(ollama_model, "moondream"),
                },
            )
        } else if str_eq(backend_s.as_str(), "openai_compat") {
            let base = match openai_base_url {
                Some(b) => b,
                None => {
                    return Err(ConfigError::MissingOpenAiBaseUrl);
                },
            };
            let key = match openai_api_key {
                Some(k) => k,
                None => {
                    return Err(ConfigError::MissingOpenAiApiKey);
                },
            };
            VlmBackend::OpenAiCompat(
                OpenAiCompatConfig {
                    base_url: base,
                    api_key: key,
                    model: opt_or(openai_model, "Qwen/Qwen2-VL-7B-Instruct"),
                },
            )
        } else {
            return Err(ConfigError::UnknownBackend);
        };
        let workers_s = opt_or(workers, "4");
        let workers_v: usize = match parse_decimal_u64(workers_s.as_str(), usize::MAX as u64) {
            Some(v) => v as usize,
            None => {
                return Err(ConfigError::InvalidWorkers);
            },
        };
        let queue_s = opt_or(queue_size, "64");
        let queue_v: usize = match parse_decimal_u64(queue_s.as_str(), usize::MAX as u64) {
            Some(v) => v as usize,
            None => {
                return Err(ConfigError::InvalidQueueSize);
            },
        };
        Ok(
            AppConfig {
                server: ServerConfig { host: host_s, port: port_v },
                database_url: db,
                vlm,
                analysis_workers: workers_v,
                frame_queue_size: queue_v,
            },
        )
    }
}

} // verus!
