//! Application configuration, resolved from the values of environment
//! variables, and the audio and request budgets.

use vstd::prelude::*;
use vstd::string::*;

use crate::text::{parse_unsigned, parse_unsigned_str, trim, trimmed, IntErrorKind};

verus! {

// ── Audio budget policy ──────────────────────────────────────────────────────

/// Maximum audio size we'll fetch from Audius and send to Gemini (15 MB).
/// At 320 kbps MP3, this covers up to ~6 minutes of audio.
pub const MAX_AUDIO_SIZE_BYTES: usize = 15_728_640;

/// Timeout for fetching audio from Audius (seconds).
pub const AUDIUS_FETCH_TIMEOUT_SECS: u64 = 15;

/// Timeout for Gemini Pro API requests (seconds).
pub const GEMINI_REQUEST_TIMEOUT_SECS: u64 = 60;

/// Timeout for Gemini Flash prompt enhancement (seconds).
pub const GEMINI_FLASH_TIMEOUT_SECS: u64 = 25;

/// How many times to retry a Gemini call on JSON parse failure.
pub const GEMINI_MAX_RETRIES: u32 = 1;

/// The port used when neither PORT nor API_PORT is set.
pub const DEFAULT_PORT: &'static str = "3001";

/// The Solana RPC endpoint used when SOLANA_RPC_URL is not set.
pub const DEFAULT_SOLANA_RPC_URL: &'static str = "https://api.mainnet-beta.solana.com";

/// The $AUDIO mint used when AUDIO_TOKEN_MINT is not set.
pub const DEFAULT_AUDIO_TOKEN_MINT: &'static str = "9LzCMqDgTKYz9Drzqnpgee3SGa89up3a247ypMj2xrqM";

/// The CORS origin used when CORS_ORIGIN is not set.
pub const DEFAULT_CORS_ORIGIN: &'static str = "http://localhost:3000";

/// Application configuration.
#[derive(Debug, Clone)]
pub struct AppConfig {
    /// Gemini API key
    pub gemini_api_key: String,
    /// Audius API key
    pub audius_api_key: String,
    /// Supabase project URL
    pub supabase_url: String,
    /// Supabase service role key
    pub supabase_service_key: String,
    /// Solana RPC endpoint
    pub solana_rpc_url: String,
    /// $AUDIO SPL Token mint address
    pub audio_token_mint: String,
    /// Server port
    pub api_port: u16,
    /// Allowed CORS origin
    pub cors_origin: String,
}

/// The values of the environment variables that configure the server, each
/// absent when the variable is unset (or not valid Unicode).
pub struct EnvVars {
    pub port: Option<String>,
    pub api_port: Option<String>,
    pub gemini_api_key: Option<String>,
    pub audius_api_key: Option<String>,
    pub supabase_url: Option<String>,
    pub supabase_service_key: Option<String>,
    pub solana_rpc_url: Option<String>,
    pub audio_token_mint: Option<String>,
    pub cors_origin: Option<String>,
}

/// Why the configuration cannot be loaded.
#[derive(Debug, Clone, Copy, PartialEq, Eq)]
pub enum ConfigError {
    /// The port is not a number from 0 to 65535.
    InvalidPort(IntErrorKind),
    /// A required variable is not set; the field is its name.
    MissingVar(&'static str),
}

/// The value of a variable, when it is set and not blank.
pub open spec fn non_blank(v: Option<String>) -> Option<Seq<char>> {
    match v {
        Some(s) => if trimmed(s@).len() > 0 {
            Some(s@)
        } else {
            None
        },
        None => None,
    }
}

/// The port text: PORT (as platforms such as Railway provide it) when set
/// and not blank, else API_PORT likewise, else the default.
pub open spec fn port_text(port: Option<String>, api_port: Option<String>) -> Seq<char> {
    match non_blank(port) {
        Some(p) => p,
        None => match non_blank(api_port) {
            Some(p) => p,
            None => DEFAULT_PORT@,
        },
    }
}

/// The value of an optional variable, or its default.
pub open spec fn or_default(v: Option<String>, default: Seq<char>) -> Seq<char> {
    match v {
        Some(s) => s@,
        None => default,
    }
}

fn non_blank_value(v: &Option<String>) -> (r: Option<&str>)
    ensures
        match non_blank(*v) {
            Some(s) => r matches Some(x) && x@ == s,
            None => r is None,
        },
{
    match v {
        Some(s) => {
            if trim(s.as_str()).is_empty() {
                None
            } else {
                Some(s.as_str())
            }
        },
        None => None,
    }
}

fn value_or(v: Option<String>, default: &str) -> (r: String)
    ensures
        r@ == or_default(v, default@),
{
    match v {
        Some(s) => s,
        None => String::from_str(default),
    }
}

impl AppConfig {
    /// Resolve the configuration from the environment's values. The port is
    /// read first; then GEMINI_API_KEY, SUPABASE_URL and SUPABASE_SERVICE_KEY
    /// are required, in that order; every other variable has a default.
    pub fn from_vars(vars: EnvVars) -> (r: Result<AppConfig, ConfigError>)
        ensures
            match parse_unsigned(port_text(vars.port, vars.api_port), 65535) {
                Err(kind) => r == Err::<AppConfig, ConfigError>(ConfigError::InvalidPort(kind)),
                Ok(port) => if vars.gemini_api_key is None {
                    r == Err::<AppConfig, ConfigError>(ConfigError::MissingVar("GEMINI_API_KEY"))
                } else if vars.supabase_url is None {
                    r == Err::<AppConfig, ConfigError>(ConfigError::MissingVar("SUPABASE_URL"))
                } else if vars.supabase_service_key is None {
                    r == Err::<AppConfig, ConfigError>(
                        ConfigError::MissingVar("SUPABASE_SERVICE_KEY"),
                    )
                } else {
                    r matches Ok(c) && {
                        &&& c.api_port == port
                        &&& c.gemini_api_key == vars.gemini_api_key.unwrap()
                        &&& c.audius_api_key@ == or_default(vars.audius_api_key, Seq::empty())
                        &&& c.supabase_url == vars.supabase_url.unwrap()
                        &&& c.supabase_service_key == vars.supabase_service_key.unwrap()
                        &&& c.solana_rpc_url@ == or_default(
                            vars.solana_rpc_url,
                            DEFAULT_SOLANA_RPC_URL@,
                        )
                        &&& c.audio_token_mint@ == or_default(
                            vars.audio_token_mint,
                            DEFAULT_AUDIO_TOKEN_MINT@,
                        )
                        &&& c.cors_origin@ == or_default(vars.cors_origin, DEFAULT_CORS_ORIGIN@)
                    }
                },
            },
    {
        proof {
            reveal_strlit("");
        }
        let port_str: &str = match non_blank_value(&vars.port) {
            Some(p) => p,
            None => match non_blank_value(&vars.api_port) {
                Some(p) => p,
                None => DEFAULT_PORT,
            },
        };
        let api_port = match parse_unsigned_str(port_str, 65535) {
            Ok(p) => p as u16,
            Err(kind) => {
                return Err(ConfigError::InvalidPort(kind));
            },
        };
        let EnvVars {
            port: _,
            api_port: _,
            gemini_api_key,
            audius_api_key,
            supabase_url,
            supabase_service_key,
            solana_rpc_url,
            audio_token_mint,
            cors_origin,
        } = vars;
        let gemini_api_key = match gemini_api_key {
            Some(k) => k,
            None => {
                return Err(ConfigError::MissingVar("GEMINI_API_KEY"));
            },
        };
        let supabase_url = match supabase_url {
            Some(u) => u,
            None => {
                return Err(ConfigError::MissingVar("SUPABASE_URL"));
            },
        };
        let supabase_service_key = match supabase_service_key {
            Some(k) => k,
            None => {
                return Err(ConfigError::MissingVar("SUPABASE_SERVICE_KEY"));
            },
        };
        Ok(AppConfig {
            gemini_api_key,
            audius_api_key: value_or(audius_api_key, ""),
            supabase_url,
            supabase_service_key,
            solana_rpc_url: value_or(solana_rpc_url, DEFAULT_SOLANA_RPC_URL),
            audio_token_mint: value_or(audio_token_mint, DEFAULT_AUDIO_TOKEN_MINT),
            api_port,
            cors_origin: value_or(cors_origin, DEFAULT_CORS_ORIGIN),
        })
    }
}

} // verus!
