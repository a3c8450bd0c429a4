use preset_gg::config::{AppConfig, ConfigError, EnvVars, DEFAULT_AUDIO_TOKEN_MINT, DEFAULT_CORS_ORIGIN, DEFAULT_SOLANA_RPC_URL};
use preset_gg::text::IntErrorKind;

fn vars() -> EnvVars {
    EnvVars {
        port: None,
        api_port: None,
        gemini_api_key: Some("g".to_string()),
        audius_api_key: None,
        supabase_url: Some("https://x.supabase.co".to_string()),
        supabase_service_key: Some("s".to_string()),
        solana_rpc_url: None,
        audio_token_mint: None,
        cors_origin: None,
    }
}

#[test]
fn defaults_fill_optional_variables() {
    let c = AppConfig::from_vars(vars()).unwrap();
    assert_eq!(c.api_port, 3001);
    assert_eq!(c.gemini_api_key, "g");
    assert_eq!(c.audius_api_key, "");
    assert_eq!(c.solana_rpc_url, DEFAULT_SOLANA_RPC_URL);
    assert_eq!(c.solana_rpc_url, "https://api.mainnet-beta.solana.com");
    assert_eq!(c.audio_token_mint, DEFAULT_AUDIO_TOKEN_MINT);
    assert_eq!(c.cors_origin, DEFAULT_CORS_ORIGIN);
    assert_eq!(c.cors_origin, "http://localhost:3000");
}

#[test]
fn port_prefers_port_then_api_port() {
    let mut v = vars();
    v.port = Some("8080".to_string());
    v.api_port = Some("9090".to_string());
    assert_eq!(AppConfig::from_vars(v).unwrap().api_port, 8080);
    let mut v = vars();
    v.port = Some("   ".to_string());
    v.api_port = Some("9090".to_string());
    assert_eq!(AppConfig::from_vars(v).unwrap().api_port, 9090);
    let mut v = vars();
    v.api_port = Some("+65535".to_string());
    assert_eq!(AppConfig::from_vars(v).unwrap().api_port, 65535);
}

#[test]
fn invalid_ports_are_refused() {
    let mut v = vars();
    v.port = Some("65536".to_string());
    assert_eq!(AppConfig::from_vars(v).err(), Some(ConfigError::InvalidPort(IntErrorKind::PosOverflow)));
    let mut v = vars();
    v.port = Some("80a".to_string());
    assert_eq!(AppConfig::from_vars(v).err(), Some(ConfigError::InvalidPort(IntErrorKind::InvalidDigit)));
    let mut v = vars();
    v.port = Some(" 80".to_string());
    assert_eq!(AppConfig::from_vars(v).err(), Some(ConfigError::InvalidPort(IntErrorKind::InvalidDigit)));
}

#[test]
fn required_variables_in_order() {
    let mut v = vars();
    v.gemini_api_key = None;
    v.supabase_url = None;
    assert_eq!(AppConfig::from_vars(v).err(), Some(ConfigError::MissingVar("GEMINI_API_KEY")));
    let mut v = vars();
    v.supabase_url = None;
    assert_eq!(AppConfig::from_vars(v).err(), Some(ConfigError::MissingVar("SUPABASE_URL")));
    let mut v = vars();
    v.supabase_service_key = None;
    assert_eq!(AppConfig::from_vars(v).err(), Some(ConfigError::MissingVar("SUPABASE_SERVICE_KEY")));
}

#[test]
fn set_variables_are_used() {
    let mut v = vars();
    v.audius_api_key = Some("ak".to_string());
    v.cors_origin = Some("*".to_string());
    v.audio_token_mint = Some("mint".to_string());
    v.solana_rpc_url = Some("http://rpc".to_string());
    let c = AppConfig::from_vars(v).unwrap();
    assert_eq!(c.audius_api_key, "ak");
    assert_eq!(c.cors_origin, "*");
    assert_eq!(c.audio_token_mint, "mint");
    assert_eq!(c.solana_rpc_url, "http://rpc");
    assert_eq!(c.supabase_url, "https://x.supabase.co");
    assert_eq!(c.supabase_service_key, "s");
}
