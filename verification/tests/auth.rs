use std::str::FromStr;

use preset_gg::auth::{verify_response, verify_wallet, VerifyRequest};
use preset_gg::config::{AppConfig, DEFAULT_AUDIO_TOKEN_MINT};
use preset_gg::errors::AppError;
use preset_gg::token_gate::{balance_account, balance_of, BalanceReply, PubkeyError, TokenAmount};
use solana_sdk::pubkey::Pubkey;

const WALLET: &str = "TokenkegQfeZyiNwAJbNbGKPFXCWuBvf9Ss623VQ5DA";

fn config() -> AppConfig {
    AppConfig {
        gemini_api_key: String::new(),
        audius_api_key: String::new(),
        supabase_url: String::new(),
        supabase_service_key: String::new(),
        solana_rpc_url: String::new(),
        audio_token_mint: DEFAULT_AUDIO_TOKEN_MINT.to_string(),
        api_port: 3001,
        cors_origin: String::new(),
    }
}

fn expected_account(wallet: &str, mint: &str) -> [u8; 32] {
    spl_associated_token_account::get_associated_token_address(
        &Pubkey::from_str(wallet).unwrap(),
        &Pubkey::from_str(mint).unwrap(),
    )
    .to_bytes()
}

#[test]
fn blank_wallet_is_refused() {
    let r = verify_wallet(&VerifyRequest { wallet_pubkey: "   ".to_string() }, &config());
    assert!(matches!(r, Err(AppError::BadRequest(m)) if m == "wallet_pubkey is required"));
}

#[test]
fn wallet_account_is_the_associated_token_account() {
    let r = verify_wallet(&VerifyRequest { wallet_pubkey: format!("  {}  ", WALLET) }, &config());
    let account = r.ok().unwrap();
    assert_eq!(account, expected_account(WALLET, DEFAULT_AUDIO_TOKEN_MINT));
    assert_ne!(account, Pubkey::from_str(WALLET).unwrap().to_bytes());
}

#[test]
fn malformed_keys_fail_the_balance_query() {
    let r = verify_wallet(&VerifyRequest { wallet_pubkey: "0OIl".to_string() }, &config());
    assert!(matches!(r, Err(AppError::Internal(m))
        if m == "Could not verify wallet balance: Invalid Base58 string"));
    let long = "1".repeat(45);
    let r = verify_wallet(&VerifyRequest { wallet_pubkey: long }, &config());
    assert!(matches!(r, Err(AppError::Internal(m))
        if m == "Could not verify wallet balance: String is the wrong size"));
    assert_eq!(balance_account("abc", DEFAULT_AUDIO_TOKEN_MINT), Err(PubkeyError::WrongSize));
    assert_eq!(balance_account(WALLET, "not base58!"), Err(PubkeyError::Invalid));
    assert_eq!(PubkeyError::WrongSize.message(), "String is the wrong size");
}

#[test]
fn balance_from_the_rpc_answer() {
    assert_eq!(balance_of(BalanceReply::NoAccount), Ok(TokenAmount { amount: 0, decimals: 0 }));
    assert_eq!(
        balance_of(BalanceReply::Account { amount: "15000000000".to_string(), decimals: 8 }),
        Ok(TokenAmount { amount: 15_000_000_000, decimals: 8 })
    );
    assert_eq!(
        balance_of(BalanceReply::Account { amount: "n/a".to_string(), decimals: 8 }),
        Ok(TokenAmount { amount: 0, decimals: 8 })
    );
    assert_eq!(balance_of(BalanceReply::Failed("timed out".to_string())), Err("timed out".to_string()));
}

#[test]
fn response_reports_the_tier() {
    let r = verify_response(Ok(TokenAmount { amount: 15_000_000_000, decimals: 8 })).ok().unwrap();
    assert_eq!(r.tier, "pro");
    assert_eq!(r.daily_generations_limit, 15);
    assert_eq!(r.daily_generations_used, 0);
    assert_eq!((r.audio_amount, r.audio_decimals), (15_000_000_000, 8));
    let r = verify_response(Ok(TokenAmount { amount: 0, decimals: 0 })).ok().unwrap();
    assert_eq!((r.tier.as_str(), r.daily_generations_limit), ("free", 3));
    let r = verify_response(Ok(TokenAmount { amount: 1000, decimals: 0 })).ok().unwrap();
    assert_eq!((r.tier.as_str(), r.daily_generations_limit), ("studio", u32::MAX));
}

#[test]
fn failed_balance_read_is_an_error() {
    match verify_response(Err("RPC timed out".to_string())) {
        Err(AppError::Internal(m)) => assert_eq!(m, "Could not verify wallet balance: RPC timed out"),
        _ => panic!("expected an internal error"),
    }
}
