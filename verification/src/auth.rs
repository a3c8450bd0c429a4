//! POST /api/auth/verify — checking a wallet and answering with its tier.
//!
//! The wallet's public key is taken at face value (no signature is
//! checked); its tier follows from the $AUDIO balance that the Solana RPC
//! reports for the wallet's associated token account.

use vstd::prelude::*;
use vstd::string::*;

use crate::config::AppConfig;
use crate::errors::AppError;
use crate::text::{trim, trimmed};
use crate::tiers::{
    daily_limit, spec_daily_limit, spec_tier_from_balance, spec_tier_name, tier_from_balance,
    tier_name,
};
use crate::token_gate::{
    balance_account, spec_balance_account, spec_pubkey_error_message, TokenAmount,
};

verus! {

/// Request body for POST /api/auth/verify.
pub struct VerifyRequest {
    pub wallet_pubkey: String,
}

/// Response body for POST /api/auth/verify. The balance is given exactly,
/// as `audio_amount / 10^audio_decimals` tokens.
pub struct VerifyResponse {
    pub tier: String,
    pub audio_amount: u64,
    pub audio_decimals: u8,
    pub daily_generations_used: u32,
    pub daily_generations_limit: u32,
}

pub const WALLET_REQUIRED: &'static str = "wallet_pubkey is required";

pub const BALANCE_FAILURE_PREFIX: &'static str = "Could not verify wallet balance: ";

/// Start verifying a wallet: the token account whose balance decides its
/// tier. A blank public key is refused; a key (or configured mint) that is
/// not a base58 public key fails the balance query.
pub fn verify_wallet(request: &VerifyRequest, config: &AppConfig) -> (r: Result<[u8; 32], AppError>)
    ensures
        trimmed(request.wallet_pubkey@).len() == 0 ==> (r matches Err(AppError::BadRequest(m))
            && m@ == WALLET_REQUIRED@),
        trimmed(request.wallet_pubkey@).len() > 0 ==> match spec_balance_account(
            trimmed(request.wallet_pubkey@),
            config.audio_token_mint@,
        ) {
            Ok(a) => r matches Ok(account) && account@ == a,
            Err(e) => r matches Err(AppError::Internal(m)) && m@ == BALANCE_FAILURE_PREFIX@
                + spec_pubkey_error_message(e),
        },
{
    let pubkey = trim(request.wallet_pubkey.as_str());
    if pubkey.is_empty() {
        return Err(AppError::BadRequest(String::from_str(WALLET_REQUIRED)));
    }
    match balance_account(pubkey, config.audio_token_mint.as_str()) {
        Ok(account) => Ok(account),
        Err(e) => Err(balance_failure(e.message())),
    }
}

/// The error answered when the wallet's balance could not be read, for
/// `reason`.
pub fn balance_failure(reason: &str) -> (e: AppError)
    ensures
        e matches AppError::Internal(m) && m@ == BALANCE_FAILURE_PREFIX@ + reason@,
{
    let mut m = String::from_str(BALANCE_FAILURE_PREFIX);
    m.append(reason);
    AppError::Internal(m)
}

/// Finish verifying a wallet with its balance, or the reason it could not
/// be read: its tier, that tier's daily limit, and no generations used yet
/// (usage is not stored). A failed read is an internal error.
pub fn verify_response(balance: Result<TokenAmount, String>) -> (r: Result<VerifyResponse, AppError>)
    ensures
        match balance {
            Ok(b) => r matches Ok(v) && {
                let tier = spec_tier_from_balance(b.amount, b.decimals);
                &&& v.tier@ == spec_tier_name(tier)
                &&& v.audio_amount == b.amount
                &&& v.audio_decimals == b.decimals
                &&& v.daily_generations_used == 0
                &&& v.daily_generations_limit == spec_daily_limit(tier)
            },
            Err(reason) => r matches Err(AppError::Internal(m)) && m@ == BALANCE_FAILURE_PREFIX@
                + reason@,
        },
{
    let balance = match balance {
        Ok(b) => b,
        Err(reason) => {
            return Err(balance_failure(reason.as_str()));
        },
    };
    let tier = tier_from_balance(balance.amount, balance.decimals);
    let limit = daily_limit(&tier);
    Ok(VerifyResponse {
        tier: String::from_str(tier_name(&tier)),
        audio_amount: balance.amount,
        audio_decimals: balance.decimals,
        daily_generations_used: 0,
        daily_generations_limit: limit,
    })
}

} // verus!
