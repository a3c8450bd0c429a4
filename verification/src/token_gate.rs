//! Token gating: which account holds a wallet's $AUDIO, and the balance
//! that the Solana RPC reports for it.

use vstd::prelude::*;

use crate::text::{decimal, law_parse_decimal, parse_unsigned, parse_unsigned_str, utf8_len};

verus! {

/// Why a base58 public key was refused (`solana_pubkey::ParsePubkeyError`).
#[derive(Debug, Clone, Copy, PartialEq, Eq, Structural)]
pub enum PubkeyError {
    /// The text is too long, or decodes to other than 32 bytes.
    WrongSize,
    /// The text holds a character outside the base58 alphabet.
    Invalid,
}

/// How the error displays.
pub open spec fn spec_pubkey_error_message(e: PubkeyError) -> Seq<char> {
    match e {
        PubkeyError::WrongSize => "String is the wrong size"@,
        PubkeyError::Invalid => "Invalid Base58 string"@,
    }
}

impl PubkeyError {
    /// The error's text, as `ParsePubkeyError` displays it.
    pub fn message(&self) -> (m: &'static str)
        ensures
            m@ == spec_pubkey_error_message(*self),
    {
        match self {
            PubkeyError::WrongSize => "String is the wrong size",
            PubkeyError::Invalid => "Invalid Base58 string",
        }
    }
}

/// The longest text that can hold a base58 public key, in bytes.
pub const MAX_BASE58_LEN: usize = 44;

/// The 32 bytes that base58 text decodes to, or why it does not decode to
/// a public key.
pub uninterp spec fn decoded_pubkey(text: Seq<char>) -> Result<Seq<u8>, PubkeyError>;

/// The 32 bytes of a public key.
pub type KeyBytes = [u8; 32];

/// A decoded key by its bytes.
pub open spec fn key_bytes(r: Result<KeyBytes, PubkeyError>) -> Result<Seq<u8>, PubkeyError> {
    match r {
        Ok(key) => Ok(key@),
        Err(e) => Err(e),
    }
}

/// The refusal of text too long to be a key.
pub open spec fn wrong_size() -> Result<Seq<u8>, PubkeyError> {
    Err(PubkeyError::WrongSize)
}

/// `<solana_sdk::pubkey::Pubkey as FromStr>::from_str`, giving the key's
/// bytes. Stated: the result is the decoding named `decoded_pubkey`, and
/// text longer than 44 bytes is refused as the wrong size without decoding.
#[verifier::external_body]
fn parse_pubkey(text: &str) -> (r: Result<KeyBytes, PubkeyError>)
    ensures
        decoded_pubkey(text@) == key_bytes(r),
        utf8_len(text@) > MAX_BASE58_LEN ==> key_bytes(r) == wrong_size(),
{
    match <solana_sdk::pubkey::Pubkey as std::str::FromStr>::from_str(text) {
        Ok(key) => Ok(key.to_bytes()),
        Err(solana_sdk::pubkey::ParsePubkeyError::WrongSize) => Err(PubkeyError::WrongSize),
        Err(solana_sdk::pubkey::ParsePubkeyError::Invalid) => Err(PubkeyError::Invalid),
    }
}

/// The associated token account of `wallet` for the token `mint`: the
/// program-derived address of the SPL Token program's seeds.
pub uninterp spec fn associated_token_address(wallet: Seq<u8>, mint: Seq<u8>) -> Seq<u8>;

/// `spl_associated_token_account::get_associated_token_address`, on keys
/// given by their bytes. Stated: the result is the address named
/// `associated_token_address` of the two keys. Left unsaid: the derivation
/// panics when no bump seed gives an address off the curve, which the
/// outside crate calls statistically improbable.
#[verifier::external_body]
fn associated_token_account(wallet: &[u8; 32], mint: &[u8; 32]) -> (r: [u8; 32])
    ensures
        r@ == associated_token_address(wallet@, mint@),
{
    spl_associated_token_account::get_associated_token_address(
        &solana_sdk::pubkey::Pubkey::new_from_array(*wallet),
        &solana_sdk::pubkey::Pubkey::new_from_array(*mint),
    ).to_bytes()
}

/// The account whose balance is the wallet's $AUDIO: the associated token
/// account of the two decoded keys, or the first decoding error (the
/// wallet's, then the mint's).
pub open spec fn spec_balance_account(wallet: Seq<char>, mint: Seq<char>) -> Result<
    Seq<u8>,
    PubkeyError,
> {
    match decoded_pubkey(wallet) {
        Err(e) => Err(e),
        Ok(w) => match decoded_pubkey(mint) {
            Err(e) => Err(e),
            Ok(m) => Ok(associated_token_address(w, m)),
        },
    }
}

/// The token account to ask the RPC for the $AUDIO balance of
/// `wallet_pubkey` (both keys in base58).
pub fn balance_account(wallet_pubkey: &str, audio_mint: &str) -> (r: Result<[u8; 32], PubkeyError>)
    ensures
        match spec_balance_account(wallet_pubkey@, audio_mint@) {
            Ok(a) => r matches Ok(account) && account@ == a,
            Err(e) => r == Err::<[u8; 32], PubkeyError>(e),
        },
{
    let wallet = parse_pubkey(wallet_pubkey)?;
    let mint = parse_pubkey(audio_mint)?;
    Ok(associated_token_account(&wallet, &mint))
}

/// A token balance: `amount` base units at `decimals` decimal places.
#[derive(Debug, Clone, Copy, PartialEq, Eq, Structural)]
pub struct TokenAmount {
    pub amount: u64,
    pub decimals: u8,
}

/// What the RPC answered when asked for the token account's balance.
pub enum BalanceReply {
    /// The account's amount (base units, in decimal) and decimals.
    Account { amount: String, decimals: u8 },
    /// The account does not exist: the wallet never held the token.
    NoAccount,
    /// The RPC could not answer (timeout, network or rate-limit error),
    /// for this reason.
    Failed(String),
}

/// The balance that the RPC's answer stands for: a missing account, or an
/// amount that is not a number, holds nothing; a failed read is an error
/// with its reason.
pub open spec fn spec_balance_of(reply: BalanceReply) -> Result<TokenAmount, Seq<char>> {
    match reply {
        BalanceReply::Account { amount, decimals } => match parse_unsigned(amount@, u64::MAX as nat) {
            Ok(n) => Ok(TokenAmount { amount: n as u64, decimals }),
            Err(_) => Ok(TokenAmount { amount: 0, decimals }),
        },
        BalanceReply::NoAccount => Ok(TokenAmount { amount: 0, decimals: 0 }),
        BalanceReply::Failed(reason) => Err(reason@),
    }
}

/// An account answer whose amount is the decimal text of a number that a
/// `u64` holds is read as exactly that many base units, at the answer's
/// decimals: no such balance is lost or cut down.
pub proof fn law_balance_is_the_account_amount(amount: String, n: u64, decimals: u8)
    requires
        amount@ == decimal(n as nat),
    ensures
        spec_balance_of((BalanceReply::Account { amount: amount, decimals: decimals }))
            == Ok::<TokenAmount, Seq<char>>((TokenAmount { amount: n, decimals: decimals })),
{
    law_parse_decimal(n as nat, u64::MAX as nat);
}

/// A wallet without a token account holds no $AUDIO, and a read that
/// failed is an error that carries the RPC's reason.
pub proof fn law_balance_without_account(reason: String)
    ensures
        spec_balance_of(BalanceReply::NoAccount) matches Ok(b) && b.amount == 0,
        spec_balance_of(BalanceReply::Failed(reason)) == Err::<TokenAmount, Seq<char>>(reason@),
{
}

/// The $AUDIO balance from the RPC's answer for the token account.
pub fn balance_of(reply: BalanceReply) -> (b: Result<TokenAmount, String>)
    ensures
        match spec_balance_of(reply) {
            Ok(amount) => b matches Ok(a) && a == amount,
            Err(reason) => b matches Err(m) && m@ == reason,
        },
{
    match reply {
        BalanceReply::Account { amount, decimals } => match parse_unsigned_str(
            amount.as_str(),
            u64::MAX,
        ) {
            Ok(n) => Ok(TokenAmount { amount: n, decimals }),
            Err(_) => Ok(TokenAmount { amount: 0, decimals }),
        },
        BalanceReply::NoAccount => Ok(TokenAmount { amount: 0, decimals: 0 }),
        BalanceReply::Failed(reason) => Err(reason),
    }
}

} // verus!
