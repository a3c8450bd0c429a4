//! Preset history and downloads: GET /api/presets and
//! GET /api/presets/:id/download. Presets are not stored yet, so the
//! history is empty and no preset can be downloaded.

use vstd::prelude::*;
use vstd::string::*;

use crate::errors::AppError;

verus! {

/// One preset of a wallet's generation history.
pub struct PresetListItem {
    pub id: String,
    pub name: String,
    pub format: String,
    pub prompt: String,
    pub download_url: String,
    pub created_at: String,
}

pub const CONNECT_WALLET: &'static str = "Connect your wallet to view preset history.";

/// The wallet whose history is asked for: the `X-Wallet-Pubkey` header's
/// text, empty when the header is absent or not visible ASCII.
pub open spec fn wallet_of(header: Option<&str>) -> Seq<char> {
    match header {
        Some(w) => w@,
        None => Seq::empty(),
    }
}

/// List a wallet's preset history; `wallet_header` is the text of the
/// `X-Wallet-Pubkey` header, when present and readable. Without a wallet
/// the request is unauthorized; with one the history is empty.
pub fn list_presets(wallet_header: Option<&str>) -> (r: Result<Vec<PresetListItem>, AppError>)
    ensures
        wallet_of(wallet_header).len() == 0 ==> (r matches Err(AppError::Unauthorized(m)) && m@
            == CONNECT_WALLET@),
        wallet_of(wallet_header).len() > 0 ==> (r matches Ok(v) && v@.len() == 0),
{
    proof {
        reveal_strlit("");
    }
    let wallet = match wallet_header {
        Some(w) => w,
        None => "",
    };
    if wallet.is_empty() {
        return Err(AppError::Unauthorized(String::from_str(CONNECT_WALLET)));
    }
    Ok(Vec::new())
}

/// "Preset {id} not found. Supabase storage not yet connected."
pub open spec fn spec_preset_not_found(id: Seq<char>) -> Seq<char> {
    "Preset "@ + id + " not found. Supabase storage not yet connected."@
}

/// Download the preset `id`: not found, as presets are not stored yet.
pub fn download_preset(id: &str) -> (r: Result<serde_json::Value, AppError>)
    ensures
        r matches Err(AppError::NotFound(m)) && m@ == spec_preset_not_found(id@),
{
    let mut m = String::from_str("Preset ");
    m.append(id);
    m.append(" not found. Supabase storage not yet connected.");
    Err(AppError::NotFound(m))
}

} // verus!
