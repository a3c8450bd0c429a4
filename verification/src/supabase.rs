//! Supabase: the generation records and preset storage. Not connected yet:
//! each operation fails with a message that says so.

use vstd::prelude::*;
use vstd::string::*;

verus! {

pub const RECORD_NOT_IMPLEMENTED: &'static str = "Supabase record_generation not yet implemented";

pub const COUNT_NOT_IMPLEMENTED: &'static str =
    "Supabase get_daily_generation_count not yet implemented";

pub const UPLOAD_NOT_IMPLEMENTED: &'static str = "Supabase upload not yet implemented";

pub const HISTORY_NOT_IMPLEMENTED: &'static str = "Supabase get_user_presets not yet implemented";

/// Record a generation in the `generations` table.
pub fn record_generation(
    _supabase_url: &str,
    _supabase_key: &str,
    _wallet_pubkey: &str,
    _preset_id: &str,
    _prompt: &str,
) -> (r: Result<(), String>)
    ensures
        r matches Err(m) && m@ == RECORD_NOT_IMPLEMENTED@,
{
    Err(String::from_str(RECORD_NOT_IMPLEMENTED))
}

/// The number of generations a wallet has made today.
pub fn get_daily_generation_count(_supabase_url: &str, _supabase_key: &str, _wallet_pubkey: &str) -> (r:
    Result<u32, String>)
    ensures
        r matches Err(m) && m@ == COUNT_NOT_IMPLEMENTED@,
{
    Err(String::from_str(COUNT_NOT_IMPLEMENTED))
}

/// Upload a preset file to the `presets` bucket, giving its public URL.
pub fn upload_preset_file(
    _supabase_url: &str,
    _supabase_key: &str,
    _file_name: &str,
    _file_data: &[u8],
) -> (r: Result<String, String>)
    ensures
        r matches Err(m) && m@ == UPLOAD_NOT_IMPLEMENTED@,
{
    Err(String::from_str(UPLOAD_NOT_IMPLEMENTED))
}

/// A wallet's generation history.
pub fn get_user_presets(_supabase_url: &str, _supabase_key: &str, _wallet_pubkey: &str) -> (r: Result<
    Vec<serde_json::Value>,
    String,
>)
    ensures
        r matches Err(m) && m@ == HISTORY_NOT_IMPLEMENTED@,
{
    Err(String::from_str(HISTORY_NOT_IMPLEMENTED))
}

} // verus!
