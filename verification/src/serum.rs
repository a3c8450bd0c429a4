//! Serum (.fxp) preset export: not implemented yet.

use vstd::prelude::*;
use vstd::string::*;

verus! {

pub const FXP_NOT_IMPLEMENTED: &'static str =
    "Serum .fxp export is experimental and not yet implemented";

/// Convert preset parameters into a Serum .fxp file; always refused for
/// now.
pub fn create_fxp_file(_preset_json: &serde_json::Value) -> (r: Result<Vec<u8>, String>)
    ensures
        r matches Err(m) && m@ == FXP_NOT_IMPLEMENTED@,
{
    Err(String::from_str(FXP_NOT_IMPLEMENTED))
}

} // verus!
