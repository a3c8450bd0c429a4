//! JSON values of `serde_json`, carried through the library unread.

use vstd::prelude::*;

verus! {

/// `serde_json::Value`, declared so that signatures can carry it.
#[verifier::external_type_specification]
#[verifier::external_body]
pub struct ExJsonValue(serde_json::Value);

} // verus!
