//! HTTP status codes as the upstream services answer them.

use vstd::prelude::*;

use crate::text::decimal;

verus! {

/// The status codes that an HTTP response can carry (`http::StatusCode`
/// holds exactly these).
pub open spec fn is_status_code(code: u16) -> bool {
    100 <= code <= 999
}

/// A success status (2xx).
pub open spec fn spec_is_success(code: u16) -> bool {
    200 <= code < 300
}

/// A redirection status (3xx).
pub open spec fn spec_is_redirection(code: u16) -> bool {
    300 <= code < 400
}

/// Whether `code` is a success status (`StatusCode::is_success`).
pub fn is_success(code: u16) -> (r: bool)
    ensures
        r == spec_is_success(code),
{
    200 <= code && code < 300
}

/// Whether `code` is a redirection status (`StatusCode::is_redirection`).
pub fn is_redirection(code: u16) -> (r: bool)
    ensures
        r == spec_is_redirection(code),
{
    300 <= code && code < 400
}

/// How `http::StatusCode` displays `code`: the number, a space, and the
/// canonical reason phrase (or "<unknown status code>").
pub uninterp spec fn status_display(code: u16) -> Seq<char>;

/// `http::StatusCode::from_u16(code)` displayed with `to_string`. The
/// contract states that the text begins with the code's decimal digits and
/// a space, and names the whole text; the reason phrase, a table lookup in
/// the outside crate, is left unsaid.
#[verifier::external_body]
pub(crate) fn status_text(code: u16) -> (r: String)
    requires
        is_status_code(code),
    ensures
        r@ == status_display(code),
        r@.take(4) == decimal(code as nat) + " "@,
{
    match axum::http::StatusCode::from_u16(code) {
        Ok(status) => status.to_string(),
        Err(_) => String::new(),
    }
}

} // verus!
