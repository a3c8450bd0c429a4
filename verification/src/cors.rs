//! The CORS policy for the frontend's origin.

use vstd::prelude::*;
use vstd::string::*;

use crate::text::{chars_of, str_equal};

verus! {

/// Which origins may call the API.
pub enum AllowedOrigin {
    /// Any origin.
    Any,
    /// Exactly this origin.
    Exact(String),
}

/// A CORS policy: the allowed origins, the allowed methods, and whether any
/// request header is allowed.
pub struct CorsPolicy {
    pub origin: AllowedOrigin,
    pub methods: Vec<&'static str>,
    pub any_headers: bool,
}

/// `c` may stand in an HTTP header value: a tab, or any character from the
/// space on but DEL (every byte of a character beyond ASCII is at least
/// 0x80, and such bytes are allowed).
pub open spec fn is_header_char(c: char) -> bool {
    c == '\t' || (c as u32 >= 32 && c as u32 != 127)
}

/// `s` is a valid HTTP header value (`http::HeaderValue::from_str`
/// accepts it).
pub open spec fn is_header_value_text(s: Seq<char>) -> bool {
    forall|i: int| 0 <= i < s.len() ==> is_header_char(#[trigger] s[i])
}

/// Whether `s` is a valid HTTP header value.
pub fn is_header_value(s: &str) -> (r: bool)
    ensures
        r == is_header_value_text(s@),
{
    let v = chars_of(s);
    let mut i: usize = 0;
    while i < v.len()
        invariant
            i <= v@.len(),
            v@ == s@,
            forall|j: int| 0 <= j < i ==> is_header_char(#[trigger] v@[j]),
        decreases v@.len() - i,
    {
        let c = v[i];
        let cu = c as u32;
        if !(c == '\t' || (cu >= 32 && cu != 127)) {
            return false;
        }
        i = i + 1;
    }
    true
}

/// The methods the frontend uses.
pub open spec fn spec_cors_methods() -> Seq<&'static str> {
    seq!["GET", "POST", "OPTIONS"]
}

/// The CORS policy for `origin`: "*" allows any origin, anything else
/// exactly that origin (which must be a valid header value); GET, POST
/// and OPTIONS with any headers either way.
pub fn cors_policy(origin: &str) -> (p: CorsPolicy)
    requires
        origin@ == "*"@ || is_header_value_text(origin@),
    ensures
        origin@ == "*"@ ==> p.origin is Any,
        origin@ != "*"@ ==> (p.origin matches AllowedOrigin::Exact(o) && o@ == origin@),
        p.methods@ == spec_cors_methods(),
        p.any_headers,
{
    let methods = vec!["GET", "POST", "OPTIONS"];
    assert(methods@ =~= spec_cors_methods());
    let allowed = if str_equal(origin, "*") {
        AllowedOrigin::Any
    } else {
        AllowedOrigin::Exact(String::from_str(origin))
    };
    CorsPolicy { origin: allowed, methods, any_headers: true }
}

} // verus!
