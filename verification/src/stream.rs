//! GET /api/stream/:track_id — how the audio proxy answers, given what the
//! Audius request gave back.

use vstd::prelude::*;

use crate::status::{is_status_code, is_success, spec_is_success};

verus! {

pub const STATUS_OK: u16 = 200;

pub const STATUS_BAD_GATEWAY: u16 = 502;

/// The headers of a proxied stream, in order.
pub open spec fn spec_stream_headers() -> Seq<(&'static str, &'static str)> {
    seq![("Content-Type", "audio/mpeg"), ("Access-Control-Allow-Origin", "*"), ("Accept-Ranges", "bytes")]
}

/// The answer that pipes the upstream audio through to the client.
pub struct StreamReply {
    pub status: u16,
    pub headers: Vec<(&'static str, &'static str)>,
}

/// The proxy's answer: `upstream` is the status of the Audius answer, or
/// none when the request could not be sent. A success is piped through
/// with status 200 and the stream headers; another status is passed on to
/// the client as it is (Bad Gateway if it were no status code); a failed
/// request is a Bad Gateway.
pub fn stream_reply(upstream: Option<u16>) -> (r: Result<StreamReply, u16>)
    ensures
        match upstream {
            None => r == Err::<StreamReply, u16>(STATUS_BAD_GATEWAY),
            Some(code) => if spec_is_success(code) {
                r matches Ok(reply) && reply.status == STATUS_OK && reply.headers@
                    == spec_stream_headers()
            } else if is_status_code(code) {
                r == Err::<StreamReply, u16>(code)
            } else {
                r == Err::<StreamReply, u16>(STATUS_BAD_GATEWAY)
            },
        },
{
    match upstream {
        None => Err(STATUS_BAD_GATEWAY),
        Some(code) => {
            if is_success(code) {
                let headers = vec![
                    ("Content-Type", "audio/mpeg"),
                    ("Access-Control-Allow-Origin", "*"),
                    ("Accept-Ranges", "bytes"),
                ];
                assert(headers@ =~= spec_stream_headers());
                Ok(StreamReply { status: STATUS_OK, headers })
            } else if 100 <= code && code <= 999 {
                Err(code)
            } else {
                Err(STATUS_BAD_GATEWAY)
            }
        },
    }
}

} // verus!
