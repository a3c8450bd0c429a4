//! Audius: the stream URL of a track and the rules for fetching its audio
//! server-side (status, size budget, empty answers, redirects).

use vstd::prelude::*;
use vstd::string::*;

use crate::status::{is_redirection, is_status_code, is_success, spec_is_redirection,
    spec_is_success, status_display, status_text};
use crate::text::{decimal, push_decimal};

verus! {

pub const AUDIUS_TRACKS_BASE: &'static str = "https://api.audius.co/v1/tracks/";

/// "https://api.audius.co/v1/tracks/{track_id}/stream".
pub open spec fn spec_stream_url(track_id: Seq<char>) -> Seq<char> {
    AUDIUS_TRACKS_BASE@ + track_id + "/stream"@
}

/// A request for a track's audio stream: the URL, and the API key to send
/// in the `x-api-key` header when one is configured.
pub struct AudiusRequest {
    pub url: String,
    pub api_key: Option<String>,
}

/// The request for the audio stream of `track_id`; an empty API key is not
/// sent.
pub fn audius_stream_request(track_id: &str, api_key: &str) -> (r: AudiusRequest)
    ensures
        r.url@ == spec_stream_url(track_id@),
        api_key@.len() == 0 ==> r.api_key is None,
        api_key@.len() > 0 ==> (r.api_key matches Some(k) && k@ == api_key@),
{
    let mut url = String::from_str(AUDIUS_TRACKS_BASE);
    url.append(track_id);
    url.append("/stream");
    let key = if api_key.is_empty() {
        None
    } else {
        Some(String::from_str(api_key))
    };
    AudiusRequest { url, api_key: key }
}

/// "Audius returned status {status} for track {track_id}".
pub open spec fn spec_status_refused(status: u16, track_id: Seq<char>) -> Seq<char> {
    "Audius returned status "@ + status_display(status) + " for track "@ + track_id
}

/// Accept the status of the stream response: a success goes on, any other
/// status fails the fetch.
pub fn check_fetch_status(status: u16, track_id: &str) -> (r: Result<(), String>)
    requires
        is_status_code(status),
    ensures
        spec_is_success(status) ==> r is Ok,
        !spec_is_success(status) ==> (r matches Err(m) && m@ == spec_status_refused(
            status,
            track_id@,
        )),
{
    if is_success(status) {
        Ok(())
    } else {
        let mut m = String::from_str("Audius returned status ");
        m.append(status_text(status).as_str());
        m.append(" for track ");
        m.append(track_id);
        Err(m)
    }
}

/// "Audio too large: exceeded {max_bytes} bytes. Select a shorter region."
pub open spec fn spec_too_large(max_bytes: usize) -> Seq<char> {
    "Audio too large: exceeded "@ + decimal(max_bytes as nat) + " bytes. Select a shorter region."@
}

/// Append a chunk of the body to the audio read so far, refusing the audio
/// once it exceeds `max_bytes`.
pub fn accept_chunk(bytes: &mut Vec<u8>, chunk: &[u8], max_bytes: usize) -> (r: Result<(), String>)
    requires
        old(bytes)@.len() + chunk@.len() <= usize::MAX,
    ensures
        final(bytes)@ == old(bytes)@ + chunk@,
        final(bytes)@.len() <= max_bytes ==> r is Ok,
        final(bytes)@.len() > max_bytes ==> (r matches Err(m) && m@ == spec_too_large(max_bytes)),
{
    let mut i: usize = 0;
    let ghost start = bytes@;
    while i < chunk.len()
        invariant
            i <= chunk@.len(),
            bytes@ == start + chunk@.take(i as int),
        decreases chunk@.len() - i,
    {
        bytes.push(chunk[i]);
        i = i + 1;
        assert(bytes@ =~= start + chunk@.take(i as int));
    }
    assert(chunk@.take(chunk@.len() as int) =~= chunk@);
    if bytes.len() > max_bytes {
        let mut m = String::from_str("Audio too large: exceeded ");
        push_decimal(&mut m, max_bytes as u64);
        m.append(" bytes. Select a shorter region.");
        Err(m)
    } else {
        Ok(())
    }
}

/// "Audius returned empty audio for track {track_id}".
pub open spec fn spec_empty_audio(track_id: Seq<char>) -> Seq<char> {
    "Audius returned empty audio for track "@ + track_id
}

/// The audio of a finished body: refused when empty.
pub fn finish_audio(bytes: Vec<u8>, track_id: &str) -> (r: Result<Vec<u8>, String>)
    ensures
        bytes@.len() > 0 ==> (r matches Ok(b) && b@ == bytes@),
        bytes@.len() == 0 ==> (r matches Err(m) && m@ == spec_empty_audio(track_id@)),
{
    if bytes.len() == 0 {
        let mut m = String::from_str("Audius returned empty audio for track ");
        m.append(track_id);
        Err(m)
    } else {
        Ok(bytes)
    }
}

pub const MISSING_LOCATION: &'static str = "Audius 302 response missing Location header";

/// "Unexpected Audius response status: {status}".
pub open spec fn spec_unexpected_status(status: u16) -> Seq<char> {
    "Unexpected Audius response status: "@ + status_display(status)
}

/// Resolve a track's stream URL from the answer to a request that does not
/// follow redirects. `location` is the Location header: absent, or its text
/// (`Err` with the reason when it is not visible ASCII). A redirection
/// answers with that text; a success means the request URL itself serves
/// the audio; any other status fails.
pub fn resolve_stream_url(status: u16, location: Option<Result<String, String>>, url: String) -> (r:
    Result<String, String>)
    requires
        is_status_code(status),
    ensures
        spec_is_redirection(status) ==> match location {
            None => r matches Err(m) && m@ == MISSING_LOCATION@,
            Some(Err(reason)) => r == Err::<String, String>(reason),
            Some(Ok(text)) => r == Ok::<String, String>(text),
        },
        spec_is_success(status) ==> r == Ok::<String, String>(url),
        !spec_is_redirection(status) && !spec_is_success(status) ==> (r matches Err(m) && m@
            == spec_unexpected_status(status)),
{
    if is_redirection(status) {
        return match location {
            None => Err(String::from_str(MISSING_LOCATION)),
            Some(Err(reason)) => Err(reason),
            Some(Ok(text)) => Ok(text),
        };
    }
    if is_success(status) {
        return Ok(url);
    }
    let mut m = String::from_str("Unexpected Audius response status: ");
    m.append(status_text(status).as_str());
    Err(m)
}

} // verus!
