use preset_gg::audius::{
    accept_chunk, audius_stream_request, check_fetch_status, finish_audio, resolve_stream_url,
};
use preset_gg::stream::stream_reply;

#[test]
fn stream_request() {
    let r = audius_stream_request("D7KyD", "");
    assert_eq!(r.url, "https://api.audius.co/v1/tracks/D7KyD/stream");
    assert!(r.api_key.is_none());
    let r = audius_stream_request("x", "key");
    assert_eq!(r.api_key.as_deref(), Some("key"));
}

#[test]
fn fetch_status() {
    assert!(check_fetch_status(200, "t").is_ok());
    assert_eq!(
        check_fetch_status(404, "t9"),
        Err("Audius returned status 404 Not Found for track t9".to_string())
    );
}

#[test]
fn chunks_within_budget() {
    let mut bytes = Vec::new();
    assert!(accept_chunk(&mut bytes, &[1, 2, 3], 5).is_ok());
    assert!(accept_chunk(&mut bytes, &[4, 5], 5).is_ok());
    assert_eq!(bytes, vec![1, 2, 3, 4, 5]);
    assert_eq!(
        accept_chunk(&mut bytes, &[6], 5),
        Err("Audio too large: exceeded 5 bytes. Select a shorter region.".to_string())
    );
    assert_eq!(bytes.len(), 6);
}

#[test]
fn empty_audio_is_refused() {
    assert_eq!(finish_audio(vec![7], "t").unwrap(), vec![7]);
    assert_eq!(
        finish_audio(Vec::new(), "abc"),
        Err("Audius returned empty audio for track abc".to_string())
    );
}

#[test]
fn resolving_the_stream_url() {
    let url = "https://api.audius.co/v1/tracks/x/stream".to_string();
    assert_eq!(
        resolve_stream_url(302, Some(Ok("https://cdn/x.mp3".to_string())), url.clone()),
        Ok("https://cdn/x.mp3".to_string())
    );
    assert_eq!(
        resolve_stream_url(302, None, url.clone()),
        Err("Audius 302 response missing Location header".to_string())
    );
    assert_eq!(
        resolve_stream_url(307, Some(Err("bad header".to_string())), url.clone()),
        Err("bad header".to_string())
    );
    assert_eq!(resolve_stream_url(200, None, url.clone()), Ok(url.clone()));
    assert_eq!(
        resolve_stream_url(500, None, url),
        Err("Unexpected Audius response status: 500 Internal Server Error".to_string())
    );
}

#[test]
fn proxy_answers() {
    let ok = stream_reply(Some(206)).ok().unwrap();
    assert_eq!(ok.status, 200);
    assert_eq!(
        ok.headers,
        vec![("Content-Type", "audio/mpeg"), ("Access-Control-Allow-Origin", "*"), ("Accept-Ranges", "bytes")]
    );
    assert_eq!(stream_reply(Some(404)).err(), Some(404));
    assert_eq!(stream_reply(Some(1000)).err(), Some(502));
    assert_eq!(stream_reply(None).err(), Some(502));
}
