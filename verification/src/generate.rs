//! POST /api/generate — the decisions of the preset generation endpoint:
//! validating the request, naming and sizing the audio, the fallbacks after
//! prompt enhancement, and assembling the response.

use vstd::prelude::*;
use vstd::string::*;

use crate::auth::{balance_failure, BALANCE_FAILURE_PREFIX};
use crate::config::MAX_AUDIO_SIZE_BYTES;
use crate::errors::AppError;
use crate::tiers::{
    daily_limit, spec_daily_limit, spec_tier_from_balance, tier_from_balance, tier_rank, UserTier,
};
use crate::token_gate::{
    balance_account, spec_balance_account, spec_pubkey_error_message, TokenAmount,
};
use crate::text::{
    chars_of, char_len_utf8, has_infix, prefix_within, str_contains,
    str_equal, trim, trimmed, utf8_len,
};

verus! {

// ── Silence for text-only prompts ────────────────────────────────────────────

/// One MPEG-1 Layer III frame header (128 kbps, 44.1 kHz, stereo) followed
/// by 44 zero bytes.
pub open spec fn silence_bytes() -> Seq<u8> {
    seq![0xFFu8, 0xFBu8, 0x90u8, 0x00u8] + Seq::new(44, |i: int| 0u8)
}

/// Generate a minimal silent audio buffer for text-only prompt mode.
pub fn generate_silence_bytes() -> (v: Vec<u8>)
    ensures
        v@ == silence_bytes(),
{
    let v: Vec<u8> = vec![0xFF, 0xFB, 0x90, 0x00, 0x00, 0x00, 0x00, 0x00, 0x00, 0x00, 0x00, 0x00, 0x00, 0x00, 0x00, 0x00, 0x00, 0x00, 0x00, 0x00, 0x00, 0x00, 0x00, 0x00, 0x00, 0x00, 0x00, 0x00, 0x00, 0x00, 0x00, 0x00, 0x00, 0x00, 0x00, 0x00, 0x00, 0x00, 0x00, 0x00, 0x00, 0x00, 0x00, 0x00, 0x00, 0x00, 0x00, 0x00];
    assert(v@ =~= silence_bytes());
    v
}

// ── Request validation ───────────────────────────────────────────────────────

/// Unicode lowercase mapping of a string, as `str::to_lowercase` computes it.
pub uninterp spec fn unicode_lowercase(s: Seq<char>) -> Seq<char>;

/// Every character of `s` is ASCII.
pub open spec fn is_ascii_text(s: Seq<char>) -> bool {
    forall|i: int| 0 <= i < s.len() ==> (#[trigger] s[i] as u32) < 0x80
}

/// The ASCII lowercase of a character: A–Z become a–z, any other is kept.
pub open spec fn ascii_lower_char(c: char) -> char {
    if 'A' as u32 <= c as u32 <= 'Z' as u32 {
        ((c as u32) + 32) as char
    } else {
        c
    }
}

/// `s` with each character lowercased as ASCII.
pub open spec fn ascii_lowercase(s: Seq<char>) -> Seq<char> {
    s.map_values(|c: char| ascii_lower_char(c))
}

/// `str::to_lowercase`. Stated: the result is the Unicode lowercase mapping
/// of the text, named `unicode_lowercase`; on ASCII text it maps A–Z to
/// a–z and keeps every other character, as the standard library documents.
/// What the mapping does beyond ASCII is left to the standard library.
#[verifier::external_body]
fn to_lowercase(s: &str) -> (r: String)
    ensures
        r@ == unicode_lowercase(s@),
        is_ascii_text(s@) ==> r@ == ascii_lowercase(s@),
{
    s.to_lowercase()
}

/// A generation request that passed validation.
pub struct ValidRequest {
    /// The trimmed prompt, possibly empty.
    pub prompt: String,
    /// The trimmed track ID, possibly empty.
    pub track_id: String,
    /// The output format, lowercased: "vital" or "fxp".
    pub format: String,
}

pub const MISSING_INPUT: &'static str = "At least one of 'prompt' or 'track_id' is required";

pub const BAD_FORMAT: &'static str = "format must be 'vital' or 'fxp'";

/// The text of an optional field, or `default` when it is absent.
pub open spec fn field_or(v: Option<&str>, default: Seq<char>) -> Seq<char> {
    match v {
        Some(s) => s@,
        None => default,
    }
}

/// The output formats the API produces.
pub open spec fn is_known_format(format: Seq<char>) -> bool {
    format == "vital"@ || format == "fxp"@
}

/// Whether the (lowercased) format is one the API produces: "vital" or
/// "fxp".
pub fn is_supported_format(format: &str) -> (r: bool)
    ensures
        r == is_known_format(format@),
{
    str_equal(format, "vital") || str_equal(format, "fxp")
}

/// The request is refused when both the trimmed prompt and the trimmed
/// track ID are empty, else when the lowercased format (by default
/// "vital") is neither "vital" nor "fxp".
pub open spec fn spec_validate(prompt: Option<&str>, track_id: Option<&str>, format: Option<&str>) -> Result<
    (Seq<char>, Seq<char>, Seq<char>),
    Seq<char>,
> {
    let p = trimmed(field_or(prompt, Seq::empty()));
    let t = trimmed(field_or(track_id, Seq::empty()));
    let f = unicode_lowercase(field_or(format, "vital"@));
    if p.len() == 0 && t.len() == 0 {
        Err(MISSING_INPUT@)
    } else if !is_known_format(f) {
        Err(BAD_FORMAT@)
    } else {
        Ok((p, t, f))
    }
}

/// Validate the fields of a generation request.
pub fn validate_generate_request(
    prompt: Option<&str>,
    track_id: Option<&str>,
    format: Option<&str>,
) -> (r: Result<ValidRequest, AppError>)
    ensures
        match spec_validate(prompt, track_id, format) {
            Ok((p, t, f)) => r matches Ok(v) && v.prompt@ == p && v.track_id@ == t && v.format@
                == f,
            Err(msg) => r matches Err(AppError::BadRequest(m)) && m@ == msg,
        },
{
    proof {
        reveal_strlit("");
    }
    let p = trim(
        match prompt {
            Some(s) => s,
            None => "",
        },
    );
    let t = trim(
        match track_id {
            Some(s) => s,
            None => "",
        },
    );
    if p.is_empty() && t.is_empty() {
        return Err(AppError::BadRequest(String::from_str(MISSING_INPUT)));
    }
    let f = to_lowercase(
        match format {
            Some(s) => s,
            None => "vital",
        },
    );
    if !is_supported_format(f.as_str()) {
        return Err(AppError::BadRequest(String::from_str(BAD_FORMAT)));
    }
    Ok(ValidRequest { prompt: String::from_str(p), track_id: String::from_str(t), format: f })
}

// ── Audio ────────────────────────────────────────────────────────────────────

pub const AUDIO_TOO_LARGE: &'static str =
    "Audio too large. Please select a shorter region using the focus window.";

pub const AUDIUS_FAILURE_PREFIX: &'static str = "Failed to fetch audio from Audius: ";

/// `e` is the error answered when fetching the track's audio failed with
/// `message`: the size complaint when the message says the audio is too
/// large, else an internal error quoting it.
pub open spec fn is_audius_fetch_error(e: AppError, message: Seq<char>) -> bool {
    if has_infix(message, "too large"@) {
        e matches AppError::BadRequest(m) && m@ == AUDIO_TOO_LARGE@
    } else {
        e matches AppError::Internal(m) && m@ == AUDIUS_FAILURE_PREFIX@ + message
    }
}

/// The error answered when fetching the track's audio failed with `message`.
pub fn audius_fetch_error(message: &str) -> (e: AppError)
    ensures
        is_audius_fetch_error(e, message@),
{
    if str_contains(message, "too large") {
        AppError::BadRequest(String::from_str(AUDIO_TOO_LARGE))
    } else {
        let mut m = String::from_str(AUDIUS_FAILURE_PREFIX);
        m.append(message);
        AppError::Internal(m)
    }
}

/// Refuse audio larger than the budget.
pub fn check_audio_size(len: usize) -> (r: Result<(), AppError>)
    ensures
        len <= MAX_AUDIO_SIZE_BYTES ==> r is Ok,
        len > MAX_AUDIO_SIZE_BYTES ==> (r matches Err(AppError::BadRequest(m)) && m@
            == AUDIO_TOO_LARGE@),
{
    if len > MAX_AUDIO_SIZE_BYTES {
        Err(AppError::BadRequest(String::from_str(AUDIO_TOO_LARGE)))
    } else {
        Ok(())
    }
}

// ── Byte prefixes ────────────────────────────────────────────────────────────

/// The first `n` bytes of `s`, or all of it when shorter (`&s[..n.min(len)]`).
pub open spec fn byte_prefix(s: Seq<char>, n: nat) -> Seq<char> {
    s.take(prefix_within(s, n as int) as int)
}

/// Cutting `s` after `n` bytes does not split a character.
pub open spec fn cuts_on_boundary(s: Seq<char>, n: nat) -> bool {
    utf8_len(s) <= n || utf8_len(byte_prefix(s, n)) == n
}

/// The first `n` bytes of `s`, or all of it when shorter; slicing panics
/// when that would split a character, so such inputs are excluded.
pub fn str_prefix_bytes(s: &str, n: usize) -> (r: &str)
    requires
        cuts_on_boundary(s@, n as nat),
    ensures
        r@ == byte_prefix(s@, n as nat),
{
    let v = chars_of(s);
    let mut k: usize = 0;
    let mut used: usize = 0;
    assert(v@.skip(0) =~= v@);
    while k < v.len() && char_len_utf8(v[k]) <= n - used
        invariant
            k <= v@.len(),
            used <= n,
            prefix_within(v@, n as int) == k + prefix_within(v@.skip(k as int), n - used),
        decreases v@.len() - k,
    {
        proof {
            let rest = v@.skip(k as int);
            assert(rest[0] == v@[k as int]);
            assert(rest.drop_first() =~= v@.skip(k + 1));
        }
        used = used + char_len_utf8(v[k]);
        k = k + 1;
    }
    proof {
        let rest = v@.skip(k as int);
        if k < v@.len() {
            assert(rest[0] == v@[k as int]);
        }
        assert(prefix_within(rest, n - used) == 0);
    }
    s.substring_char(0, k)
}

/// The title used for a track's preset: "Track " and the first eight bytes
/// of its ID.
pub open spec fn spec_track_title(track_id: Seq<char>) -> Seq<char> {
    "Track "@ + byte_prefix(track_id, 8)
}

/// The title of the preset made from a track.
pub fn track_title(track_id: &str) -> (title: String)
    requires
        cuts_on_boundary(track_id@, 8),
    ensures
        title@ == spec_track_title(track_id@),
{
    let mut title = String::from_str("Track ");
    title.append(str_prefix_bytes(track_id, 8));
    title
}

// ── After prompt enhancement ─────────────────────────────────────────────────

/// The category that selects the Init template.
pub const INIT_CATEGORY: &'static str = "init";

/// The prompt and seed category that generation goes on with: the enhanced
/// description and its category when enhancement succeeded, else the
/// user's own prompt with the Init template.
pub fn prompt_and_seed(prompt: String, enhancement: Option<(String, String)>) -> (r: (String, String))
    ensures
        match enhancement {
            Some((d, c)) => r.0 == d && r.1 == c,
            None => r.0 == prompt && r.1@ == INIT_CATEGORY@,
        },
{
    match enhancement {
        Some((d, c)) => (d, c),
        None => (prompt, String::from_str(INIT_CATEGORY)),
    }
}


// ── Response ─────────────────────────────────────────────────────────────────

/// The character of the standard base64 alphabet for the six-bit value `v`.
pub open spec fn base64_char(v: nat) -> char {
    if v < 26 {
        ('A' as u32 + v) as char
    } else if v < 52 {
        ('a' as u32 + (v - 26)) as char
    } else if v < 62 {
        ('0' as u32 + (v - 52)) as char
    } else if v == 62 {
        '+'
    } else {
        '/'
    }
}

/// Standard base64 (RFC 4648, with `=` padding) of `data`: each group of
/// three bytes becomes four characters of six bits each; a final group of
/// one or two bytes is padded with zero bits and one or two `=`.
pub open spec fn base64_standard(data: Seq<u8>) -> Seq<char>
    decreases data.len(),
{
    if data.len() == 0 {
        seq![]
    } else if data.len() == 1 {
        seq![base64_char(data[0] as nat / 4), base64_char((data[0] as nat % 4) * 16), '=', '=']
    } else if data.len() == 2 {
        seq![
            base64_char(data[0] as nat / 4),
            base64_char((data[0] as nat % 4) * 16 + data[1] as nat / 16),
            base64_char((data[1] as nat % 16) * 4),
            '=',
        ]
    } else {
        seq![
            base64_char(data[0] as nat / 4),
            base64_char((data[0] as nat % 4) * 16 + data[1] as nat / 16),
            base64_char((data[1] as nat % 16) * 4 + data[2] as nat / 64),
            base64_char(data[2] as nat % 64),
        ] + base64_standard(data.skip(3))
    }
}

/// The six-bit value of a character of the standard base64 alphabet.
pub open spec fn base64_value(c: char) -> nat {
    let u = c as u32;
    if 'A' as u32 <= u <= 'Z' as u32 {
        (u - 'A' as u32) as nat
    } else if 'a' as u32 <= u <= 'z' as u32 {
        (u - 'a' as u32 + 26) as nat
    } else if '0' as u32 <= u <= '9' as u32 {
        (u - '0' as u32 + 52) as nat
    } else if c == '+' {
        62
    } else {
        63
    }
}

/// Standard base64 text decoded: each group of four characters gives three
/// bytes, or fewer when the group ends in `=` padding.
pub open spec fn base64_decoded(s: Seq<char>) -> Seq<u8>
    decreases s.len(),
{
    if s.len() < 4 {
        seq![]
    } else {
        let v0 = base64_value(s[0]);
        let v1 = base64_value(s[1]);
        let v2 = base64_value(s[2]);
        let v3 = base64_value(s[3]);
        let b0 = (v0 * 4 + v1 / 16) as u8;
        let b1 = ((v1 % 16) * 16 + v2 / 4) as u8;
        let b2 = ((v2 % 4) * 64 + v3) as u8;
        let group = if s[2] == '=' {
            seq![b0]
        } else if s[3] == '=' {
            seq![b0, b1]
        } else {
            seq![b0, b1, b2]
        };
        group + base64_decoded(s.skip(4))
    }
}

proof fn lemma_base64_char(v: nat)
    requires
        v < 64,
    ensures
        base64_value(base64_char(v)) == v,
        base64_char(v) != '=',
{
}

proof fn lemma_base64_bytes(d0: u8, d1: u8, d2: u8)
    ensures
        (d0 as nat / 4) * 4 + ((d0 as nat % 4) * 16 + d1 as nat / 16) / 16 == d0,
        (((d0 as nat % 4) * 16 + d1 as nat / 16) % 16) * 16 + ((d1 as nat % 16) * 4 + d2 as nat
            / 64) / 4 == d1,
        (((d1 as nat % 16) * 4 + d2 as nat / 64) % 4) * 64 + d2 as nat % 64 == d2,
        (d0 as nat % 4) * 16 + d1 as nat / 16 < 64,
        (d1 as nat % 16) * 4 + d2 as nat / 64 < 64,
        (d0 as nat / 4) * 4 + ((d0 as nat % 4) * 16) / 16 == d0,
        (d0 as nat % 4) * 16 < 64,
        (d1 as nat % 16) * 4 < 64,
{
    assert((d0 as u32 / 4) * 4 + ((d0 as u32 % 4) * 16 + d1 as u32 / 16) / 16 == d0 as u32)
        by (bit_vector)
        requires
            d0 < 256,
            d1 < 256,
    ;
    assert((((d0 as u32 % 4) * 16 + d1 as u32 / 16) % 16) * 16 + ((d1 as u32 % 16) * 4
        + d2 as u32 / 64) / 4 == d1 as u32) by (bit_vector)
        requires
            d0 < 256,
            d1 < 256,
            d2 < 256,
    ;
    assert((((d1 as u32 % 16) * 4 + d2 as u32 / 64) % 4) * 64 + d2 as u32 % 64 == d2 as u32)
        by (bit_vector)
        requires
            d1 < 256,
            d2 < 256,
    ;
    assert((d0 as u32 / 4) * 4 + ((d0 as u32 % 4) * 16) / 16 == d0 as u32) by (bit_vector)
        requires
            d0 < 256,
    ;
}

/// Decoding the standard base64 of any bytes gives the bytes back: the
/// preset file sent inline as base64 is exactly the generated file.
pub proof fn law_base64_round_trip(data: Seq<u8>)
    ensures
        base64_decoded(base64_standard(data)) == data,
    decreases data.len(),
{
    let s = base64_standard(data);
    if data.len() == 0 {
    } else if data.len() == 1 {
        let d0 = data[0];
        lemma_base64_bytes(d0, 0, 0);
        lemma_base64_char(d0 as nat / 4);
        lemma_base64_char((d0 as nat % 4) * 16);
        assert(s.skip(4) =~= Seq::<char>::empty());
        assert(s.len() == 4);
        assert(s[2] == '=');
        assert(base64_value(s[0]) == d0 as nat / 4);
        assert(base64_value(s[1]) == (d0 as nat % 4) * 16);
        assert(base64_decoded(s.skip(4)) =~= Seq::<u8>::empty());
        assert(base64_decoded(s) =~= seq![d0] + base64_decoded(s.skip(4)));
        assert(base64_decoded(s) =~= data);
    } else if data.len() == 2 {
        let d0 = data[0];
        let d1 = data[1];
        lemma_base64_bytes(d0, d1, 0);
        lemma_base64_char(d0 as nat / 4);
        lemma_base64_char((d0 as nat % 4) * 16 + d1 as nat / 16);
        lemma_base64_char((d1 as nat % 16) * 4);
        assert(s.skip(4) =~= Seq::<char>::empty());
        assert(s.len() == 4);
        assert(s[2] != '=' && s[3] == '=');
        assert(base64_value(s[0]) == d0 as nat / 4);
        assert(base64_value(s[1]) == (d0 as nat % 4) * 16 + d1 as nat / 16);
        assert(base64_value(s[2]) == (d1 as nat % 16) * 4);
        assert(base64_decoded(s.skip(4)) =~= Seq::<u8>::empty());
        assert(base64_decoded(s) =~= seq![d0, d1] + base64_decoded(s.skip(4)));
        assert(base64_decoded(s) =~= data);
    } else {
        let d0 = data[0];
        let d1 = data[1];
        let d2 = data[2];
        lemma_base64_bytes(d0, d1, d2);
        lemma_base64_char(d0 as nat / 4);
        lemma_base64_char((d0 as nat % 4) * 16 + d1 as nat / 16);
        lemma_base64_char((d1 as nat % 16) * 4 + d2 as nat / 64);
        lemma_base64_char(d2 as nat % 64);
        let rest = base64_standard(data.skip(3));
        assert(s.skip(4) =~= rest);
        law_base64_round_trip(data.skip(3));
        assert(base64_decoded(s) =~= data);
    }
}

/// `base64::engine::general_purpose::STANDARD.encode`: standard base64 with
/// padding. It panics when the encoded length overflows `usize`, which the
/// precondition excludes.
#[verifier::external_body]
pub(crate) fn encode_base64(data: &[u8]) -> (r: String)
    requires
        4 * ((data@.len() + 2) / 3) <= usize::MAX,
    ensures
        r@ == base64_standard(data@),
{
    base64::Engine::encode(&base64::engine::general_purpose::STANDARD, data)
}

/// `c` is a lowercase hexadecimal digit.
pub open spec fn is_lower_hex(c: char) -> bool {
    ('0' as u32 <= c as u32 <= '9' as u32) || ('a' as u32 <= c as u32 <= 'f' as u32)
}

/// `s` is the lowercase hyphenated text of a random (version 4, RFC 4122
/// variant) UUID: 8-4-4-4-12 hexadecimal digits.
pub open spec fn is_v4_uuid_text(s: Seq<char>) -> bool {
    &&& s.len() == 36
    &&& forall|i: int|
        0 <= i < 36 ==> if i == 8 || i == 13 || i == 18 || i == 23 {
            #[trigger] s[i] == '-'
        } else {
            is_lower_hex(s[i])
        }
    &&& s[14] == '4'
    &&& s[19] == '8' || s[19] == '9' || s[19] == 'a' || s[19] == 'b'
}

/// `uuid::Uuid::new_v4().to_string()`: a fresh random UUID in lowercase
/// hyphenated form. Which UUID comes back is left open; its form is stated.
#[verifier::external_body]
fn new_preset_id() -> (id: String)
    ensures
        is_v4_uuid_text(id@),
{
    uuid::Uuid::new_v4().to_string()
}

/// Response body for POST /api/generate.
pub struct GenerateResponse {
    pub preset_id: String,
    pub download_url: String,
    pub file_name: String,
    pub format: String,
    /// Base64-encoded .vital file bytes for direct client-side download.
    pub preset_data: String,
    /// How many generations the user has used in the current 24h window.
    pub generations_used: u32,
    /// Maximum generations allowed in the 24h window.
    pub generations_limit: u32,
}

/// "preset_{first eight bytes of the ID}.vital".
pub open spec fn spec_file_name(preset_id: Seq<char>) -> Seq<char> {
    "preset_"@ + byte_prefix(preset_id, 8) + ".vital"@
}

/// "/api/presets/{id}/download".
pub open spec fn spec_download_url(preset_id: Seq<char>) -> Seq<char> {
    "/api/presets/"@ + preset_id + "/download"@
}

proof fn lemma_ascii_prefix_within(s: Seq<char>, n: int)
    requires
        0 <= n <= s.len(),
        forall|i: int| 0 <= i < n ==> (#[trigger] s[i] as u32) < 0x80,
    ensures
        prefix_within(s, n) == n,
        utf8_len(s.take(n)) == n,
    decreases n,
{
    if n > 0 {
        let t = s.drop_first();
        assert forall|i: int| 0 <= i < n - 1 implies (#[trigger] t[i] as u32) < 0x80 by {
            assert(t[i] == s[i + 1]);
        }
        lemma_ascii_prefix_within(t, n - 1);
        assert(s.take(n).drop_first() =~= t.take(n - 1));
        assert(s.take(n)[0] == s[0]);
    } else {
        assert(s.take(0) =~= Seq::<char>::empty());
    }
}

/// Name a preset file after its ID.
pub fn preset_file_name(preset_id: &str) -> (name: String)
    requires
        utf8_len(preset_id@) >= 8,
        cuts_on_boundary(preset_id@, 8),
    ensures
        name@ == spec_file_name(preset_id@),
{
    let mut name = String::from_str("preset_");
    name.append(str_prefix_bytes(preset_id, 8));
    name.append(".vital");
    name
}

/// The download URL of a preset.
pub fn download_url(preset_id: &str) -> (url: String)
    ensures
        url@ == spec_download_url(preset_id@),
{
    let mut url = String::from_str("/api/presets/");
    url.append(preset_id);
    url.append("/download");
    url
}

/// Assemble the response for a generated preset: a fresh ID, the file name
/// and download URL derived from it, and the file's bytes in base64.
pub fn build_generate_response(vital_bytes: &Vec<u8>, format: String, used: u32, limit: u32) -> (r:
    GenerateResponse)
    requires
        4 * ((vital_bytes@.len() + 2) / 3) <= usize::MAX,
    ensures
        is_v4_uuid_text(r.preset_id@),
        r.file_name@ == spec_file_name(r.preset_id@),
        r.download_url@ == spec_download_url(r.preset_id@),
        r.format == format,
        r.preset_data@ == base64_standard(vital_bytes@),
        r.generations_used == used,
        r.generations_limit == limit,
{
    let preset_data = encode_base64(vital_bytes.as_slice());
    let preset_id = new_preset_id();
    proof {
        let s = preset_id@;
        assert forall|i: int| 0 <= i < 8 implies (#[trigger] s[i] as u32) < 0x80 by {
            assert(is_lower_hex(s[i]));
        }
        lemma_ascii_prefix_within(s, 8);
        lemma_utf8_len_take(s, 8);
    }
    let file_name = preset_file_name(preset_id.as_str());
    let download_url = download_url(preset_id.as_str());
    GenerateResponse {
        preset_id,
        download_url,
        file_name,
        format,
        preset_data,
        generations_used: used,
        generations_limit: limit,
    }
}

proof fn lemma_utf8_len_take(s: Seq<char>, n: int)
    requires
        0 <= n <= s.len(),
    ensures
        utf8_len(s) >= utf8_len(s.take(n)),
{
    crate::text::lemma_utf8_len_concat(s.take(n), s.skip(n));
    assert(s.take(n) + s.skip(n) =~= s);
}


// ── The generation pipeline ──────────────────────────────────────────────────

/// Where a generation stands.
#[derive(Debug, Clone, Copy, PartialEq, Eq, Structural)]
pub enum GenerateStage {
    /// Waiting for the $AUDIO balance of the caller's wallet.
    Wallet,
    /// Waiting for the rate limiter's answer.
    Quota,
    /// Waiting for the track's audio, or the silence of a text-only prompt.
    Audio,
    /// Waiting for the prompt enhancement.
    Enhancement,
    /// Waiting for Gemini's parameters.
    Generation,
    /// Waiting for the merged .vital file.
    Merge,
    /// Answered.
    Done,
}

/// What the caller reports back after performing an action.
pub enum GenerateEvent {
    /// The wallet's $AUDIO balance, or why it could not be read.
    BalanceRead(Result<TokenAmount, String>),
    /// The rate limiter's answer: `(used, limit)` or its refusal.
    QuotaChecked(Result<(u32, u32), AppError>),
    /// The size of the audio obtained, or why fetching it failed.
    AudioReady(Result<usize, String>),
    /// The enhanced description and seed category, or none when the
    /// enhancement failed.
    Enhanced(Option<(String, String)>),
    /// Gemini produced the parameters, or why it did not.
    Generated(Result<(), String>),
    /// The .vital file, or why merging failed.
    Merged(Result<Vec<u8>, String>),
}

/// What the caller performs next.
pub enum GenerateAction {
    /// Read the $AUDIO balance of this token account.
    ReadBalance { account: [u8; 32] },
    /// Check and record the client's quota against this daily limit.
    CheckQuota { limit: u32 },
    /// Fetch the track's audio from Audius.
    FetchAudio { track_id: String },
    /// Use the silent audio of a text-only prompt.
    UseSilence,
    /// Enhance the prompt with Gemini Flash, sending the audio when the
    /// request names a track.
    Enhance { prompt: String, with_audio: bool },
    /// Send the audio and prompt to Gemini for parameters.
    Generate { prompt: String },
    /// Merge Gemini's parameters into the template file.
    Merge { template_file: &'static str, prompt: String, track_title: Option<String> },
    /// Answer with the preset.
    Respond(GenerateResponse),
    /// Answer with an error.
    Fail(AppError),
}

/// A generation in progress.
pub struct GenerateFlow {
    pub stage: GenerateStage,
    pub request: ValidRequest,
    /// The caller's tier: Unauthenticated without a wallet.
    pub tier: UserTier,
    pub generations_used: u32,
    pub generations_limit: u32,
    pub track_title: Option<String>,
    /// The prompt sent to Gemini: the enhanced one once enhancement is done.
    pub prompt: String,
    pub seed_category: String,
}

/// Whether `event` answers the action issued at `stage`.
pub open spec fn expects(stage: GenerateStage, event: GenerateEvent) -> bool {
    match event {
        GenerateEvent::BalanceRead(_) => stage == GenerateStage::Wallet,
        GenerateEvent::QuotaChecked(_) => stage == GenerateStage::Quota,
        GenerateEvent::AudioReady(_) => stage == GenerateStage::Audio,
        GenerateEvent::Enhanced(_) => stage == GenerateStage::Enhancement,
        GenerateEvent::Generated(_) => stage == GenerateStage::Generation,
        GenerateEvent::Merged(_) => stage == GenerateStage::Merge,
    }
}

pub const GENERATION_FAILED_PREFIX: &'static str = "AI generation failed: ";

pub const GENERATION_FAILED_SUFFIX: &'static str = ". Try a different prompt or track.";

pub const MERGE_FAILED_PREFIX: &'static str = "Preset generation failed: ";

pub const SERUM_NEEDS_PRO: &'static str =
    "Serum .fxp export requires the Pro tier. Hold 100+ $AUDIO to unlock Pro.";

pub const CONNECT_WALLET_FOR_MORE: &'static str =
    "Connect your Solana wallet to unlock more generations";

/// The caller may have presets in `format`: Serum (.fxp) needs the Pro
/// tier or above; Vital is open to every caller.
pub open spec fn format_allowed(tier: UserTier, format: Seq<char>) -> bool {
    format == "fxp"@ ==> tier_rank(tier) >= tier_rank(UserTier::Pro)
}

/// Whether the caller's tier allows `format`.
pub fn is_format_allowed(tier: &UserTier, format: &str) -> (r: bool)
    ensures
        r == format_allowed(*tier, format@),
{
    if str_equal(format, "fxp") {
        match tier {
            UserTier::Pro | UserTier::Studio => true,
            _ => false,
        }
    } else {
        true
    }
}

/// The step taken from `before` on `event`: the state `after` and the
/// action that follows.
pub open spec fn stepped(
    before: GenerateFlow,
    event: GenerateEvent,
    after: GenerateFlow,
    action: GenerateAction,
) -> bool {
    let has_track = before.request.track_id@.len() > 0;
    match event {
        // A balance that cannot be read fails the request.
        GenerateEvent::BalanceRead(Err(reason)) => {
            &&& after.stage == GenerateStage::Done
            &&& action matches GenerateAction::Fail(AppError::Internal(m))
            &&& m@ == BALANCE_FAILURE_PREFIX@ + reason@
        },
        // The balance sets the tier; Serum below Pro is forbidden, else the
        // quota of the tier is checked.
        GenerateEvent::BalanceRead(Ok(b)) => {
            let tier = spec_tier_from_balance(b.amount, b.decimals);
            if format_allowed(tier, before.request.format@) {
                &&& after.stage == GenerateStage::Quota
                &&& after.tier == tier
                &&& action == (GenerateAction::CheckQuota { limit: spec_daily_limit(tier) })
            } else {
                &&& after.stage == GenerateStage::Done
                &&& action matches GenerateAction::Fail(AppError::Forbidden(m))
                &&& m@ == SERUM_NEEDS_PRO@
            }
        },
        // A refused quota is the answer; nothing else happens. Without a
        // wallet the answer asks the caller to connect one.
        GenerateEvent::QuotaChecked(Err(e)) => {
            &&& after.stage == GenerateStage::Done
            &&& if before.tier == UserTier::Unauthenticated {
                action matches GenerateAction::Fail(AppError::RateLimited(m))
                    && m@ == CONNECT_WALLET_FOR_MORE@
            } else {
                action == GenerateAction::Fail(e)
            }
        },
        // An accepted quota is recorded, then the audio is obtained.
        GenerateEvent::QuotaChecked(Ok((used, limit))) => {
            &&& after.stage == GenerateStage::Audio
            &&& after.generations_used == used
            &&& after.generations_limit == limit
            &&& if has_track {
                action matches GenerateAction::FetchAudio { track_id } && track_id@
                    == before.request.track_id@
            } else {
                action is UseSilence
            }
        },
        GenerateEvent::AudioReady(Err(msg)) => {
            &&& after.stage == GenerateStage::Done
            &&& action matches GenerateAction::Fail(e)
            &&& is_audius_fetch_error(e, msg@)
        },
        GenerateEvent::AudioReady(Ok(len)) => {
            &&& if has_track {
                after.track_title matches Some(t) && t@ == spec_track_title(
                    before.request.track_id@,
                )
            } else {
                after.track_title is None
            }
            &&& after.generations_used == before.generations_used
            &&& after.generations_limit == before.generations_limit
            &&& if len > MAX_AUDIO_SIZE_BYTES {
                &&& after.stage == GenerateStage::Done
                &&& action matches GenerateAction::Fail(AppError::BadRequest(m))
                &&& m@ == AUDIO_TOO_LARGE@
            } else if before.request.prompt@.len() > 0 {
                &&& after.stage == GenerateStage::Enhancement
                &&& action matches GenerateAction::Enhance { prompt, with_audio }
                &&& prompt == before.request.prompt
                &&& with_audio == has_track
            } else {
                &&& after.stage == GenerateStage::Generation
                &&& after.prompt == before.request.prompt
                &&& after.seed_category@ == INIT_CATEGORY@
                &&& action matches GenerateAction::Generate { prompt }
                &&& prompt == before.request.prompt
            }
        },
        // A failed enhancement falls back to the user's prompt and the
        // Init template.
        GenerateEvent::Enhanced(e) => {
            let (p, c) = match e {
                Some((d, c)) => (d@, c@),
                None => (before.request.prompt@, INIT_CATEGORY@),
            };
            &&& after.stage == GenerateStage::Generation
            &&& after.prompt@ == p
            &&& after.seed_category@ == c
            &&& after.track_title == before.track_title
            &&& after.generations_used == before.generations_used
            &&& after.generations_limit == before.generations_limit
            &&& action matches GenerateAction::Generate { prompt }
            &&& prompt@ == p
        },
        GenerateEvent::Generated(Err(msg)) => {
            &&& after.stage == GenerateStage::Done
            &&& action matches GenerateAction::Fail(AppError::Internal(m))
            &&& m@ == GENERATION_FAILED_PREFIX@ + msg@ + GENERATION_FAILED_SUFFIX@
        },
        GenerateEvent::Generated(Ok(())) => {
            &&& after.stage == GenerateStage::Merge
            &&& after.prompt == before.prompt
            &&& after.track_title == before.track_title
            &&& after.generations_used == before.generations_used
            &&& after.generations_limit == before.generations_limit
            &&& action matches GenerateAction::Merge { template_file, prompt, track_title }
            &&& template_file == crate::schema::seed_file_in(
                crate::schema::seed_table(),
                before.seed_category@,
            )
            &&& prompt == before.prompt
            &&& track_title == before.track_title
        },
        GenerateEvent::Merged(Err(msg)) => {
            &&& after.stage == GenerateStage::Done
            &&& action matches GenerateAction::Fail(AppError::Internal(m))
            &&& m@ == MERGE_FAILED_PREFIX@ + msg@
        },
        GenerateEvent::Merged(Ok(bytes)) => {
            &&& after.stage == GenerateStage::Done
            &&& action matches GenerateAction::Respond(resp)
            &&& is_v4_uuid_text(resp.preset_id@)
            &&& resp.file_name@ == spec_file_name(resp.preset_id@)
            &&& resp.download_url@ == spec_download_url(resp.preset_id@)
            &&& resp.format == before.request.format
            &&& resp.preset_data@ == base64_standard(bytes@)
            &&& resp.generations_used == before.generations_used
            &&& resp.generations_limit == before.generations_limit
        },
    }
}

/// The order of the stages a generation goes through.
pub open spec fn stage_rank(stage: GenerateStage) -> nat {
    match stage {
        GenerateStage::Wallet => 0,
        GenerateStage::Quota => 1,
        GenerateStage::Audio => 2,
        GenerateStage::Enhancement => 3,
        GenerateStage::Generation => 4,
        GenerateStage::Merge => 5,
        GenerateStage::Done => 6,
    }
}

/// Every step moves a generation to a later stage, so a generation is
/// answered after at most six steps.
pub proof fn law_pipeline_moves_forward(
    before: GenerateFlow,
    event: GenerateEvent,
    after: GenerateFlow,
    action: GenerateAction,
)
    requires
        expects(before.stage, event),
        stepped(before, event, after, action),
    ensures
        stage_rank(after.stage) > stage_rank(before.stage),
{
}

/// Audio is fetched only once the rate limiter has accepted the request,
/// and a refused request is answered with an error and nothing else
/// happens.
pub proof fn law_quota_before_audio(
    before: GenerateFlow,
    event: GenerateEvent,
    after: GenerateFlow,
    action: GenerateAction,
)
    requires
        expects(before.stage, event),
        stepped(before, event, after, action),
    ensures
        (action is FetchAudio || action is UseSilence) <==> (event matches GenerateEvent::QuotaChecked(
            Ok(_),
        )),
        event matches GenerateEvent::QuotaChecked(Err(_)) ==> action is Fail && after.stage
            == GenerateStage::Done,
{
}

/// Every failure answers the request and ends the generation.
pub proof fn law_failure_ends(
    before: GenerateFlow,
    event: GenerateEvent,
    after: GenerateFlow,
    action: GenerateAction,
)
    requires
        expects(before.stage, event),
        stepped(before, event, after, action),
    ensures
        (action is Fail || action is Respond) <==> after.stage == GenerateStage::Done,
{
}

/// Once the rate limiter has answered, the counts it granted are carried
/// through every later step, and the response reports them.
pub proof fn law_counts_carried(
    before: GenerateFlow,
    event: GenerateEvent,
    after: GenerateFlow,
    action: GenerateAction,
)
    requires
        expects(before.stage, event),
        stepped(before, event, after, action),
        before.stage != GenerateStage::Wallet,
        before.stage != GenerateStage::Quota,
    ensures
        after.stage != GenerateStage::Done ==> after.generations_used == before.generations_used
            && after.generations_limit == before.generations_limit,
        action matches GenerateAction::Respond(resp) ==> resp.generations_used
            == before.generations_used && resp.generations_limit == before.generations_limit,
{
}

/// The wallet named by an optional field: trimmed, empty when absent.
pub open spec fn wallet_of(wallet_pubkey: Option<&str>) -> Seq<char> {
    trimmed(field_or(wallet_pubkey, Seq::empty()))
}

/// No Serum export below Pro: whenever the pipeline goes on to the quota,
/// the caller's tier allows the requested format.
pub proof fn law_serum_only_from_pro(
    before: GenerateFlow,
    event: GenerateEvent,
    after: GenerateFlow,
    action: GenerateAction,
)
    requires
        expects(before.stage, event),
        stepped(before, event, after, action),
        event is BalanceRead,
        action is CheckQuota,
    ensures
        format_allowed(after.tier, before.request.format@),
{
}

/// Serum export follows the order of the tiers: a format that a tier may
/// export, every tier of equal or higher rank may export too. Pro and
/// Studio may export Serum presets, Free and callers without a wallet may
/// not, and every tier may export any other format.
pub proof fn law_serum_gate_by_tier(t: UserTier, u: UserTier, format: Seq<char>)
    ensures
        format_allowed(t, format) && tier_rank(t) <= tier_rank(u) ==> format_allowed(u, format),
        format_allowed(UserTier::Studio, "fxp"@),
        format_allowed(UserTier::Pro, "fxp"@),
        !format_allowed(UserTier::Free, "fxp"@),
        !format_allowed(UserTier::Unauthenticated, "fxp"@),
        format != "fxp"@ ==> format_allowed(t, format),
{
}

/// A wallet holding at least the Pro threshold of $AUDIO (100 tokens, and
/// so any Studio wallet) that asks for a Serum preset goes on to the quota
/// of its tier: its balance read is never answered with a refusal.
pub proof fn law_pro_wallet_may_export_serum(
    before: GenerateFlow,
    event: GenerateEvent,
    after: GenerateFlow,
    action: GenerateAction,
)
    requires
        expects(before.stage, event),
        stepped(before, event, after, action),
        event matches GenerateEvent::BalanceRead(Ok(b)) && crate::tiers::balance_at_least(
            b.amount,
            b.decimals,
            crate::tiers::TIER_THRESHOLD_PRO,
        ),
    ensures
        after.stage == GenerateStage::Quota,
        action is CheckQuota,
        tier_rank(after.tier) >= tier_rank(UserTier::Pro),
{
}

/// Without a wallet, at most one generation a day: the limit applied to an
/// unauthenticated caller is one, and over any run of such checks from an
/// IP at most one accepted request lies within the last 24 hours.
pub proof fn law_one_generation_without_wallet(
    m: Map<crate::rate_limit::ClientIp, Seq<u64>>,
    ip: crate::rate_limit::ClientIp,
    times: Seq<u64>,
    now: u64,
)
    requires
        crate::rate_limit::non_decreasing(times),
        times.len() > 0 ==> times.last() <= now,
    ensures
        spec_daily_limit(UserTier::Unauthenticated) == 1,
        crate::rate_limit::recent(
            crate::rate_limit::accepted_times(m, ip, times, spec_daily_limit(UserTier::Unauthenticated)),
            now,
        ).len() <= 1,
{
    crate::rate_limit::law_rolling_window_limit(
        m,
        ip,
        times,
        spec_daily_limit(UserTier::Unauthenticated),
        now,
    );
}

impl GenerateFlow {
    /// Start a generation: validate the request; without a wallet, refuse
    /// Serum and check the one-a-day quota; with one, read its balance.
    pub fn start(
        prompt: Option<&str>,
        track_id: Option<&str>,
        format: Option<&str>,
        wallet_pubkey: Option<&str>,
        audio_mint: &str,
    ) -> (r: Result<(GenerateFlow, GenerateAction), AppError>)
        ensures
            match spec_validate(prompt, track_id, format) {
                Ok((p, t, f)) => if wallet_of(wallet_pubkey).len() == 0 {
                    if format_allowed(UserTier::Unauthenticated, f) {
                        r matches Ok((flow, action)) && {
                            &&& flow.stage == GenerateStage::Quota
                            &&& flow.tier == UserTier::Unauthenticated
                            &&& flow.request.prompt@ == p
                            &&& flow.request.track_id@ == t
                            &&& flow.request.format@ == f
                            &&& flow.generations_used == 0
                            &&& flow.generations_limit == 0
                            &&& flow.track_title is None
                            &&& flow.prompt@.len() == 0
                            &&& flow.seed_category@ == INIT_CATEGORY@
                            &&& action == (GenerateAction::CheckQuota {
                                limit: spec_daily_limit(UserTier::Unauthenticated),
                            })
                        }
                    } else {
                        r matches Err(AppError::Forbidden(m)) && m@ == SERUM_NEEDS_PRO@
                    }
                } else {
                    match spec_balance_account(wallet_of(wallet_pubkey), audio_mint@) {
                        Ok(a) => r matches Ok((flow, action)) && {
                            &&& flow.stage == GenerateStage::Wallet
                            &&& flow.request.prompt@ == p
                            &&& flow.request.track_id@ == t
                            &&& flow.request.format@ == f
                            &&& flow.generations_used == 0
                            &&& flow.generations_limit == 0
                            &&& flow.track_title is None
                            &&& flow.prompt@.len() == 0
                            &&& flow.seed_category@ == INIT_CATEGORY@
                            &&& action matches GenerateAction::ReadBalance { account }
                            &&& account@ == a
                        },
                        Err(e) => r matches Err(AppError::Internal(m)) && m@
                            == BALANCE_FAILURE_PREFIX@ + spec_pubkey_error_message(e),
                    }
                },
                Err(msg) => r matches Err(AppError::BadRequest(m)) && m@ == msg,
            },
    {
        proof {
            reveal_strlit("");
        }
        let request = validate_generate_request(prompt, track_id, format)?;
        let wallet = trim(
            match wallet_pubkey {
                Some(w) => w,
                None => "",
            },
        );
        let mut flow = GenerateFlow {
            stage: GenerateStage::Quota,
            tier: UserTier::Unauthenticated,
            prompt: String::new(),
            request,
            generations_used: 0,
            generations_limit: 0,
            track_title: None,
            seed_category: String::from_str(INIT_CATEGORY),
        };
        if wallet.is_empty() {
            if !is_format_allowed(&flow.tier, flow.request.format.as_str()) {
                return Err(AppError::Forbidden(String::from_str(SERUM_NEEDS_PRO)));
            }
            let limit = daily_limit(&flow.tier);
            return Ok((flow, GenerateAction::CheckQuota { limit }));
        }
        match balance_account(wallet, audio_mint) {
            Ok(account) => {
                flow.stage = GenerateStage::Wallet;
                Ok((flow, GenerateAction::ReadBalance { account }))
            },
            Err(e) => Err(balance_failure(e.message())),
        }
    }

    /// Advance the generation with the outcome of the last action. Naming
    /// the preset after the track cuts its ID after eight bytes, which must
    /// not split a character.
    pub fn step(self, event: GenerateEvent) -> (r: (GenerateFlow, GenerateAction))
        requires
            expects(self.stage, event),
            event matches GenerateEvent::AudioReady(Ok(_)) ==> cuts_on_boundary(
                self.request.track_id@,
                8,
            ),
            event matches GenerateEvent::Merged(Ok(bytes)) ==> 4 * ((bytes@.len() + 2) / 3)
                <= usize::MAX,
        ensures
            r.0.request == self.request,
            stepped(self, event, r.0, r.1),
    {
        let mut flow = self;
        match event {
            GenerateEvent::BalanceRead(Err(reason)) => {
                flow.stage = GenerateStage::Done;
                (flow, GenerateAction::Fail(balance_failure(reason.as_str())))
            },
            GenerateEvent::BalanceRead(Ok(b)) => {
                let tier = tier_from_balance(b.amount, b.decimals);
                if !is_format_allowed(&tier, flow.request.format.as_str()) {
                    flow.stage = GenerateStage::Done;
                    return (
                        flow,
                        GenerateAction::Fail(AppError::Forbidden(String::from_str(SERUM_NEEDS_PRO))),
                    );
                }
                let limit = daily_limit(&tier);
                flow.stage = GenerateStage::Quota;
                flow.tier = tier;
                (flow, GenerateAction::CheckQuota { limit })
            },
            GenerateEvent::QuotaChecked(Err(e)) => {
                flow.stage = GenerateStage::Done;
                if flow.tier == UserTier::Unauthenticated {
                    (
                        flow,
                        GenerateAction::Fail(
                            AppError::RateLimited(String::from_str(CONNECT_WALLET_FOR_MORE)),
                        ),
                    )
                } else {
                    (flow, GenerateAction::Fail(e))
                }
            },
            GenerateEvent::QuotaChecked(Ok((used, limit))) => {
                flow.stage = GenerateStage::Audio;
                flow.generations_used = used;
                flow.generations_limit = limit;
                if flow.request.track_id.as_str().is_empty() {
                    (flow, GenerateAction::UseSilence)
                } else {
                    let track_id = flow.request.track_id.clone();
                    (flow, GenerateAction::FetchAudio { track_id })
                }
            },
            GenerateEvent::AudioReady(Err(msg)) => {
                flow.stage = GenerateStage::Done;
                (flow, GenerateAction::Fail(audius_fetch_error(msg.as_str())))
            },
            GenerateEvent::AudioReady(Ok(len)) => {
                let has_track = !flow.request.track_id.as_str().is_empty();
                flow.track_title = if has_track {
                    Some(track_title(flow.request.track_id.as_str()))
                } else {
                    None
                };
                if let Err(e) = check_audio_size(len) {
                    flow.stage = GenerateStage::Done;
                    return (flow, GenerateAction::Fail(e));
                }
                if flow.request.prompt.as_str().is_empty() {
                    flow.stage = GenerateStage::Generation;
                    flow.prompt = flow.request.prompt.clone();
                    flow.seed_category = String::from_str(INIT_CATEGORY);
                    let prompt = flow.prompt.clone();
                    (flow, GenerateAction::Generate { prompt })
                } else {
                    flow.stage = GenerateStage::Enhancement;
                    let prompt = flow.request.prompt.clone();
                    (flow, GenerateAction::Enhance { prompt, with_audio: has_track })
                }
            },
            GenerateEvent::Enhanced(e) => {
                let (p, c) = prompt_and_seed(flow.request.prompt.clone(), e);
                flow.stage = GenerateStage::Generation;
                flow.prompt = p;
                flow.seed_category = c;
                let prompt = flow.prompt.clone();
                (flow, GenerateAction::Generate { prompt })
            },
            GenerateEvent::Generated(Err(msg)) => {
                flow.stage = GenerateStage::Done;
                let mut m = String::from_str(GENERATION_FAILED_PREFIX);
                m.append(msg.as_str());
                m.append(GENERATION_FAILED_SUFFIX);
                (flow, GenerateAction::Fail(AppError::Internal(m)))
            },
            GenerateEvent::Generated(Ok(())) => {
                flow.stage = GenerateStage::Merge;
                let template_file = crate::schema::get_seed_template(flow.seed_category.as_str());
                let prompt = flow.prompt.clone();
                let track_title = flow.track_title.clone();
                (flow, GenerateAction::Merge { template_file, prompt, track_title })
            },
            GenerateEvent::Merged(Err(msg)) => {
                flow.stage = GenerateStage::Done;
                let mut m = String::from_str(MERGE_FAILED_PREFIX);
                m.append(msg.as_str());
                (flow, GenerateAction::Fail(AppError::Internal(m)))
            },
            GenerateEvent::Merged(Ok(bytes)) => {
                flow.stage = GenerateStage::Done;
                let resp = build_generate_response(
                    &bytes,
                    flow.request.format.clone(),
                    flow.generations_used,
                    flow.generations_limit,
                );
                (flow, GenerateAction::Respond(resp))
            },
        }
    }
}

} // verus!
