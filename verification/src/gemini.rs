//! The text side of the Gemini integration: the request URLs, the user
//! messages sent with the audio, cleaning the model's output, reading the
//! prompt-enhancement answer, and when a failed generation is retried.

use vstd::prelude::*;
use vstd::string::*;

use crate::config::GEMINI_MAX_RETRIES;
use crate::generate::{base64_standard, encode_base64};
use crate::status::{is_status_code, is_success, spec_is_success, status_display, status_text};
use crate::text::{
    chars_of, decimal, decimal_2, has_prefix, push_decimal, push_decimal_2, starts_with_at, trim,
    trim_bounds, trim_end_matches_bound, trimmed, trimmed_end_matches,
};

verus! {

/// The Gemini Pro endpoint that generates preset parameters.
pub const GEMINI_API_BASE: &'static str =
    "https://generativelanguage.googleapis.com/v1beta/models/gemini-2.5-pro:generateContent";

/// The Gemini Flash endpoint that enhances and classifies prompts.
pub const GEMINI_FLASH_API: &'static str =
    "https://generativelanguage.googleapis.com/v1beta/models/gemini-2.5-flash:generateContent";

/// `{base}?key={api_key}`.
pub fn request_url(base: &str, api_key: &str) -> (url: String)
    ensures
        url@ == base@ + "?key="@ + api_key@,
{
    let mut url = String::from_str(base);
    url.append("?key=");
    url.append(api_key);
    url
}

/// Stage 1 system prompt: Flash expands casual user input into precise
/// sound design language that Stage 2 (Pro) can act on.
pub const ENHANCE_SYSTEM_PROMPT: &'static str = r#"You are an expert synthesizer sound design translator and classifier. Given audio and/or a text description, output a JSON object with exactly two fields:

1. "description": Expand the user's request into precise synthesis terminology (2-4 sentences). Describe oscillator types/waveforms, filter settings, envelope shape, effects, modulation, and overall character. If audio is provided, describe the dominant timbre you hear.

2. "category": Choose the single best-matching seed preset category from this list:
   - alien_bass: bizarre, modulated, experimental bass
   - arp_sequence: bright, rhythmic, arpeggiated sounds
   - bell: inharmonic, metallic, FM bell tones
   - drum_kick: kick drums, sub hits, percussion body
   - drum_snare: snares, claps, percussive transients
   - fx_riser: risers, sweeps, impacts, transitions
   - growl_bass: aggressive, distorted, dubstep bass
   - keys: piano, rhodes, electric piano, keyboard sounds
   - keys_ambient: soft, ambient keyboard textures
   - megasaw_lead: massive, wide, detuned lead synths
   - organ: sustained, additive, organ-like tones
   - pad_ambient: evolving, atmospheric, ambient pads
   - pad_warm: lush, warm, smooth sustained pads
   - pluck: short, percussive, plucked string sounds
   - sub_bass: deep, clean, sub-frequency bass
   - supersaw_lead: classic detuned sawtooth leads
   - tearout_bass: heavy, aggressive, tearing bass
   - vocal: formant, vocal-like, voice synthesis

Output ONLY the JSON object. No other text."#;

// ── Cleaning the model's output ──────────────────────────────────────────────

/// The code fence "```".
pub open spec fn fence() -> Seq<char> {
    seq!['`', '`', '`']
}

/// The opening fence of a JSON code block, "```json".
pub open spec fn json_fence() -> Seq<char> {
    seq!['`', '`', '`', 'j', 's', 'o', 'n']
}

/// `s` trimmed and, when it is wrapped in a code fence (```json or ```),
/// the fence's contents: the opening fence and every closing fence at the
/// end removed, then trimmed.
pub open spec fn stripped_fences(s: Seq<char>) -> Seq<char> {
    let t = trimmed(s);
    if has_prefix(t, json_fence()) {
        trimmed(trimmed_end_matches(t.skip(7), fence()))
    } else if has_prefix(t, fence()) {
        trimmed(trimmed_end_matches(t.skip(3), fence()))
    } else {
        t
    }
}

fn fence_chars() -> (v: Vec<char>)
    ensures
        v@ == fence(),
{
    let v = vec!['`', '`', '`'];
    assert(v@ =~= fence());
    v
}

fn json_fence_chars() -> (v: Vec<char>)
    ensures
        v@ == json_fence(),
{
    let v = vec!['`', '`', '`', 'j', 's', 'o', 'n'];
    assert(v@ =~= json_fence());
    v
}

/// Remove ```json ... ``` or ``` ... ``` code fences from a string.
pub fn strip_markdown_fences(s: &str) -> (r: &str)
    ensures
        r@ == stripped_fences(s@),
{
    let v = chars_of(s);
    let (a, b) = trim_bounds(&v, 0, v.len());
    let ghost t = v@.subrange(a as int, b as int);
    proof {
        assert(v@.subrange(0, v@.len() as int) =~= v@);
    }
    let json = json_fence_chars();
    let plain = fence_chars();
    let open: usize = if starts_with_at(&v, a, b, &json) {
        7
    } else if starts_with_at(&v, a, b, &plain) {
        3
    } else {
        0
    };
    if open == 0 {
        return s.substring_char(a, b);
    }
    let lo = a + open;
    proof {
        assert(t.skip(open as int) =~= v@.subrange(lo as int, b as int));
    }
    let e = trim_end_matches_bound(&v, lo, b, &plain);
    let (c, d) = trim_bounds(&v, lo, e);
    s.substring_char(c, d)
}

// ── Reading the model's answer ───────────────────────────────────────────────

pub const MISSING_CONTENT: &'static str = "Gemini response missing expected content structure";

pub const FLASH_MISSING_CONTENT: &'static str = "Flash response missing expected content structure";

pub const EMPTY_OBJECT: &'static str = "Gemini returned an empty JSON object";

/// The text to parse from a generation answer whose first candidate's
/// first part holds `text` (none when the answer lacks it): the text
/// without code fences, trimmed.
pub fn generation_content(text: Option<&str>) -> (r: Result<&str, String>)
    ensures
        match text {
            None => r matches Err(m) && m@ == MISSING_CONTENT@,
            Some(t) => r matches Ok(c) && c@ == trimmed(stripped_fences(t@)),
        },
{
    match text {
        None => Err(String::from_str(MISSING_CONTENT)),
        Some(t) => Ok(trim(strip_markdown_fences(t))),
    }
}

/// The text to parse from a prompt-enhancement answer: the first part's
/// text, trimmed.
pub fn enhancement_content(text: Option<&str>) -> (r: Result<&str, String>)
    ensures
        match text {
            None => r matches Err(m) && m@ == FLASH_MISSING_CONTENT@,
            Some(t) => r matches Ok(c) && c@ == trimmed(t@),
        },
{
    match text {
        None => Err(String::from_str(FLASH_MISSING_CONTENT)),
        Some(t) => Ok(trim(t)),
    }
}

/// Accept the parsed parameters when they are a JSON object with at least
/// one entry; `entries` is the object's number of entries, none when the
/// value is not an object.
pub fn check_parameter_object(entries: Option<usize>) -> (r: Result<(), String>)
    ensures
        (entries matches Some(n) && n > 0) ==> r is Ok,
        !(entries matches Some(n) && n > 0) ==> (r matches Err(m) && m@ == EMPTY_OBJECT@),
{
    match entries {
        Some(n) => if n > 0 {
            Ok(())
        } else {
            Err(String::from_str(EMPTY_OBJECT))
        },
        None => Err(String::from_str(EMPTY_OBJECT)),
    }
}

/// "Flash API error {status}: {body}".
pub open spec fn spec_flash_status_error(status: u16, body: Seq<char>) -> Seq<char> {
    "Flash API error "@ + status_display(status) + ": "@ + body
}

/// Accept the status of a prompt-enhancement answer; `body` is the
/// answer's text, quoted when the status is not a success.
pub fn check_enhancement_status(status: u16, body: &str) -> (r: Result<(), String>)
    requires
        is_status_code(status),
    ensures
        spec_is_success(status) ==> r is Ok,
        !spec_is_success(status) ==> (r matches Err(m) && m@ == spec_flash_status_error(
            status,
            body@,
        )),
{
    if is_success(status) {
        return Ok(());
    }
    let mut m = String::from_str("Flash API error ");
    m.append(status_text(status).as_str());
    m.append(": ");
    m.append(body);
    Err(m)
}

// ── Audio ────────────────────────────────────────────────────────────────────

/// The audio as sent inline to Gemini: standard base64 with padding.
pub fn encode_audio(audio: &[u8]) -> (data: String)
    requires
        4 * ((audio@.len() + 2) / 3) <= usize::MAX,
    ensures
        data@ == base64_standard(audio@),
{
    encode_base64(audio)
}

// ── User messages ────────────────────────────────────────────────────────────

/// A focus window in whole seconds of the track.
#[derive(Debug, Clone, Copy)]
pub struct FocusWindow {
    pub start_secs: u64,
    pub end_secs: u64,
}

/// `{secs / 60}:{secs % 60:02}`.
pub open spec fn mm_ss(secs: nat) -> Seq<char> {
    decimal(secs / 60) + ":"@ + decimal_2(secs % 60)
}

fn push_mm_ss(out: &mut String, secs: u64)
    ensures
        final(out)@ == old(out)@ + mm_ss(secs as nat),
{
    push_decimal(out, secs / 60);
    out.append(":");
    push_decimal_2(out, secs % 60);
    proof {
        assert(final(out)@ =~= old(out)@ + mm_ss(secs as nat));
    }
}

pub const REGION_INTRO: &'static str = "The user selected the region ";

pub const REGION_OUTRO: &'static str = " (mm:ss) as a reference. Listen to that window to identify the TARGET INSTRUMENT or timbre the user wants. Your job is to create a playable synthesizer patch that captures that instrument's tone, NOT to reproduce the entire passage. The preset should sound good when a single note or chord is played \u{2014} do NOT add long reverb/delay tails just to fill time.\n\n";

pub const RANGE_DASH: &'static str = "\u{2013}";

pub const DESCRIPTION_INTRO: &'static str = "Sound description: ";

pub const PARAGRAPH_BREAK: &'static str = "\n\n";

pub const RETRY_NUDGE: &'static str = "IMPORTANT: Your previous response was not valid JSON. You MUST output ONLY the raw JSON object \u{2014} no text before it, no text after it, no markdown code fences. Start your response with { and end with }.\n\n";

pub const GENERATE_INSTRUCTION: &'static str = "Analyze the audio and output a single JSON object containing only the parameters you want to change from their defaults. Every key must be a parameter name from the reference above. Every value must be a number between 0.0 and 1.0. Output nothing but the JSON object.";

/// The window's part of a message: `intro`, the window as mm:ss–mm:ss, then
/// `outro`; nothing without a window.
pub open spec fn window_text(window: Option<FocusWindow>, intro: Seq<char>, outro: Seq<char>) -> Seq<
    char,
> {
    match window {
        Some(w) => intro + mm_ss(w.start_secs as nat) + RANGE_DASH@ + mm_ss(w.end_secs as nat)
            + outro,
        None => seq![],
    }
}

/// The user message of a generation request: the focus window, the trimmed
/// prompt when it is not blank, a nudge on a retry, and the instruction.
pub open spec fn spec_generate_user_text(
    window: Option<FocusWindow>,
    prompt: Seq<char>,
    attempt: u32,
) -> Seq<char> {
    window_text(window, REGION_INTRO@, REGION_OUTRO@) + (if trimmed(prompt).len() > 0 {
        DESCRIPTION_INTRO@ + trimmed(prompt) + PARAGRAPH_BREAK@
    } else {
        seq![]
    }) + (if attempt > 0 {
        RETRY_NUDGE@
    } else {
        seq![]
    }) + GENERATE_INSTRUCTION@
}

fn push_window(out: &mut String, window: Option<FocusWindow>, intro: &str, outro: &str)
    ensures
        final(out)@ == old(out)@ + window_text(window, intro@, outro@),
{
    match window {
        Some(w) => {
            out.append(intro);
            push_mm_ss(out, w.start_secs);
            out.append(RANGE_DASH);
            push_mm_ss(out, w.end_secs);
            out.append(outro);
            assert(final(out)@ =~= old(out)@ + window_text(window, intro@, outro@));
        },
        None => {
            assert(old(out)@ + window_text(window, intro@, outro@) =~= old(out)@);
        },
    }
}

/// Build the user message sent with the audio to generate preset
/// parameters; `attempt` counts from 0.
pub fn build_user_text(window: Option<FocusWindow>, prompt: &str, attempt: u32) -> (text: String)
    ensures
        text@ == spec_generate_user_text(window, prompt@, attempt),
{
    let mut text = String::new();
    push_window(&mut text, window, REGION_INTRO, REGION_OUTRO);
    let trimmed_prompt = trim(prompt);
    if !trimmed_prompt.is_empty() {
        text.append(DESCRIPTION_INTRO);
        text.append(trimmed_prompt);
        text.append(PARAGRAPH_BREAK);
    }
    if attempt > 0 {
        text.append(RETRY_NUDGE);
    }
    text.append(GENERATE_INSTRUCTION);
    proof {
        assert(text@ =~= spec_generate_user_text(window, prompt@, attempt));
    }
    text
}

pub const ENHANCE_REGION_INTRO: &'static str = "The user selected ";

pub const ENHANCE_REGION_OUTRO: &'static str = " (mm:ss) as a reference window. Identify the dominant instrument or timbre in that region \u{2014} describe how to recreate it as a playable synth patch, not as a reproduction of the full passage.\n\n";

pub const ENHANCE_REQUEST_INTRO: &'static str = "User's sound request: \"";

pub const ENHANCE_REQUEST_OUTRO: &'static str = "\"\n\nExpand this into a detailed sound design description.";

/// The user message of a prompt-enhancement request.
pub open spec fn spec_enhance_user_text(window: Option<FocusWindow>, prompt: Seq<char>) -> Seq<char> {
    window_text(window, ENHANCE_REGION_INTRO@, ENHANCE_REGION_OUTRO@) + ENHANCE_REQUEST_INTRO@
        + trimmed(prompt) + ENHANCE_REQUEST_OUTRO@
}

/// Build the user message of the Flash enhance-prompt call.
pub fn build_enhance_text(window: Option<FocusWindow>, user_prompt: &str) -> (text: String)
    ensures
        text@ == spec_enhance_user_text(window, user_prompt@),
{
    let mut text = String::new();
    push_window(&mut text, window, ENHANCE_REGION_INTRO, ENHANCE_REGION_OUTRO);
    text.append(ENHANCE_REQUEST_INTRO);
    text.append(trim(user_prompt));
    text.append(ENHANCE_REQUEST_OUTRO);
    assert(text@ =~= spec_enhance_user_text(window, user_prompt@));
    text
}


// ── Reading the prompt-enhancement answer ────────────────────────────────────

/// Why a prompt-enhancement answer is refused.
#[derive(Debug, Clone, Copy, PartialEq, Eq, Structural)]
pub enum EnhanceError {
    /// The description, once trimmed, is empty.
    EmptyDescription,
}

/// The outcome of reading the "description" and "category" fields of an
/// enhancement answer (each given when it is a string): the description,
/// defaulting to the user's prompt, and the category, defaulting to "init",
/// both trimmed; refused when the description is empty.
pub open spec fn spec_enhancement(
    description: Option<Seq<char>>,
    category: Option<Seq<char>>,
    user_prompt: Seq<char>,
) -> Result<(Seq<char>, Seq<char>), EnhanceError> {
    let d = trimmed(
        match description {
            Some(d) => d,
            None => user_prompt,
        },
    );
    let c = trimmed(
        match category {
            Some(c) => c,
            None => "init"@,
        },
    );
    if d.len() == 0 {
        Err(EnhanceError::EmptyDescription)
    } else {
        Ok((d, c))
    }
}

/// Finish a prompt enhancement from the answer's fields: `(enhanced
/// description, seed category)`.
pub fn finish_enhancement(description: Option<&str>, category: Option<&str>, user_prompt: &str) -> (r:
    Result<(String, String), EnhanceError>)
    ensures
        match spec_enhancement(
            match description {
                Some(d) => Some(d@),
                None => None,
            },
            match category {
                Some(c) => Some(c@),
                None => None,
            },
            user_prompt@,
        ) {
            Ok((d, c)) => r matches Ok((rd, rc)) && rd@ == d && rc@ == c,
            Err(e) => r == Err::<(String, String), EnhanceError>(e),
        },
{
    let d = trim(
        match description {
            Some(d) => d,
            None => user_prompt,
        },
    );
    let c = trim(
        match category {
            Some(c) => c,
            None => "init",
        },
    );
    if d.is_empty() {
        return Err(EnhanceError::EmptyDescription);
    }
    Ok((String::from_str(d), String::from_str(c)))
}

/// The text read as JSON (`serde_json::from_str` into a `Value`): the
/// number of entries when it is an object, none when it is JSON but no
/// object, or the parser's message when it is not JSON.
pub uninterp spec fn json_object_entries(text: Seq<char>) -> Result<Option<nat>, Seq<char>>;

/// What a JSON reading tells of the text, by plain values.
pub open spec fn entries_view(r: Result<(serde_json::Value, Option<usize>), String>) -> Result<
    Option<nat>,
    Seq<char>,
> {
    match r {
        Ok((_, n)) => Ok(
            match n {
                Some(k) => Some(k as nat),
                None => None,
            },
        ),
        Err(e) => Err(e@),
    }
}

/// The value that `serde_json::from_str::<serde_json::Value>` gives for the
/// text, when it is JSON.
pub uninterp spec fn parsed_value(text: Seq<char>) -> serde_json::Value;

/// The value of a successful reading.
pub open spec fn value_of(r: Result<(serde_json::Value, Option<usize>), String>) -> Option<
    serde_json::Value,
> {
    match r {
        Ok((v, _)) => Some(v),
        Err(_) => None,
    }
}

/// `serde_json::from_str::<serde_json::Value>`, with the number of entries
/// of the value when it is an object (`Value::as_object`, `Map::len`), or
/// the parse error's text (`Display`). Stated: what it tells of the text is
/// the reading named `json_object_entries`, and the value it gives is the
/// one named `parsed_value`.
#[verifier::external_body]
pub(crate) fn parse_json(text: &str) -> (r: Result<(serde_json::Value, Option<usize>), String>)
    ensures
        entries_view(r) == json_object_entries(text@),
        r is Ok ==> value_of(r) == Some(parsed_value(text@)),
{
    match serde_json::from_str::<serde_json::Value>(text) {
        Ok(v) => {
            let n = v.as_object().map(|m| m.len());
            Ok((v, n))
        },
        Err(e) => Err(e.to_string()),
    }
}

pub const UNPARSABLE_PREFIX: &'static str = "Failed to parse Gemini output as JSON: ";

/// The outcome of reading Gemini's parameters from an answer whose first
/// part holds `text`: the content without fences, trimmed, must be a JSON
/// object with at least one entry.
pub open spec fn spec_parse_outcome(text: Option<Seq<char>>) -> Result<(), Seq<char>> {
    match text {
        None => Err(MISSING_CONTENT@),
        Some(t) => {
            let cleaned = trimmed(stripped_fences(t));
            match json_object_entries(cleaned) {
                Err(e) => Err(UNPARSABLE_PREFIX@ + e + ". Raw: "@ + debug_quoted(cleaned)),
                Ok(Some(n)) => if n > 0 {
                    Ok(())
                } else {
                    Err(EMPTY_OBJECT@)
                },
                Ok(None) => Err(EMPTY_OBJECT@),
            }
        },
    }
}

/// Extract the text content from a Gemini answer and parse it as a
/// non-empty JSON object of parameters.
pub fn extract_and_parse_content(text: Option<&str>) -> (r: Result<serde_json::Value, String>)
    ensures
        match spec_parse_outcome(
            match text {
                Some(t) => Some(t@),
                None => None,
            },
        ) {
            Ok(()) => r is Ok,
            Err(m) => r matches Err(rm) && rm@ == m,
        },
        match text {
            Some(t) => (r matches Ok(v) ==> v == parsed_value(trimmed(stripped_fences(t@)))),
            None => true,
        },
{
    let cleaned = generation_content(text)?;
    match parse_json(cleaned) {
        Err(e) => {
            let mut m = String::from_str(UNPARSABLE_PREFIX);
            m.append(e.as_str());
            m.append(". Raw: ");
            m.append(debug_text(cleaned).as_str());
            Err(m)
        },
        Ok((value, entries)) => {
            check_parameter_object(entries)?;
            Ok(value)
        },
    }
}

/// The "description" and "category" strings of Flash's answer text read as
/// JSON (each none when absent or not a string), or the parser's message
/// when the text is not JSON.
pub uninterp spec fn flash_fields(text: Seq<char>) -> Result<
    (Option<Seq<char>>, Option<Seq<char>>),
    Seq<char>,
>;

/// The views of two optional strings.
pub open spec fn option_views(fields: (Option<String>, Option<String>)) -> (
    Option<Seq<char>>,
    Option<Seq<char>>,
) {
    (
        match fields.0 {
            Some(d) => Some(d@),
            None => None,
        },
        match fields.1 {
            Some(c) => Some(c@),
            None => None,
        },
    )
}

/// A parse result by its views.
pub open spec fn fields_view(r: Result<(Option<String>, Option<String>), String>) -> Result<
    (Option<Seq<char>>, Option<Seq<char>>),
    Seq<char>,
> {
    match r {
        Ok(fields) => Ok(option_views(fields)),
        Err(e) => Err(e@),
    }
}

/// `serde_json::from_str::<serde_json::Value>`, then the string values of
/// the "description" and "category" keys (`Value::get` and
/// `Value::as_str`), or the parse error's text (`Display`). Stated: the
/// result is the reading named `flash_fields`.
#[verifier::external_body]
fn parse_flash_fields(text: &str) -> (r: Result<(Option<String>, Option<String>), String>)
    ensures
        fields_view(r) == flash_fields(text@),
{
    match serde_json::from_str::<serde_json::Value>(text) {
        Ok(v) => Ok((
            v.get("description").and_then(|d| d.as_str()).map(String::from),
            v.get("category").and_then(|c| c.as_str()).map(String::from),
        )),
        Err(e) => Err(e.to_string()),
    }
}

/// How `{:?}` writes a string: quoted, with escapes.
pub uninterp spec fn debug_quoted(text: Seq<char>) -> Seq<char>;

/// `<str as Debug>::fmt` through `format!("{:?}")`. Stated: the result is
/// the quoting named `debug_quoted`.
#[verifier::external_body]
fn debug_text(text: &str) -> (r: String)
    ensures
        r@ == debug_quoted(text@),
{
    format!("{:?}", text)
}

pub const FLASH_EMPTY_DESCRIPTION: &'static str = "Flash returned empty description";

/// The outcome of reading Flash's answer, whose first part holds `text`
/// (none when the answer lacks it): the content trimmed and read as JSON,
/// then its fields finished as `spec_enhancement` says.
pub open spec fn spec_read_enhancement(text: Option<Seq<char>>, user_prompt: Seq<char>) -> Result<
    (Seq<char>, Seq<char>),
    Seq<char>,
> {
    match text {
        None => Err(FLASH_MISSING_CONTENT@),
        Some(t) => match flash_fields(trimmed(t)) {
            Err(e) => Err("Flash returned non-JSON: "@ + e + ". Raw: "@ + debug_quoted(t)),
            Ok((d, c)) => match spec_enhancement(d, c, user_prompt) {
                Ok(r) => Ok(r),
                Err(_) => Err(FLASH_EMPTY_DESCRIPTION@),
            },
        },
    }
}

/// Read Flash's answer into `(enhanced description, seed category)`.
pub fn read_enhancement(text: Option<&str>, user_prompt: &str) -> (r: Result<(String, String), String>)
    ensures
        match spec_read_enhancement(
            match text {
                Some(t) => Some(t@),
                None => None,
            },
            user_prompt@,
        ) {
            Ok((d, c)) => r matches Ok((rd, rc)) && rd@ == d && rc@ == c,
            Err(m) => r matches Err(rm) && rm@ == m,
        },
{
    let content = enhancement_content(text)?;
    let t = match text {
        Some(t) => t,
        None => "",
    };
    let (description, category) = match parse_flash_fields(content) {
        Ok(fields) => fields,
        Err(e) => {
            let mut m = String::from_str("Flash returned non-JSON: ");
            m.append(e.as_str());
            m.append(". Raw: ");
            m.append(debug_text(t).as_str());
            return Err(m);
        },
    };
    let d = match &description {
        Some(d) => Some(d.as_str()),
        None => None,
    };
    let c = match &category {
        Some(c) => Some(c.as_str()),
        None => None,
    };
    match finish_enhancement(d, c, user_prompt) {
        Ok(r) => Ok(r),
        Err(_) => Err(String::from_str(FLASH_EMPTY_DESCRIPTION)),
    }
}

// ── Retrying a generation ────────────────────────────────────────────────────

/// How a generation attempt failed.
pub enum AttemptFailure {
    /// Gemini answered with a non-success status and this body.
    Status { status: u16, body: String },
    /// The answer could not be read as a parameter object, for `reason`.
    Unparsable { reason: String },
}

/// What to do after a failed attempt.
pub enum NextStep {
    /// Try again; the field is the number of the next attempt.
    Retry(u32),
    /// Give up with this message.
    Fail(String),
}

/// The message a generation fails with.
pub open spec fn failure_message(attempt: u32, failure: AttemptFailure) -> Seq<char> {
    match failure {
        AttemptFailure::Status { status, body } => "Gemini API error "@ + status_display(status)
            + ": "@ + body@,
        AttemptFailure::Unparsable { reason } => "Gemini response could not be parsed as JSON after "@
            + decimal((attempt + 1) as nat) + " attempts: "@ + reason@,
    }
}

/// Whether a failed attempt is tried again: only an answer that could not
/// be parsed, and only while retries remain.
pub open spec fn is_retried(attempt: u32, failure: AttemptFailure) -> bool {
    failure is Unparsable && attempt < GEMINI_MAX_RETRIES
}

/// After attempt number `attempt` (counting from 0) failed: an answer that
/// could not be parsed as parameters is retried once; an error status, or
/// a second unparsable answer, fails the generation.
pub fn after_failed_attempt(attempt: u32, failure: AttemptFailure) -> (next: NextStep)
    requires
        attempt <= GEMINI_MAX_RETRIES,
        failure matches AttemptFailure::Status { status, .. } ==> is_status_code(status),
    ensures
        is_retried(attempt, failure) ==> next == NextStep::Retry((attempt + 1) as u32),
        !is_retried(attempt, failure) ==> (next matches NextStep::Fail(msg) && msg@
            == failure_message(attempt, failure)),
{
    if attempt < GEMINI_MAX_RETRIES {
        if let AttemptFailure::Unparsable { .. } = failure {
            return NextStep::Retry(attempt + 1);
        }
    }
    let ghost f = failure;
    let mut msg = String::new();
    match failure {
        AttemptFailure::Status { status, body } => {
            msg.append("Gemini API error ");
            msg.append(status_text(status).as_str());
            msg.append(": ");
            msg.append(body.as_str());
        },
        AttemptFailure::Unparsable { reason } => {
            msg.append("Gemini response could not be parsed as JSON after ");
            push_decimal(&mut msg, attempt as u64 + 1);
            msg.append(" attempts: ");
            msg.append(reason.as_str());
        },
    }
    assert(msg@ =~= failure_message(attempt, f));
    NextStep::Fail(msg)
}

} // verus!
