use preset_gg::gemini::{
    after_failed_attempt, build_enhance_text, build_user_text, check_enhancement_status,
    check_parameter_object, enhancement_content, finish_enhancement, generation_content,
    request_url, strip_markdown_fences, AttemptFailure, EnhanceError, FocusWindow, NextStep,
    GEMINI_API_BASE, GENERATE_INSTRUCTION, RETRY_NUDGE,
};

#[test]
fn fences_are_stripped() {
    assert_eq!(strip_markdown_fences("```json\n{\"a\":1}\n```"), "{\"a\":1}");
    assert_eq!(strip_markdown_fences("  ```\n{\"a\":1}```  "), "{\"a\":1}");
    assert_eq!(strip_markdown_fences("{\"a\":1}"), "{\"a\":1}");
    assert_eq!(strip_markdown_fences("  plain  "), "plain");
    assert_eq!(strip_markdown_fences("```json{}``````"), "{}");
    assert_eq!(strip_markdown_fences(""), "");
}

#[test]
fn request_url_carries_the_key() {
    assert_eq!(
        request_url(GEMINI_API_BASE, "k123"),
        "https://generativelanguage.googleapis.com/v1beta/models/gemini-2.5-pro:generateContent?key=k123"
    );
}

#[test]
fn user_text_with_window_and_prompt() {
    let w = FocusWindow { start_secs: 65, end_secs: 130 };
    let t = build_user_text(Some(w), "  dark bass ", 0);
    assert!(t.starts_with("The user selected the region 1:05\u{2013}2:10 (mm:ss) as a reference."));
    assert!(t.contains("Sound description: dark bass\n\n"));
    assert!(!t.contains(RETRY_NUDGE));
    assert!(t.ends_with(GENERATE_INSTRUCTION));
}

#[test]
fn user_text_on_retry_without_prompt() {
    let t = build_user_text(None, "   ", 1);
    assert_eq!(t, format!("{}{}", RETRY_NUDGE, GENERATE_INSTRUCTION));
}

#[test]
fn enhance_text() {
    let t = build_enhance_text(Some(FocusWindow { start_secs: 0, end_secs: 9 }), " pluck ");
    assert!(t.starts_with("The user selected 0:00\u{2013}0:09 (mm:ss) as a reference window."));
    assert!(t.ends_with(
        "User's sound request: \"pluck\"\n\nExpand this into a detailed sound design description."
    ));
    assert_eq!(
        build_enhance_text(None, "x"),
        "User's sound request: \"x\"\n\nExpand this into a detailed sound design description."
    );
}

#[test]
fn enhancement_defaults_and_refusal() {
    let (d, c) = finish_enhancement(Some("  bright saw lead "), Some(" supersaw_lead "), "p").unwrap();
    assert_eq!((d.as_str(), c.as_str()), ("bright saw lead", "supersaw_lead"));
    let (d, c) = finish_enhancement(None, None, " my prompt ").unwrap();
    assert_eq!((d.as_str(), c.as_str()), ("my prompt", "init"));
    assert_eq!(finish_enhancement(Some("   "), Some("bell"), "p"), Err(EnhanceError::EmptyDescription));
}

#[test]
fn first_failure_is_retried() {
    let next = after_failed_attempt(0, AttemptFailure::Unparsable { reason: "bad".to_string() });
    assert!(matches!(next, NextStep::Retry(1)));
    // An error status is not retried.
    match after_failed_attempt(0, AttemptFailure::Status { status: 503, body: "busy".to_string() }) {
        NextStep::Fail(m) => assert_eq!(m, "Gemini API error 503 Service Unavailable: busy"),
        NextStep::Retry(_) => panic!("an error status must not be retried"),
    }
}

#[test]
fn second_failure_gives_up() {
    match after_failed_attempt(1, AttemptFailure::Unparsable { reason: "eof".to_string() }) {
        NextStep::Fail(m) => {
            assert_eq!(m, "Gemini response could not be parsed as JSON after 2 attempts: eof")
        }
        NextStep::Retry(_) => panic!("a second failure must not be retried"),
    }
    match after_failed_attempt(1, AttemptFailure::Status { status: 500, body: "oops".to_string() }) {
        NextStep::Fail(m) => assert_eq!(m, "Gemini API error 500 Internal Server Error: oops"),
        NextStep::Retry(_) => panic!("a second failure must not be retried"),
    }
}

#[test]
fn content_of_answers() {
    assert_eq!(generation_content(Some(" ```json\n{\"x\":0.5}\n``` ")), Ok("{\"x\":0.5}"));
    assert_eq!(
        generation_content(None),
        Err("Gemini response missing expected content structure".to_string())
    );
    assert_eq!(enhancement_content(Some("  {}  ")), Ok("{}"));
    assert_eq!(
        enhancement_content(None),
        Err("Flash response missing expected content structure".to_string())
    );
}

#[test]
fn parameter_object_must_have_entries() {
    assert_eq!(check_parameter_object(Some(3)), Ok(()));
    let empty = Err("Gemini returned an empty JSON object".to_string());
    assert_eq!(check_parameter_object(Some(0)), empty);
    assert_eq!(check_parameter_object(None), empty);
}

#[test]
fn enhancement_status() {
    assert_eq!(check_enhancement_status(200, ""), Ok(()));
    assert_eq!(
        check_enhancement_status(429, "slow down"),
        Err("Flash API error 429 Too Many Requests: slow down".to_string())
    );
}

#[test]
fn audio_is_sent_as_base64() {
    assert_eq!(preset_gg::gemini::encode_audio(b"abc"), "YWJj");
    assert_eq!(preset_gg::gemini::encode_audio(b""), "");
    assert_eq!(preset_gg::gemini::encode_audio(&[0xFF]), "/w==");
}

#[test]
fn reading_flash_answers() {
    let r = preset_gg::gemini::read_enhancement(Some(" {\"description\": \" warm pad \", \"category\": \"pad_warm\"} "), "p");
    assert_eq!(r, Ok(("warm pad".to_string(), "pad_warm".to_string())));
    let r = preset_gg::gemini::read_enhancement(Some("{\"category\": 3}"), " my prompt ");
    assert_eq!(r, Ok(("my prompt".to_string(), "init".to_string())));
    let r = preset_gg::gemini::read_enhancement(Some("{\"description\": \"  \"}"), "p");
    assert_eq!(r, Err("Flash returned empty description".to_string()));
    let r = preset_gg::gemini::read_enhancement(None, "p");
    assert_eq!(r, Err("Flash response missing expected content structure".to_string()));
    let e = serde_json::from_str::<serde_json::Value>("not json").unwrap_err();
    let r = preset_gg::gemini::read_enhancement(Some(" not json"), "p");
    assert_eq!(r, Err(format!("Flash returned non-JSON: {}. Raw: {:?}", e, " not json")));
}

#[test]
fn parameters_are_read_from_the_answer() {
    use_ok(preset_gg::gemini::extract_and_parse_content(Some("```json\n{\"osc_1_level\": 0.5}\n```")));
    assert_eq!(
        preset_gg::gemini::extract_and_parse_content(None).err(),
        Some("Gemini response missing expected content structure".to_string())
    );
    assert_eq!(
        preset_gg::gemini::extract_and_parse_content(Some("{}")).err(),
        Some("Gemini returned an empty JSON object".to_string())
    );
    assert_eq!(
        preset_gg::gemini::extract_and_parse_content(Some("[1, 2]")).err(),
        Some("Gemini returned an empty JSON object".to_string())
    );
    let e = serde_json::from_str::<serde_json::Value>("oops").unwrap_err();
    assert_eq!(
        preset_gg::gemini::extract_and_parse_content(Some("  oops ")).err(),
        Some(format!("Failed to parse Gemini output as JSON: {}. Raw: {:?}", e, "oops"))
    );
}

fn use_ok(r: Result<serde_json::Value, String>) {
    let v = r.unwrap();
    assert_eq!(v["osc_1_level"].as_f64(), Some(0.5));
}
