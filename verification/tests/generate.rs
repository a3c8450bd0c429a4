use base64::Engine;
use preset_gg::errors::AppError;
use preset_gg::tiers::UserTier;
use preset_gg::token_gate::TokenAmount;

const MINT: &str = "9LzCMqDgTKYz9Drzqnpgee3SGa89up3a247ypMj2xrqM";
const WALLET: &str = "TokenkegQfeZyiNwAJbNbGKPFXCWuBvf9Ss623VQ5DA";
use preset_gg::generate::{
    audius_fetch_error, build_generate_response, check_audio_size, download_url,
    generate_silence_bytes, prompt_and_seed, track_title, validate_generate_request,
    GenerateAction, GenerateEvent, GenerateFlow, GenerateStage,
};

#[test]
fn silence_is_one_frame_header_and_zeros() {
    let v = generate_silence_bytes();
    assert_eq!(v.len(), 48);
    assert_eq!(&v[..4], &[0xFF, 0xFB, 0x90, 0x00]);
    assert!(v[4..].iter().all(|b| *b == 0));
}

#[test]
fn request_needs_prompt_or_track() {
    match validate_generate_request(Some("   "), None, None) {
        Err(AppError::BadRequest(m)) => {
            assert_eq!(m, "At least one of 'prompt' or 'track_id' is required")
        }
        _ => panic!("expected a bad request"),
    }
}

#[test]
fn format_is_lowercased_and_checked() {
    let v = validate_generate_request(Some(" pad "), Some(" 42 "), Some("VITAL")).unwrap();
    assert_eq!((v.prompt.as_str(), v.track_id.as_str(), v.format.as_str()), ("pad", "42", "vital"));
    let v = validate_generate_request(None, Some("42"), Some("Fxp")).unwrap();
    assert_eq!(v.format, "fxp");
    let v = validate_generate_request(Some("x"), None, None).unwrap();
    assert_eq!(v.format, "vital");
    match validate_generate_request(Some("x"), None, Some("serum")) {
        Err(AppError::BadRequest(m)) => assert_eq!(m, "format must be 'vital' or 'fxp'"),
        _ => panic!("expected a bad request"),
    }
}

#[test]
fn track_titles_use_eight_bytes() {
    assert_eq!(track_title("abcdefghijkl"), "Track abcdefgh");
    assert_eq!(track_title("abc"), "Track abc");
    assert_eq!(track_title(""), "Track ");
}

#[test]
fn audius_errors() {
    match audius_fetch_error("Audio too large: exceeded 10 bytes. Select a shorter region.") {
        AppError::BadRequest(m) => assert_eq!(
            m,
            "Audio too large. Please select a shorter region using the focus window."
        ),
        _ => panic!("expected a bad request"),
    }
    match audius_fetch_error("connection reset") {
        AppError::Internal(m) => assert_eq!(m, "Failed to fetch audio from Audius: connection reset"),
        _ => panic!("expected an internal error"),
    }
}

#[test]
fn audio_size_budget() {
    assert!(check_audio_size(15_728_640).is_ok());
    assert!(matches!(check_audio_size(15_728_641), Err(AppError::BadRequest(_))));
}

#[test]
fn enhancement_fallback() {
    let (p, c) = prompt_and_seed("orig".to_string(), None);
    assert_eq!((p.as_str(), c.as_str()), ("orig", "init"));
    let (p, c) = prompt_and_seed("orig".to_string(), Some(("new".to_string(), "bell".to_string())));
    assert_eq!((p.as_str(), c.as_str()), ("new", "bell"));
}

#[test]
fn response_encodes_the_file() {
    let r = build_generate_response(&b"abc".to_vec(), "vital".to_string(), 2, 5);
    assert_eq!(r.preset_data, "YWJj");
    let r2 = build_generate_response(&b"ab".to_vec(), "fxp".to_string(), 1, 5);
    assert_eq!(r2.preset_data, "YWI=");
    assert_eq!(r2.format, "fxp");
    let bytes: Vec<u8> = (0..=255u8).collect();
    let r3 = build_generate_response(&bytes, "vital".to_string(), 3, 5);
    assert_eq!(r3.preset_data, base64::engine::general_purpose::STANDARD.encode(&bytes));
    assert_eq!((r.generations_used, r.generations_limit), (2, 5));
}

#[test]
fn response_names_follow_the_id() {
    let r = build_generate_response(&vec![1, 2, 3], "vital".to_string(), 1, 5);
    let id = r.preset_id.clone();
    assert_eq!(id.len(), 36);
    let b = id.as_bytes();
    for i in [8, 13, 18, 23] {
        assert_eq!(b[i], b'-');
    }
    assert_eq!(b[14], b'4');
    assert!(matches!(b[19], b'8' | b'9' | b'a' | b'b'));
    assert_eq!(r.file_name, format!("preset_{}.vital", &id[..8]));
    assert_eq!(r.download_url, format!("/api/presets/{}/download", id));
    assert_eq!(download_url("xyz"), "/api/presets/xyz/download");
    let other = build_generate_response(&vec![1, 2, 3], "vital".to_string(), 1, 5);
    assert_ne!(other.preset_id, r.preset_id);
}

#[test]
fn pipeline_with_track_and_prompt() {
    let (flow, action) = GenerateFlow::start(Some(" warm pad "), Some("  TRACK123456 "), None, None, MINT).unwrap();
    assert!(matches!(action, GenerateAction::CheckQuota { limit: 1 }));
    assert_eq!(flow.stage, GenerateStage::Quota);
    let (flow, action) = flow.step(GenerateEvent::QuotaChecked(Ok((2, 5))));
    match action {
        GenerateAction::FetchAudio { track_id } => assert_eq!(track_id, "TRACK123456"),
        _ => panic!("expected the audio fetch"),
    }
    let (flow, action) = flow.step(GenerateEvent::AudioReady(Ok(1000)));
    match action {
        GenerateAction::Enhance { prompt, with_audio } => {
            assert_eq!(prompt, "warm pad");
            assert!(with_audio);
        }
        _ => panic!("expected the enhancement"),
    }
    let (flow, action) = flow.step(GenerateEvent::Enhanced(Some((
        "lush detuned pad".to_string(),
        "pad_warm".to_string(),
    ))));
    match action {
        GenerateAction::Generate { prompt } => assert_eq!(prompt, "lush detuned pad"),
        _ => panic!("expected the generation"),
    }
    let (flow, action) = flow.step(GenerateEvent::Generated(Ok(())));
    match action {
        GenerateAction::Merge { template_file, prompt, track_title } => {
            assert_eq!(template_file, "seeds/pad_warm.vital");
            assert_eq!(prompt, "lush detuned pad");
            assert_eq!(track_title.as_deref(), Some("Track TRACK123"));
        }
        _ => panic!("expected the merge"),
    }
    let (flow, action) = flow.step(GenerateEvent::Merged(Ok(b"{}".to_vec())));
    assert_eq!(flow.stage, GenerateStage::Done);
    match action {
        GenerateAction::Respond(r) => {
            assert_eq!(r.preset_data, "e30=");
            assert_eq!(r.format, "vital");
            assert_eq!((r.generations_used, r.generations_limit), (2, 5));
        }
        _ => panic!("expected the response"),
    }
}

#[test]
fn pipeline_refused_quota_stops() {
    let (flow, _) = GenerateFlow::start(Some("x"), None, None, None, MINT).unwrap();
    let refusal = AppError::RateLimited("limit".to_string());
    let (flow, action) = flow.step(GenerateEvent::QuotaChecked(Err(refusal)));
    assert_eq!(flow.stage, GenerateStage::Done);
    assert!(matches!(action, GenerateAction::Fail(AppError::RateLimited(m))
        if m == "Connect your Solana wallet to unlock more generations"));
}

#[test]
fn pipeline_text_only_and_fallbacks() {
    let (flow, action) = GenerateFlow::start(Some("bell"), None, Some("fxp"), Some(WALLET), MINT).unwrap();
    assert!(matches!(action, GenerateAction::ReadBalance { .. }));
    let pro = TokenAmount { amount: 150, decimals: 0 };
    let (flow, action) = flow.step(GenerateEvent::BalanceRead(Ok(pro)));
    assert!(matches!(action, GenerateAction::CheckQuota { limit: 15 }));
    let (flow, action) = flow.step(GenerateEvent::QuotaChecked(Ok((1, 5))));
    assert!(matches!(action, GenerateAction::UseSilence));
    let (flow, action) = flow.step(GenerateEvent::AudioReady(Ok(48)));
    assert!(matches!(action, GenerateAction::Enhance { with_audio: false, .. }));
    assert!(flow.track_title.is_none());
    let (flow, action) = flow.step(GenerateEvent::Enhanced(None));
    assert!(matches!(&action, GenerateAction::Generate { prompt } if prompt == "bell"));
    let (_, action) = flow.step(GenerateEvent::Generated(Ok(())));
    assert!(matches!(action, GenerateAction::Merge { template_file: "init_template.json", .. }));
}

#[test]
fn pipeline_track_without_prompt_skips_enhancement() {
    let (flow, _) = GenerateFlow::start(None, Some("t1"), None, None, MINT).unwrap();
    let (flow, _) = flow.step(GenerateEvent::QuotaChecked(Ok((1, 5))));
    let (flow, action) = flow.step(GenerateEvent::AudioReady(Ok(10)));
    assert_eq!(flow.stage, GenerateStage::Generation);
    assert!(matches!(&action, GenerateAction::Generate { prompt } if prompt.is_empty()));
    assert_eq!(flow.seed_category, "init");
}

#[test]
fn pipeline_failures() {
    let (flow, _) = GenerateFlow::start(None, Some("t1"), None, None, MINT).unwrap();
    let (flow, _) = flow.step(GenerateEvent::QuotaChecked(Ok((1, 5))));
    let (flow, action) = flow.step(GenerateEvent::AudioReady(Ok(15_728_641)));
    assert_eq!(flow.stage, GenerateStage::Done);
    assert!(matches!(action, GenerateAction::Fail(AppError::BadRequest(_))));

    let (flow, _) = GenerateFlow::start(None, Some("t1"), None, None, MINT).unwrap();
    let (flow, _) = flow.step(GenerateEvent::QuotaChecked(Ok((1, 5))));
    let (_, action) = flow.step(GenerateEvent::AudioReady(Err("timeout".to_string())));
    assert!(matches!(action, GenerateAction::Fail(AppError::Internal(m))
        if m == "Failed to fetch audio from Audius: timeout"));

    let (flow, _) = GenerateFlow::start(None, Some("t1"), None, None, MINT).unwrap();
    let (flow, _) = flow.step(GenerateEvent::QuotaChecked(Ok((1, 5))));
    let (flow, _) = flow.step(GenerateEvent::AudioReady(Ok(10)));
    let (_, action) = flow.step(GenerateEvent::Generated(Err("boom".to_string())));
    assert!(matches!(action, GenerateAction::Fail(AppError::Internal(m))
        if m == "AI generation failed: boom. Try a different prompt or track."));

    let (flow, _) = GenerateFlow::start(None, Some("t1"), None, None, MINT).unwrap();
    let (flow, _) = flow.step(GenerateEvent::QuotaChecked(Ok((1, 5))));
    let (flow, _) = flow.step(GenerateEvent::AudioReady(Ok(10)));
    let (flow, _) = flow.step(GenerateEvent::Generated(Ok(())));
    let (_, action) = flow.step(GenerateEvent::Merged(Err("bad template".to_string())));
    assert!(matches!(action, GenerateAction::Fail(AppError::Internal(m))
        if m == "Preset generation failed: bad template"));
}

#[test]
fn start_refuses_invalid_requests() {
    assert!(matches!(GenerateFlow::start(None, None, None, None, MINT), Err(AppError::BadRequest(_))));
    assert!(matches!(GenerateFlow::start(Some("x"), None, Some("wav"), None, MINT), Err(AppError::BadRequest(_))));
}

#[test]
fn preset_data_decodes_to_the_file() {
    for len in 0..10usize {
        let bytes: Vec<u8> = (0..len).map(|i| (i * 37 + 11) as u8).collect();
        let r = build_generate_response(&bytes, "vital".to_string(), 1, 5);
        let decoded = base64::engine::general_purpose::STANDARD.decode(r.preset_data).unwrap();
        assert_eq!(decoded, bytes);
    }
}

#[test]
fn supported_formats() {
    assert!(preset_gg::generate::is_supported_format("vital"));
    assert!(preset_gg::generate::is_supported_format("fxp"));
    assert!(!preset_gg::generate::is_supported_format("VITAL"));
    assert!(!preset_gg::generate::is_supported_format(""));
}

#[test]
fn serum_is_refused_without_a_wallet() {
    match GenerateFlow::start(Some("pad"), None, Some("FXP"), None, MINT) {
        Err(AppError::Forbidden(m)) => assert_eq!(
            m,
            "Serum .fxp export requires the Pro tier. Hold 100+ $AUDIO to unlock Pro."
        ),
        _ => panic!("expected a forbidden answer"),
    }
    assert!(GenerateFlow::start(Some("pad"), None, Some("  "), None, MINT).is_err());
}

#[test]
fn serum_is_refused_below_pro() {
    let (flow, _) = GenerateFlow::start(Some("pad"), None, Some("fxp"), Some(WALLET), MINT).unwrap();
    let free = TokenAmount { amount: 9_999_999_999, decimals: 8 };
    let (flow, action) = flow.step(GenerateEvent::BalanceRead(Ok(free)));
    assert_eq!(flow.stage, GenerateStage::Done);
    assert!(matches!(action, GenerateAction::Fail(AppError::Forbidden(_))));
}

#[test]
fn wallet_tiers_set_the_quota() {
    let (flow, _) = GenerateFlow::start(Some("pad"), None, None, Some(WALLET), MINT).unwrap();
    let (flow, action) = flow.step(GenerateEvent::BalanceRead(Ok(TokenAmount { amount: 0, decimals: 0 })));
    assert_eq!(flow.tier, UserTier::Free);
    assert!(matches!(action, GenerateAction::CheckQuota { limit: 3 }));
    let refusal = AppError::RateLimited("Daily generation limit reached (3/3). Try again in 24 hours.".to_string());
    let (_, action) = flow.step(GenerateEvent::QuotaChecked(Err(refusal)));
    assert!(matches!(action, GenerateAction::Fail(AppError::RateLimited(m)) if m.starts_with("Daily")));
    let (flow, _) = GenerateFlow::start(Some("pad"), None, None, Some(WALLET), MINT).unwrap();
    let (_, action) = flow.step(GenerateEvent::BalanceRead(Ok(TokenAmount { amount: 5000, decimals: 0 })));
    assert!(matches!(action, GenerateAction::CheckQuota { limit: u32::MAX }));
}

#[test]
fn wallet_problems_fail_the_request() {
    match GenerateFlow::start(Some("pad"), None, None, Some("not base58!"), MINT) {
        Err(AppError::Internal(m)) => {
            assert_eq!(m, "Could not verify wallet balance: Invalid Base58 string")
        }
        _ => panic!("expected an internal error"),
    }
    let (flow, _) = GenerateFlow::start(Some("pad"), None, None, Some(WALLET), MINT).unwrap();
    let (flow, action) = flow.step(GenerateEvent::BalanceRead(Err("timeout".to_string())));
    assert_eq!(flow.stage, GenerateStage::Done);
    assert!(matches!(action, GenerateAction::Fail(AppError::Internal(m))
        if m == "Could not verify wallet balance: timeout"));
}

#[test]
fn one_generation_a_day_without_a_wallet() {
    let mut limiter = preset_gg::rate_limit::RateLimiter::new();
    let ip = preset_gg::rate_limit::ClientIp::V4(1);
    let mut accepted = 0;
    for i in 0..3u64 {
        let (flow, action) = GenerateFlow::start(Some("pad"), None, None, None, MINT).unwrap();
        let limit = match action {
            GenerateAction::CheckQuota { limit } => limit,
            _ => panic!("expected the quota check"),
        };
        let (_, action) = flow.step(GenerateEvent::QuotaChecked(limiter.check_and_record(ip, 1000 + i, limit)));
        if matches!(action, GenerateAction::UseSilence) {
            accepted += 1;
        }
    }
    assert_eq!(accepted, 1);
}
