use preset_gg::cors::{cors_policy, is_header_value, AllowedOrigin};
use preset_gg::errors::AppError;
use preset_gg::health::health_check;
use preset_gg::presets::{download_preset, list_presets};
use preset_gg::serum::create_fxp_file;
use preset_gg::supabase::{
    get_daily_generation_count, get_user_presets, record_generation, upload_preset_file,
};

#[test]
fn history_needs_a_wallet() {
    assert!(matches!(list_presets(None), Err(AppError::Unauthorized(m))
        if m == "Connect your wallet to view preset history."));
    assert!(matches!(list_presets(Some("")), Err(AppError::Unauthorized(_))));
    assert!(list_presets(Some("wallet")).ok().unwrap().is_empty());
}

#[test]
fn downloads_are_not_found() {
    match download_preset("abc") {
        Err(AppError::NotFound(m)) => {
            assert_eq!(m, "Preset abc not found. Supabase storage not yet connected.")
        }
        _ => panic!("expected not found"),
    }
}

#[test]
fn storage_is_not_connected() {
    assert_eq!(
        record_generation("u", "k", "w", "p", "x"),
        Err("Supabase record_generation not yet implemented".to_string())
    );
    assert_eq!(
        get_daily_generation_count("u", "k", "w"),
        Err("Supabase get_daily_generation_count not yet implemented".to_string())
    );
    assert_eq!(
        upload_preset_file("u", "k", "f", &[1]),
        Err("Supabase upload not yet implemented".to_string())
    );
    assert_eq!(
        get_user_presets("u", "k", "w").err(),
        Some("Supabase get_user_presets not yet implemented".to_string())
    );
}

#[test]
fn serum_export_is_not_implemented() {
    assert_eq!(
        create_fxp_file(&serde_json::Value::Null),
        Err("Serum .fxp export is experimental and not yet implemented".to_string())
    );
}

#[test]
fn cors_origins() {
    let p = cors_policy("*");
    assert!(matches!(p.origin, AllowedOrigin::Any));
    assert_eq!(p.methods, vec!["GET", "POST", "OPTIONS"]);
    assert!(p.any_headers);
    let p = cors_policy("http://localhost:3000");
    assert!(matches!(p.origin, AllowedOrigin::Exact(o) if o == "http://localhost:3000"));
    assert!(is_header_value("http://localhost:3000"));
    assert!(is_header_value("tab\there"));
    assert!(is_header_value("caf\u{e9}"));
    assert!(!is_header_value("line\nbreak"));
    assert!(!is_header_value("del\u{7f}"));
}

#[test]
fn health() {
    let h = health_check("0.1.0");
    assert_eq!((h.status.as_str(), h.service.as_str(), h.version.as_str()), ("ok", "preset-gg-api", "0.1.0"));
}

#[test]
fn error_statuses() {
    let cases = vec![
        (AppError::BadRequest("a".to_string()), 400),
        (AppError::Unauthorized("b".to_string()), 401),
        (AppError::Forbidden("f".to_string()), 403),
        (AppError::NotFound("c".to_string()), 404),
        (AppError::RateLimited("d".to_string()), 429),
        (AppError::Internal("e".to_string()), 500),
    ];
    for (e, s) in &cases {
        assert_eq!(e.status(), *s);
    }
    assert_eq!(cases[4].0.message(), "d");
}
