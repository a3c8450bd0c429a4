use preset_gg::errors::AppError;
use preset_gg::rate_limit::{ClientIp, RateLimiter, WINDOW_MILLIS};

#[test]
fn five_generations_then_refused() {
    let mut limiter = RateLimiter::new();
    let ip = ClientIp::V4(0x7f00_0001);
    let start: u64 = 100_000_000;
    for i in 0..5u64 {
        let r = limiter.check_and_record(ip, start + i * 1000, 5);
        assert!(matches!(r, Ok((used, 5)) if used == (i + 1) as u32));
    }
    match limiter.check_and_record(ip, start + 10_000, 5) {
        Err(AppError::RateLimited(m)) => {
            assert_eq!(m, "Daily generation limit reached (5/5). Try again in 24 hours.")
        }
        other => panic!("expected a refusal, got {:?}", other),
    }
}

#[test]
fn refusal_records_nothing() {
    let mut limiter = RateLimiter::new();
    let ip = ClientIp::V6(1);
    let start: u64 = 200_000_000;
    for i in 0..5u64 {
        assert!(limiter.check_and_record(ip, start + i, 5).is_ok());
    }
    for i in 0..3u64 {
        assert!(limiter.check_and_record(ip, start + 100 + i, 5).is_err());
    }
    // Once the first generation leaves the window, exactly one slot opens:
    // the refused requests took none.
    let later = start + WINDOW_MILLIS;
    assert!(matches!(limiter.check_and_record(ip, later, 5), Ok((5, 5))));
    assert!(limiter.check_and_record(ip, later, 5).is_err());
}

#[test]
fn window_expiry_restores_quota() {
    let mut limiter = RateLimiter::new();
    let ip = ClientIp::V4(42);
    let start: u64 = 300_000_000;
    for _ in 0..5 {
        assert!(limiter.check_and_record(ip, start, 5).is_ok());
    }
    assert!(limiter.check_and_record(ip, start + WINDOW_MILLIS - 1, 5).is_err());
    assert!(matches!(limiter.check_and_record(ip, start + WINDOW_MILLIS, 5), Ok((1, 5))));
}

#[test]
fn other_ips_are_untouched() {
    let mut limiter = RateLimiter::new();
    let a = ClientIp::V4(1);
    let b = ClientIp::V4(2);
    let c = ClientIp::V6(1);
    for _ in 0..5 {
        assert!(limiter.check_and_record(a, 500_000_000, 5).is_ok());
    }
    assert!(limiter.check_and_record(a, 500_000_001, 5).is_err());
    assert!(matches!(limiter.check_and_record(b, 500_000_002, 5), Ok((1, 5))));
    assert!(matches!(limiter.check_and_record(c, 500_000_003, 5), Ok((1, 5))));
}

#[test]
fn at_most_five_in_any_day() {
    let mut limiter = RateLimiter::new();
    let ip = ClientIp::V4(7);
    let hour: u64 = 3_600_000;
    let mut accepted: Vec<u64> = Vec::new();
    for i in 0..100u64 {
        let now = 1_000_000 + i * hour;
        if limiter.check_and_record(ip, now, 5).is_ok() {
            accepted.push(now);
        }
        let in_window = accepted.iter().filter(|t| now < **t + WINDOW_MILLIS).count();
        assert!(in_window <= 5);
    }
    // One request per hour: five are accepted at the start of each day.
    assert_eq!(accepted.len(), 24);
}

#[test]
fn lower_limits_refuse_sooner() {
    let mut limiter = RateLimiter::new();
    let ip = ClientIp::V4(9);
    assert!(matches!(limiter.check_and_record(ip, 1_000, 1), Ok((1, 1))));
    match limiter.check_and_record(ip, 2_000, 1) {
        Err(AppError::RateLimited(m)) => {
            assert_eq!(m, "Daily generation limit reached (1/1). Try again in 24 hours.")
        }
        _ => panic!("expected a refusal"),
    }
    // The refusal recorded nothing: a higher limit still sees one.
    assert!(matches!(limiter.check_and_record(ip, 3_000, 3), Ok((2, 3))));
}

#[test]
fn counts_come_in_turn() {
    let mut limiter = RateLimiter::new();
    let ip = ClientIp::V6(77);
    let mut answers = Vec::new();
    for i in 0..7u64 {
        answers.push(limiter.check_and_record(ip, 50_000 + i, 3).ok().map(|(used, _)| used));
    }
    assert_eq!(answers, vec![Some(1), Some(2), Some(3), None, None, None, None]);
}

#[test]
fn studio_limit_is_unbounded() {
    let mut limiter = RateLimiter::new();
    let ip = ClientIp::V4(3);
    for i in 0..40u64 {
        assert!(matches!(limiter.check_and_record(ip, 10_000 + i, u32::MAX), Ok((used, _)) if used == (i + 1) as u32));
    }
    assert!(matches!(limiter.check_and_record(ip, 20_000, 15), Err(_)));
}
