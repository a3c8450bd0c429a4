use preset_gg::tiers::{
    daily_limit, tier_from_balance, tier_name, UserTier, LIMIT_FREE, LIMIT_PRO, LIMIT_STUDIO,
    LIMIT_UNAUTHENTICATED,
};

#[test]
fn tier_thresholds_follow_the_table() {
    // $AUDIO has 8 decimals: 1 token is 100_000_000 base units.
    let token: u64 = 100_000_000;
    assert_eq!(tier_from_balance(0, 8), UserTier::Free);
    assert_eq!(tier_from_balance(99 * token + 99_999_999, 8), UserTier::Free);
    assert_eq!(tier_from_balance(100 * token, 8), UserTier::Pro);
    assert_eq!(tier_from_balance(999 * token, 8), UserTier::Pro);
    assert_eq!(tier_from_balance(1000 * token, 8), UserTier::Studio);
    assert_eq!(tier_from_balance(u64::MAX, 8), UserTier::Studio);
}

#[test]
fn tier_thresholds_without_decimals() {
    assert_eq!(tier_from_balance(99, 0), UserTier::Free);
    assert_eq!(tier_from_balance(100, 0), UserTier::Pro);
    assert_eq!(tier_from_balance(1000, 0), UserTier::Studio);
}

#[test]
fn huge_decimals_never_overflow() {
    // 10^255 dwarfs any u64 amount: the balance is below one token.
    assert_eq!(tier_from_balance(u64::MAX, 255), UserTier::Free);
}

#[test]
fn daily_limits_per_tier() {
    assert_eq!(daily_limit(&UserTier::Unauthenticated), 1);
    assert_eq!(daily_limit(&UserTier::Free), 3);
    assert_eq!(daily_limit(&UserTier::Pro), 15);
    assert_eq!(daily_limit(&UserTier::Studio), u32::MAX);
    assert_eq!(LIMIT_UNAUTHENTICATED, 1);
    assert_eq!(LIMIT_FREE, 3);
    assert_eq!(LIMIT_PRO, 15);
    assert_eq!(LIMIT_STUDIO, u32::MAX);
}

#[test]
fn more_tokens_never_lower_the_tier() {
    let rank = |t: UserTier| match t {
        UserTier::Unauthenticated => 0,
        UserTier::Free => 1,
        UserTier::Pro => 2,
        UserTier::Studio => 3,
    };
    let amounts: [u64; 6] = [0, 50, 100, 500, 1000, 5000];
    for a in amounts {
        for b in amounts {
            if a <= b {
                assert!(rank(tier_from_balance(a, 0)) <= rank(tier_from_balance(b, 0)));
                assert!(
                    daily_limit(&tier_from_balance(a, 0)) <= daily_limit(&tier_from_balance(b, 0))
                );
            }
        }
    }
}

#[test]
fn tier_names_are_lowercase() {
    assert_eq!(tier_name(&UserTier::Unauthenticated), "unauthenticated");
    assert_eq!(tier_name(&UserTier::Free), "free");
    assert_eq!(tier_name(&UserTier::Pro), "pro");
    assert_eq!(tier_name(&UserTier::Studio), "studio");
}

#[test]
fn tiers_compare_exact_balances_across_decimals() {
    // 100 tokens, given at 0, 2 and 8 decimals.
    assert_eq!(tier_from_balance(100, 0), UserTier::Pro);
    assert_eq!(tier_from_balance(10_000, 2), UserTier::Pro);
    assert_eq!(tier_from_balance(10_000_000_000, 8), UserTier::Pro);
    // 99.99 tokens stays below Pro whatever the decimals.
    assert_eq!(tier_from_balance(9_999, 2), UserTier::Free);
    for (amount, decimals) in [(0u64, 0u8), (5, 3), (u64::MAX, 0), (1, 19)] {
        assert_ne!(tier_from_balance(amount, decimals), UserTier::Unauthenticated);
    }
}
