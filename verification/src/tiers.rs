//! Tier determination from a wallet's $AUDIO token balance.

use vstd::prelude::*;

verus! {

/// User tier levels.
#[derive(Debug, Clone, Copy, PartialEq, Eq, Structural)]
pub enum UserTier {
    Unauthenticated,
    Free,
    Pro,
    Studio,
}

/// Tier threshold for Pro, in whole $AUDIO tokens.
pub const TIER_THRESHOLD_PRO: u64 = 100;

/// Tier threshold for Studio, in whole $AUDIO tokens.
pub const TIER_THRESHOLD_STUDIO: u64 = 1000;

/// Daily generation limits per tier.
pub const LIMIT_UNAUTHENTICATED: u32 = 1;
pub const LIMIT_FREE: u32 = 3;
pub const LIMIT_PRO: u32 = 15;
/// Unlimited.
pub const LIMIT_STUDIO: u32 = 0xffff_ffff;

/// `10^n`.
pub open spec fn pow10(n: nat) -> nat
    decreases n,
{
    if n == 0 {
        1
    } else {
        10 * pow10((n - 1) as nat)
    }
}

/// The balance `amount / 10^decimals` (in whole tokens) is at least `tokens`.
pub open spec fn balance_at_least(amount: u64, decimals: u8, tokens: u64) -> bool {
    amount >= tokens * pow10(decimals as nat)
}

/// The tier that a balance of `amount / 10^decimals` tokens earns.
pub open spec fn spec_tier_from_balance(amount: u64, decimals: u8) -> UserTier {
    if balance_at_least(amount, decimals, TIER_THRESHOLD_STUDIO) {
        UserTier::Studio
    } else if balance_at_least(amount, decimals, TIER_THRESHOLD_PRO) {
        UserTier::Pro
    } else {
        UserTier::Free
    }
}

/// The daily generation limit of a tier.
pub open spec fn spec_daily_limit(tier: UserTier) -> u32 {
    match tier {
        UserTier::Unauthenticated => LIMIT_UNAUTHENTICATED,
        UserTier::Free => LIMIT_FREE,
        UserTier::Pro => LIMIT_PRO,
        UserTier::Studio => LIMIT_STUDIO,
    }
}

proof fn lemma_pow10_positive(n: nat)
    ensures
        pow10(n) >= 1,
    decreases n,
{
    if n > 0 {
        lemma_pow10_positive((n - 1) as nat);
    }
}

/// Whether `amount >= tokens * 10^decimals`, computed without overflow.
fn meets_threshold(amount: u64, decimals: u8, tokens: u64) -> (r: bool)
    ensures
        r == balance_at_least(amount, decimals, tokens),
{
    let mut scaled: u128 = tokens as u128;
    let mut i: u8 = 0;
    assert(pow10(0) == 1);
    while i < decimals
        invariant
            i <= decimals,
            scaled == tokens * pow10(i as nat),
        decreases decimals - i,
    {
        if scaled > amount as u128 {
            proof {
                lemma_pow10_positive((decimals - i) as nat);
                lemma_pow10_split(i as nat, (decimals - i) as nat);
                assert(tokens * pow10(decimals as nat) == scaled * pow10((decimals - i) as nat))
                    by (nonlinear_arith)
                    requires
                        scaled == tokens * pow10(i as nat),
                        pow10(decimals as nat) == pow10(i as nat) * pow10((decimals - i) as nat),
                ;
                assert(scaled * pow10((decimals - i) as nat) >= scaled) by (nonlinear_arith)
                    requires
                        pow10((decimals - i) as nat) >= 1,
                ;
            }
            return false;
        }
        scaled = scaled * 10;
        i = i + 1;
        proof {
            assert(pow10(i as nat) == 10 * pow10((i - 1) as nat));
            assert(scaled == tokens * pow10(i as nat)) by (nonlinear_arith)
                requires
                    scaled == (tokens * pow10((i - 1) as nat)) * 10,
                    pow10(i as nat) == 10 * pow10((i - 1) as nat),
            ;
        }
    }
    amount as u128 >= scaled
}

proof fn lemma_pow10_split(a: nat, b: nat)
    ensures
        pow10(a + b) == pow10(a) * pow10(b),
    decreases a,
{
    if a > 0 {
        let a1 = (a - 1) as nat;
        lemma_pow10_split(a1, b);
        assert(a + b == (a1 + b) + 1);
        assert(pow10(a + b) == 10 * pow10(a1 + b));
        assert(pow10(a) == 10 * pow10(a1));
        let x = pow10(a1);
        let y = pow10(b);
        assert(10 * (x * y) == (10 * x) * y) by (nonlinear_arith);
    } else {
        assert(pow10(0) == 1);
        assert(a + b == b);
    }
}

/// Determine the user tier from an $AUDIO balance of `amount` base units at
/// `decimals` decimal places (that is, `amount / 10^decimals` tokens):
/// Studio from 1000 tokens, Pro from 100 tokens, Free below.
pub fn tier_from_balance(amount: u64, decimals: u8) -> (tier: UserTier)
    ensures
        tier == spec_tier_from_balance(amount, decimals),
        tier != UserTier::Unauthenticated,
{
    if meets_threshold(amount, decimals, TIER_THRESHOLD_STUDIO) {
        UserTier::Studio
    } else if meets_threshold(amount, decimals, TIER_THRESHOLD_PRO) {
        UserTier::Pro
    } else {
        UserTier::Free
    }
}

/// Get the daily generation limit for a tier.
pub fn daily_limit(tier: &UserTier) -> (limit: u32)
    ensures
        limit == spec_daily_limit(*tier),
{
    match tier {
        UserTier::Unauthenticated => LIMIT_UNAUTHENTICATED,
        UserTier::Free => LIMIT_FREE,
        UserTier::Pro => LIMIT_PRO,
        UserTier::Studio => LIMIT_STUDIO,
    }
}

/// The tier's name as the API reports it: its variant in lowercase.
pub open spec fn spec_tier_name(tier: UserTier) -> Seq<char> {
    match tier {
        UserTier::Unauthenticated => "unauthenticated"@,
        UserTier::Free => "free"@,
        UserTier::Pro => "pro"@,
        UserTier::Studio => "studio"@,
    }
}

/// The tier's name as the API reports it.
pub fn tier_name(tier: &UserTier) -> (name: &'static str)
    ensures
        name@ == spec_tier_name(*tier),
{
    match tier {
        UserTier::Unauthenticated => "unauthenticated",
        UserTier::Free => "free",
        UserTier::Pro => "pro",
        UserTier::Studio => "studio",
    }
}

/// The order of the tiers, from Unauthenticated up to Studio.
pub open spec fn tier_rank(tier: UserTier) -> nat {
    match tier {
        UserTier::Unauthenticated => 0,
        UserTier::Free => 1,
        UserTier::Pro => 2,
        UserTier::Studio => 3,
    }
}

/// Holding more $AUDIO never earns a lower tier.
pub proof fn law_tier_monotone(smaller: u64, larger: u64, decimals: u8)
    requires
        smaller <= larger,
    ensures
        tier_rank(spec_tier_from_balance(smaller, decimals)) <= tier_rank(
            spec_tier_from_balance(larger, decimals),
        ),
{
}

proof fn lemma_threshold_carries(a1: u64, d1: u8, a2: u64, d2: u8, tokens: u64)
    requires
        a1 * pow10(d2 as nat) <= a2 * pow10(d1 as nat),
        balance_at_least(a1, d1, tokens),
    ensures
        balance_at_least(a2, d2, tokens),
{
    lemma_pow10_positive(d1 as nat);
    lemma_pow10_positive(d2 as nat);
    let p1 = pow10(d1 as nat);
    let p2 = pow10(d2 as nat);
    assert(a2 >= tokens * p2) by (nonlinear_arith)
        requires
            a1 * p2 <= a2 * p1,
            a1 >= tokens * p1,
            p1 >= 1,
            p2 >= 1,
    ;
}

/// Comparing balances exactly, whatever decimals each is given at: a
/// balance of `a1 / 10^d1` tokens no larger than one of `a2 / 10^d2` never
/// earns the higher tier.
pub proof fn law_tier_monotone_across_decimals(a1: u64, d1: u8, a2: u64, d2: u8)
    requires
        a1 * pow10(d2 as nat) <= a2 * pow10(d1 as nat),
    ensures
        tier_rank(spec_tier_from_balance(a1, d1)) <= tier_rank(spec_tier_from_balance(a2, d2)),
{
    if balance_at_least(a1, d1, TIER_THRESHOLD_STUDIO) {
        lemma_threshold_carries(a1, d1, a2, d2, TIER_THRESHOLD_STUDIO);
    }
    if balance_at_least(a1, d1, TIER_THRESHOLD_PRO) {
        lemma_threshold_carries(a1, d1, a2, d2, TIER_THRESHOLD_PRO);
    }
}

/// A higher tier never has a lower daily limit.
pub proof fn law_limit_monotone(lower: UserTier, higher: UserTier)
    requires
        tier_rank(lower) <= tier_rank(higher),
    ensures
        spec_daily_limit(lower) <= spec_daily_limit(higher),
{
}

} // verus!
