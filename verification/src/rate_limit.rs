//! In-memory, per-IP rate limiting of preset generations over a rolling
//! 24-hour window.

use std::collections::HashMap;
use vstd::prelude::*;
use vstd::string::*;

use crate::errors::AppError;
use crate::text::{decimal, push_decimal};

verus! {

broadcast use vstd::std_specs::hash::group_hash_axioms;


/// Rolling window size in seconds (24 hours).
pub const WINDOW_SECS: u64 = 86400;

/// The rolling window in milliseconds, the unit of the limiter's clock.
pub const WINDOW_MILLIS: u64 = 86_400_000;

/// A client's IP address, by family, as its big-endian integer value.
#[derive(Debug, Clone, Copy, PartialEq, Eq, Structural)]
pub enum ClientIp {
    V4(u32),
    V6(u128),
}

/// A generation at time `t` still counts at time `now`: it lies within the
/// window that ends at `now`.
pub open spec fn in_window(t: u64, now: u64) -> bool {
    t > now - WINDOW_MILLIS
}

/// The timestamps of `ts` that still count at `now`, in order.
pub open spec fn recent(ts: Seq<u64>, now: u64) -> Seq<u64>
    decreases ts.len(),
{
    if ts.len() == 0 {
        seq![]
    } else if in_window(ts.last(), now) {
        recent(ts.drop_last(), now).push(ts.last())
    } else {
        recent(ts.drop_last(), now)
    }
}

/// Pruning never adds timestamps.
pub proof fn lemma_recent_len(ts: Seq<u64>, now: u64)
    ensures
        recent(ts, now).len() <= ts.len(),
    decreases ts.len(),
{
    if ts.len() > 0 {
        lemma_recent_len(ts.drop_last(), now);
    }
}

/// The timestamps recorded for `ip`, none if it has no entry.
pub open spec fn recorded(m: Map<ClientIp, Seq<u64>>, ip: ClientIp) -> Seq<u64> {
    if m.contains_key(ip) {
        m[ip]
    } else {
        seq![]
    }
}

/// What a check at `now` leaves recorded for the checked IP: the
/// timestamps that still count, plus `now` when the request is accepted.
pub open spec fn kept_after_check(
    m: Map<ClientIp, Seq<u64>>,
    ip: ClientIp,
    now: u64,
    limit: u32,
) -> Seq<u64> {
    let kept = recent(recorded(m, ip), now);
    if kept.len() >= limit {
        kept
    } else {
        kept.push(now)
    }
}

/// The records after checking `ip` at `now` against `limit`.
pub open spec fn after_check(m: Map<ClientIp, Seq<u64>>, ip: ClientIp, now: u64, limit: u32) -> Map<
    ClientIp,
    Seq<u64>,
> {
    m.insert(ip, kept_after_check(m, ip, now, limit))
}

/// The generations counted for `ip` after accepting a request at `now`, or
/// none when `limit` of them already count and the request is refused.
pub open spec fn check_outcome(m: Map<ClientIp, Seq<u64>>, ip: ClientIp, now: u64, limit: u32) -> Option<
    nat,
> {
    let kept = recent(recorded(m, ip), now);
    if kept.len() >= limit {
        None
    } else {
        Some(kept.len() + 1)
    }
}

/// No IP has more than `ceiling` timestamps recorded.
pub open spec fn quota_respected(m: Map<ClientIp, Seq<u64>>, ceiling: u32) -> bool {
    forall|ip: ClientIp| #[trigger] m.contains_key(ip) ==> m[ip].len() <= ceiling
}

/// The message answered when `used` of `limit` generations are spent.
pub open spec fn rate_limited_message(used: nat, limit: nat) -> Seq<char> {
    "Daily generation limit reached ("@ + decimal(used) + "/"@ + decimal(limit)
        + "). Try again in 24 hours."@
}

/// Simple in-memory IP-based rate limiter.
///
/// Tracks generation timestamps (milliseconds of a monotonic clock) per IP
/// address and enforces a rolling 24-hour window limit. Entries older than
/// 24h are pruned on each check of their IP.
pub struct RateLimiter {
    v4: HashMap<u32, Vec<u64>>,
    v6: HashMap<u128, Vec<u64>>,
}

impl RateLimiter {
    /// The timestamps recorded per IP.
    pub closed spec fn view(&self) -> Map<ClientIp, Seq<u64>> {
        Map::new(
            |ip: ClientIp|
                match ip {
                    ClientIp::V4(a) => self.v4@.contains_key(a),
                    ClientIp::V6(a) => self.v6@.contains_key(a),
                },
            |ip: ClientIp|
                match ip {
                    ClientIp::V4(a) => self.v4@[a]@,
                    ClientIp::V6(a) => self.v6@[a]@,
                },
        )
    }

    /// An empty limiter.
    pub fn new() -> (r: Self)
        ensures
            r.view() == Map::<ClientIp, Seq<u64>>::empty(),
    {
        let r = RateLimiter { v4: HashMap::new(), v6: HashMap::new() };
        assert(r.view() =~= Map::<ClientIp, Seq<u64>>::empty());
        r
    }

    /// Check if the given IP is under `limit` generations at time `now`
    /// (the caller's tier decides the limit), and record a new generation if
    /// so. Returns `(used_after_this_request, limit)`.
    ///
    /// Returns `AppError::RateLimited` if the IP has exhausted its quota. In
    /// both cases the IP's timestamps outside the window are dropped.
    pub fn check_and_record(&mut self, ip: ClientIp, now: u64, limit: u32) -> (r: Result<
        (u32, u32),
        AppError,
    >)
        ensures
            final(self).view() == after_check(old(self).view(), ip, now, limit),
            match check_outcome(old(self).view(), ip, now, limit) {
                Some(used) => r == Ok::<(u32, u32), AppError>((used as u32, limit)),
                None => r matches Err(AppError::RateLimited(msg)) && msg@ == rate_limited_message(
                    recent(recorded(old(self).view(), ip), now).len(),
                    limit as nat,
                ),
            },
    {
        let ghost before = self.view();
        let outcome = match ip {
            ClientIp::V4(a) => {
                let (entry, outcome) = prune_and_record(take_entry(&mut self.v4, a), now, limit);
                self.v4.insert(a, entry);
                outcome
            },
            ClientIp::V6(a) => {
                let (entry, outcome) = prune_and_record(take_entry(&mut self.v6, a), now, limit);
                self.v6.insert(a, entry);
                outcome
            },
        };
        proof {
            let kept = recent(recorded(before, ip), now);
            let after = if kept.len() >= limit {
                kept
            } else {
                kept.push(now)
            };
            assert(self.view() =~= before.insert(ip, after));
        }
        match outcome {
            Ok(used) => Ok((used, limit)),
            Err(used) => {
                let mut msg = String::from_str("Daily generation limit reached (");
                push_decimal(&mut msg, used as u64);
                msg.append("/");
                push_decimal(&mut msg, limit as u64);
                msg.append("). Try again in 24 hours.");
                Err(AppError::RateLimited(msg))
            },
        }
    }
}

/// Removes `key`'s timestamps from `map`, returning them (none if absent).
fn take_entry<K: std::hash::Hash + Eq>(map: &mut HashMap<K, Vec<u64>>, key: K) -> (ts: Vec<u64>)
    requires
        vstd::std_specs::hash::obeys_key_model::<K>(),
    ensures
        final(map)@ == old(map)@.remove(key),
        ts@ == (if old(map)@.contains_key(key) {
            old(map)@[key]@
        } else {
            seq![]
        }),
{
    match map.remove(&key) {
        Some(ts) => ts,
        None => Vec::new(),
    }
}

/// Prunes `ts` to the timestamps that count at `now` and, if fewer than
/// `limit` remain, records `now`. Returns the new timestamps with `Ok(used)`,
/// the count including this generation, or `Err(used)`, the count that
/// exhausted the quota.
fn prune_and_record(ts: Vec<u64>, now: u64, limit: u32) -> (r: (Vec<u64>, Result<u32, usize>))
    ensures
        ({
            let kept = recent(ts@, now);
            if kept.len() >= limit {
                r.0@ == kept && kept.len() <= usize::MAX && r.1 == Err::<u32, usize>(kept.len() as usize)
            } else {
                r.0@ == kept.push(now) && r.1 == Ok::<u32, usize>((kept.len() + 1) as u32)
            }
        }),
{
    let mut kept: Vec<u64> = Vec::new();
    let mut i: usize = 0;
    while i < ts.len()
        invariant
            i <= ts@.len(),
            kept@ == recent(ts@.take(i as int), now),
            kept@.len() <= i,
        decreases ts@.len() - i,
    {
        proof {
            assert(ts@.take(i + 1).drop_last() =~= ts@.take(i as int));
            assert(ts@.take(i + 1).last() == ts@[i as int]);
        }
        let t = ts[i];
        if t > now || now - t < WINDOW_MILLIS {
            kept.push(t);
        }
        i = i + 1;
    }
    proof {
        assert(ts@.take(ts@.len() as int) =~= ts@);
    }
    let used = kept.len();
    if used >= limit as usize {
        (kept, Err(used))
    } else {
        kept.push(now);
        (kept, Ok((used + 1) as u32))
    }
}


// ── Laws ─────────────────────────────────────────────────────────────────────

/// Pruning at `earlier` and then at `later` is pruning at `later`: what
/// counts at a later time counted at every earlier one.
proof fn lemma_recent_later(ts: Seq<u64>, earlier: u64, later: u64)
    requires
        earlier <= later,
    ensures
        recent(recent(ts, earlier), later) == recent(ts, later),
    decreases ts.len(),
{
    if ts.len() > 0 {
        lemma_recent_later(ts.drop_last(), earlier, later);
        let r = recent(ts.drop_last(), earlier);
        if in_window(ts.last(), earlier) {
            assert(r.push(ts.last()).drop_last() =~= r);
            assert(r.push(ts.last()).last() == ts.last());
        }
    }
}

/// Pruning a concatenation prunes each part.
proof fn lemma_recent_concat(a: Seq<u64>, b: Seq<u64>, now: u64)
    ensures
        recent(a + b, now) == recent(a, now) + recent(b, now),
    decreases b.len(),
{
    if b.len() == 0 {
        assert(a + b =~= a);
        assert(recent(a, now) + recent(b, now) =~= recent(a, now));
    } else {
        lemma_recent_concat(a, b.drop_last(), now);
        assert((a + b).drop_last() =~= a + b.drop_last());
        assert((a + b).last() == b.last());
        if in_window(b.last(), now) {
            assert(recent(a, now) + recent(b.drop_last(), now).push(b.last()) =~= (recent(a, now)
                + recent(b.drop_last(), now)).push(b.last()));
        }
    }
}

/// Every generation counted in a window is a recorded one, so however the
/// clock stands, no IP ever has more than `ceiling` generations counting
/// against it.
pub proof fn law_quota_never_exceeded(m: Map<ClientIp, Seq<u64>>, ip: ClientIp, t: u64, ceiling: u32)
    requires
        quota_respected(m, ceiling),
    ensures
        recent(recorded(m, ip), t).len() <= ceiling,
{
    lemma_recent_len(recorded(m, ip), t);
}

/// Checking against a limit no higher than the ceiling keeps every IP
/// within the ceiling.
pub proof fn law_check_keeps_quota(
    m: Map<ClientIp, Seq<u64>>,
    ip: ClientIp,
    now: u64,
    limit: u32,
    ceiling: u32,
)
    requires
        quota_respected(m, ceiling),
        limit <= ceiling,
    ensures
        quota_respected(after_check(m, ip, now, limit), ceiling),
{
    lemma_recent_len(recorded(m, ip), now);
    let after = after_check(m, ip, now, limit);
    assert forall|other: ClientIp| #[trigger] after.contains_key(other) implies after[other].len()
        <= ceiling by {
        if other != ip {
            assert(m.contains_key(other));
        }
    }
}

/// A request is accepted exactly when fewer than `limit` generations count
/// in the window, and the count it reports, this one included, lies
/// between 1 and the limit.
pub proof fn law_accepted_under_limit(m: Map<ClientIp, Seq<u64>>, ip: ClientIp, now: u64, limit: u32)
    ensures
        check_outcome(m, ip, now, limit) is Some <==> recent(recorded(m, ip), now).len() < limit,
        check_outcome(m, ip, now, limit) matches Some(used) ==> 1 <= used <= limit,
{
}

/// Checking one IP leaves the records of every other IP as they were.
pub proof fn law_other_ips_untouched(
    m: Map<ClientIp, Seq<u64>>,
    ip: ClientIp,
    other: ClientIp,
    now: u64,
    limit: u32,
)
    requires
        other != ip,
    ensures
        recorded(after_check(m, ip, now, limit), other) == recorded(m, other),
{
}

/// A refused request records nothing: what counts for the IP at `now` is
/// the same before and after.
pub proof fn law_refusal_records_nothing(m: Map<ClientIp, Seq<u64>>, ip: ClientIp, now: u64, limit: u32)
    requires
        check_outcome(m, ip, now, limit) is None,
    ensures
        recent(recorded(after_check(m, ip, now, limit), ip), now) == recent(recorded(m, ip), now),
{
    lemma_recent_later(recorded(m, ip), now, now);
}

/// An accepted request adds exactly itself to what counts for the IP.
pub proof fn law_acceptance_records_request(
    m: Map<ClientIp, Seq<u64>>,
    ip: ClientIp,
    now: u64,
    limit: u32,
)
    requires
        check_outcome(m, ip, now, limit) is Some,
    ensures
        recent(recorded(after_check(m, ip, now, limit), ip), now) == recent(recorded(m, ip), now).push(
            now,
        ),
{
    let kept = recent(recorded(m, ip), now);
    lemma_recent_later(recorded(m, ip), now, now);
    assert(kept.push(now).drop_last() =~= kept);
}

/// Once a request uses up the quota, the next request from that IP at the
/// same moment is refused.
pub proof fn law_quota_exhausted_refuses(m: Map<ClientIp, Seq<u64>>, ip: ClientIp, now: u64, limit: u32)
    requires
        check_outcome(m, ip, now, limit) == Some(limit as nat),
    ensures
        check_outcome(after_check(m, ip, now, limit), ip, now, limit) is None,
{
    law_acceptance_records_request(m, ip, now, limit);
}

// ── Runs of checks ───────────────────────────────────────────────────────────

/// The records after checking `ip` against `limit` at each of `times` in
/// turn, from `m`.
pub open spec fn records_after(
    m: Map<ClientIp, Seq<u64>>,
    ip: ClientIp,
    times: Seq<u64>,
    limit: u32,
) -> Map<ClientIp, Seq<u64>>
    decreases times.len(),
{
    if times.len() == 0 {
        m
    } else {
        after_check(records_after(m, ip, times.drop_last(), limit), ip, times.last(), limit)
    }
}

/// What the checks of `ip` against `limit` at each of `times` in turn,
/// from `m`, answer: the count of each accepted request, none for each
/// refused one.
pub open spec fn run_outcomes(
    m: Map<ClientIp, Seq<u64>>,
    ip: ClientIp,
    times: Seq<u64>,
    limit: u32,
) -> Seq<Option<nat>>
    decreases times.len(),
{
    if times.len() == 0 {
        seq![]
    } else {
        run_outcomes(m, ip, times.drop_last(), limit).push(
            check_outcome(records_after(m, ip, times.drop_last(), limit), ip, times.last(), limit),
        )
    }
}

/// The times among `times`, in order, at which checking `ip` against
/// `limit` (in turn, from `m`) accepted the request.
pub open spec fn accepted_times(
    m: Map<ClientIp, Seq<u64>>,
    ip: ClientIp,
    times: Seq<u64>,
    limit: u32,
) -> Seq<u64>
    decreases times.len(),
{
    if times.len() == 0 {
        seq![]
    } else {
        let earlier = accepted_times(m, ip, times.drop_last(), limit);
        if check_outcome(records_after(m, ip, times.drop_last(), limit), ip, times.last(), limit) is Some {
            earlier.push(times.last())
        } else {
            earlier
        }
    }
}

/// The clock never goes back.
pub open spec fn non_decreasing(times: Seq<u64>) -> bool {
    forall|i: int, j: int| 0 <= i <= j < times.len() ==> times[i] <= times[j]
}

/// What counts for `ip` after a run is what counted before it together with
/// the accepted requests, as seen from any moment after the run.
proof fn lemma_run_records(
    m: Map<ClientIp, Seq<u64>>,
    ip: ClientIp,
    times: Seq<u64>,
    limit: u32,
    now: u64,
)
    requires
        non_decreasing(times),
        times.len() > 0 ==> times.last() <= now,
    ensures
        recent(recorded(records_after(m, ip, times, limit), ip), now) == recent(
            recorded(m, ip) + accepted_times(m, ip, times, limit),
            now,
        ),
    decreases times.len(),
{
    if times.len() == 0 {
        assert(recorded(m, ip) + accepted_times(m, ip, times, limit) =~= recorded(m, ip));
    } else {
        let pre = times.drop_last();
        let t = times.last();
        assert(non_decreasing(pre));
        if pre.len() > 0 {
            assert(pre.last() == times[times.len() - 2]);
        }
        lemma_run_records(m, ip, pre, limit, now);
        let before = records_after(m, ip, pre, limit);
        let r = recorded(before, ip);
        let kept = recent(r, t);
        lemma_recent_later(r, t, now);
        let acc = accepted_times(m, ip, pre, limit);
        lemma_recent_concat(recorded(m, ip), acc, now);
        if kept.len() < limit {
            assert(kept.push(t) =~= kept + seq![t]);
            lemma_recent_concat(kept, seq![t], now);
            lemma_recent_concat(recorded(m, ip), acc.push(t), now);
            assert(acc.push(t) =~= acc + seq![t]);
            lemma_recent_concat(acc, seq![t], now);
            assert(seq![t].drop_last() =~= Seq::<u64>::empty());
            assert(recent(recorded(m, ip) + acc, now) + recent(seq![t], now) =~= recent(
                recorded(m, ip),
                now,
            ) + (recent(acc, now) + recent(seq![t], now)));
        }
    }
}

/// The rolling 24-hour limit: whatever the requests of an IP and whenever
/// they come, at every moment from the last of them on, at most `limit` of
/// the accepted ones lie within the last 24 hours.
pub proof fn law_rolling_window_limit(
    m: Map<ClientIp, Seq<u64>>,
    ip: ClientIp,
    times: Seq<u64>,
    limit: u32,
    now: u64,
)
    requires
        non_decreasing(times),
        times.len() > 0 ==> times.last() <= now,
    ensures
        recent(accepted_times(m, ip, times, limit), now).len() <= limit,
    decreases times.len(),
{
    if times.len() > 0 {
        let pre = times.drop_last();
        let t = times.last();
        assert(non_decreasing(pre));
        if pre.len() > 0 {
            assert(pre.last() == times[times.len() - 2]);
        }
        law_rolling_window_limit(m, ip, pre, limit, now);
        let acc = accepted_times(m, ip, pre, limit);
        let before = records_after(m, ip, pre, limit);
        if check_outcome(before, ip, t, limit) is Some {
            // What counted at `t` was fewer than `limit`, and every accepted
            // request that counts at `now` counted at `t`.
            lemma_run_records(m, ip, pre, limit, t);
            lemma_recent_concat(recorded(m, ip), acc, t);
            lemma_recent_later(acc, t, now);
            lemma_recent_len(recent(acc, t), now);
            assert(acc.push(t).drop_last() =~= acc);
        }
    }
}

/// What the run holds is always a sequence of `times`' elements.
proof fn lemma_accepted_from_run(
    m: Map<ClientIp, Seq<u64>>,
    ip: ClientIp,
    times: Seq<u64>,
    limit: u32,
)
    requires
        non_decreasing(times),
    ensures
        forall|k: int|
            0 <= k < accepted_times(m, ip, times, limit).len() ==> times[0]
                <= #[trigger] accepted_times(m, ip, times, limit)[k] <= times.last(),
    decreases times.len(),
{
    if times.len() > 0 {
        let pre = times.drop_last();
        assert(non_decreasing(pre));
        lemma_accepted_from_run(m, ip, pre, limit);
        let acc = accepted_times(m, ip, pre, limit);
        if pre.len() > 0 {
            assert(pre[0] == times[0]);
            assert(pre.last() <= times.last());
        }
        assert forall|k: int| 0 <= k < acc.len() implies times[0] <= #[trigger] acc[k]
            <= times.last() by {
            assert(pre.len() > 0);
        }
    }
}

/// Everything in `s` still counts at `now`, so pruning keeps all of it.
proof fn lemma_recent_all(s: Seq<u64>, now: u64)
    requires
        forall|k: int| 0 <= k < s.len() ==> in_window(#[trigger] s[k], now),
    ensures
        recent(s, now) == s,
    decreases s.len(),
{
    if s.len() > 0 {
        let pre = s.drop_last();
        assert forall|k: int| 0 <= k < pre.len() implies in_window(#[trigger] pre[k], now) by {
            assert(pre[k] == s[k]);
        }
        lemma_recent_all(pre, now);
        assert(in_window(s[s.len() - 1], now));
        assert(pre.push(s.last()) =~= s);
    }
}

/// Requests from an IP with nothing recorded, all within one day, are
/// answered in turn with the counts 1, 2, ... up to `limit`, each once, and
/// every later one is refused.
pub proof fn law_counts_in_turn(
    m: Map<ClientIp, Seq<u64>>,
    ip: ClientIp,
    times: Seq<u64>,
    limit: u32,
)
    requires
        recorded(m, ip).len() == 0,
        non_decreasing(times),
        times.len() > 0 ==> times.last() < times[0] + WINDOW_MILLIS,
    ensures
        run_outcomes(m, ip, times, limit).len() == times.len(),
        forall|i: int|
            0 <= i < times.len() ==> #[trigger] run_outcomes(m, ip, times, limit)[i] == (if i
                < limit {
                Some((i + 1) as nat)
            } else {
                None
            }),
        accepted_times(m, ip, times, limit).len() == if times.len() < limit {
            times.len()
        } else {
            limit as nat
        },
    decreases times.len(),
{
    if times.len() > 0 {
        let pre = times.drop_last();
        let t = times.last();
        let n = pre.len();
        assert(non_decreasing(pre));
        if n > 0 {
            assert(pre[0] == times[0]);
            assert(pre.last() == times[times.len() - 2]);
        }
        law_counts_in_turn(m, ip, pre, limit);
        let acc = accepted_times(m, ip, pre, limit);
        lemma_run_records(m, ip, pre, limit, t);
        assert(recorded(m, ip) + acc =~= acc);
        lemma_accepted_from_run(m, ip, pre, limit);
        assert forall|k: int| 0 <= k < acc.len() implies in_window(#[trigger] acc[k], t) by {
            assert(times[0] <= acc[k]);
        }
        lemma_recent_all(acc, t);
        let outs = run_outcomes(m, ip, pre, limit);
        assert forall|i: int| 0 <= i < times.len() implies #[trigger] run_outcomes(
            m,
            ip,
            times,
            limit,
        )[i] == (if i < limit {
            Some((i + 1) as nat)
        } else {
            None
        }) by {
            if i < n {
                assert(run_outcomes(m, ip, times, limit)[i] == outs[i]);
            }
        }
    }
}

} // verus!
