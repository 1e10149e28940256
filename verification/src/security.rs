use vstd::prelude::*;
use vstd::string::StrSliceExecFns;
use vstd::string::StringSliceAdditionalSpecFns;
use crate::assoc::{
    assoc_keys_unique, assoc_map, lemma_assoc_absent, lemma_assoc_found, lemma_assoc_push,
    lemma_assoc_update,
};
use crate::errors::AppError;
use crate::primitives::{now_seconds, push_char, sha256, sha256_of};

verus! {

/// One origin's fixed rate-limit window: how many requests it has made and
/// when the window ends.
pub struct RateLimitEntry {
    pub key: String,
    pub count: usize,
    pub reset_at: i64,
}

/// One principal's spending profile: an exponential moving average of
/// transaction size (smoothing factor 0.3, kept exactly in integers) and
/// when it was last observed.
pub struct UserProfile {
    pub key: String,
    pub average_tx_size: u64,
    pub last_seen_at: i64,
}

/// Gates every mutating operation: a fixed-window rate limit per origin and
/// a spending-anomaly detector per principal. Windows and profiles are
/// created lazily on first sight of a key and never expired.
pub struct SecurityManager {
    rate_limiter: Vec<RateLimitEntry>,
    anomaly_detector: Vec<UserProfile>,
}

spec fn rl_pairs(s: Seq<RateLimitEntry>) -> Seq<(Seq<char>, (nat, int))> {
    s.map_values(|e: RateLimitEntry| (e.key@, (e.count as nat, e.reset_at as int)))
}

spec fn ad_pairs(s: Seq<UserProfile>) -> Seq<(Seq<char>, (nat, int))> {
    s.map_values(|e: UserProfile| (e.key@, (e.average_tx_size as nat, e.last_seen_at as int)))
}

/// `a + b`, stopping at the largest representable time.
pub open spec fn sat_add_i64(a: int, b: int) -> int {
    if a + b > i64::MAX {
        i64::MAX as int
    } else {
        a + b
    }
}

/// One gated request against the fixed-window rate limiter: a missing or
/// lapsed window restarts at zero and closes sixty seconds after `now`; the
/// counter then grows by one, and the request fails exactly when the new
/// count exceeds the limit.
pub open spec fn spec_rate_limit_step(
    m: Map<Seq<char>, (nat, int)>,
    key: Seq<char>,
    limit: usize,
    now: i64,
) -> (Map<Seq<char>, (nat, int)>, Result<(), AppError>) {
    let in_window = m.contains_key(key) && now < m[key].1;
    let count0: nat = if in_window {
        m[key].0
    } else {
        0
    };
    let reset0: int = if in_window {
        m[key].1
    } else {
        sat_add_i64(now as int, 60)
    };
    let count1: nat = if count0 < usize::MAX as nat {
        count0 + 1
    } else {
        count0
    };
    let result: Result<(), AppError> = if count1 > limit {
        Err(AppError::RateLimitExceeded)
    } else {
        Ok(())
    };
    (m.insert(key, (count1, reset0)), result)
}

/// One observation against the anomaly detector: the running average moves
/// by `avg' = (3 * amount + 7 * avg) / 10` (a first observation starts the
/// average at the amount itself), and the observation is flagged exactly
/// when it exceeds `threshold_tenths / 10` times the updated average.
pub open spec fn spec_anomaly_step(
    m: Map<Seq<char>, (nat, int)>,
    key: Seq<char>,
    amount: u64,
    threshold_tenths: u64,
    now: i64,
) -> (Map<Seq<char>, (nat, int)>, bool) {
    let avg0: int = if m.contains_key(key) {
        m[key].0 as int
    } else {
        amount as int
    };
    let avg1: int = (3 * amount + 7 * avg0) / 10;
    let flagged = 10 * amount > avg1 * threshold_tenths;
    (m.insert(key, (avg1 as nat, now as int)), flagged)
}

fn find_rate_entry(entries: &Vec<RateLimitEntry>, key: &String) -> (r: Option<usize>)
    ensures
        r matches Some(i) ==> i < entries@.len() && entries@[i as int].key@ == key@,
        r is None ==> forall|j: int| 0 <= j < entries@.len() ==> entries@[j].key@ != key@,
{
    let mut i: usize = 0;
    while i < entries.len()
        invariant
            i <= entries@.len(),
            forall|j: int| 0 <= j < i ==> entries@[j].key@ != key@,
        decreases entries@.len() - i,
    {
        if entries[i].key == *key {
            return Some(i);
        }
        i = i + 1;
    }
    None
}

fn find_profile(entries: &Vec<UserProfile>, key: &String) -> (r: Option<usize>)
    ensures
        r matches Some(i) ==> i < entries@.len() && entries@[i as int].key@ == key@,
        r is None ==> forall|j: int| 0 <= j < entries@.len() ==> entries@[j].key@ != key@,
{
    let mut i: usize = 0;
    while i < entries.len()
        invariant
            i <= entries@.len(),
            forall|j: int| 0 <= j < i ==> entries@[j].key@ != key@,
        decreases entries@.len() - i,
    {
        if entries[i].key == *key {
            return Some(i);
        }
        i = i + 1;
    }
    None
}

impl SecurityManager {
    /// Rate-limit windows by origin key: request count and window end.
    pub closed spec fn rl_view(&self) -> Map<Seq<char>, (nat, int)> {
        assoc_map(rl_pairs(self.rate_limiter@))
    }

    /// Anomaly profiles by principal: running average and last-seen time.
    pub closed spec fn ad_view(&self) -> Map<Seq<char>, (nat, int)> {
        assoc_map(ad_pairs(self.anomaly_detector@))
    }

    /// Well-formedness: each origin and each principal has one entry.
    /// `new` establishes it; every method preserves it.
    pub closed spec fn wf(&self) -> bool {
        assoc_keys_unique(rl_pairs(self.rate_limiter@)) && assoc_keys_unique(
            ad_pairs(self.anomaly_detector@),
        )
    }

    pub fn new() -> (m: SecurityManager)
        ensures
            m.wf(),
            m.rl_view() == Map::<Seq<char>, (nat, int)>::empty(),
            m.ad_view() == Map::<Seq<char>, (nat, int)>::empty(),
    {
        let m = SecurityManager { rate_limiter: Vec::new(), anomaly_detector: Vec::new() };
        proof {
            assert(rl_pairs(m.rate_limiter@) =~= Seq::<(Seq<char>, (nat, int))>::empty());
            assert(ad_pairs(m.anomaly_detector@) =~= Seq::<(Seq<char>, (nat, int))>::empty());
        }
        m
    }

    /// Gate one request from `ip` at time `now` against the per-minute
    /// limit.
    pub fn check_rate_limit_at(&mut self, ip: &str, limit_per_minute: usize, now: i64) -> (r:
        Result<(), AppError>)
        requires
            old(self).wf(),
        ensures
            final(self).wf(),
            (final(self).rl_view(), r) == spec_rate_limit_step(
                old(self).rl_view(),
                ip@,
                limit_per_minute,
                now,
            ),
            final(self).ad_view() == old(self).ad_view(),
    {
        let key: String = ip.to_owned();
        let fresh_reset: i64 = if now > i64::MAX - 60 {
            i64::MAX
        } else {
            now + 60
        };
        match find_rate_entry(&self.rate_limiter, &key) {
            Some(i) => {
                let ghost s0 = rl_pairs(self.rate_limiter@);
                proof {
                    lemma_assoc_found(s0, i as int);
                }
                let entry_count = self.rate_limiter[i].count;
                let entry_reset = self.rate_limiter[i].reset_at;
                let count0: usize = if now >= entry_reset {
                    0
                } else {
                    entry_count
                };
                let reset0: i64 = if now >= entry_reset {
                    fresh_reset
                } else {
                    entry_reset
                };
                let count1: usize = if count0 < usize::MAX {
                    count0 + 1
                } else {
                    count0
                };
                self.rate_limiter[i] = RateLimitEntry { key, count: count1, reset_at: reset0 };
                proof {
                    let p = (ip@, (count1 as nat, reset0 as int));
                    assert(rl_pairs(self.rate_limiter@) =~= s0.update(i as int, p));
                    lemma_assoc_update(s0, i as int, p);
                }
                if count1 > limit_per_minute {
                    Err(AppError::RateLimitExceeded)
                } else {
                    Ok(())
                }
            },
            None => {
                let ghost s0 = rl_pairs(self.rate_limiter@);
                proof {
                    assert forall|j: int| 0 <= j < s0.len() implies (#[trigger] s0[j]).0 != ip@ by {
                        assert(s0[j].0 == self.rate_limiter@[j].key@);
                    }
                    lemma_assoc_absent(s0, ip@);
                }
                self.rate_limiter.push(RateLimitEntry { key, count: 1, reset_at: fresh_reset });
                proof {
                    let p = (ip@, (1nat, fresh_reset as int));
                    assert(rl_pairs(self.rate_limiter@) =~= s0.push(p));
                    lemma_assoc_push(s0, p);
                }
                if 1 > limit_per_minute {
                    Err(AppError::RateLimitExceeded)
                } else {
                    Ok(())
                }
            },
        }
    }

    /// Gate one request from `ip` using the current clock. The window logic
    /// is `check_rate_limit_at`, verified for every clock value; this entry
    /// point only supplies the clock reading.
    pub fn check_rate_limit(&mut self, ip: &str, limit_per_minute: usize) -> (r: Result<
        (),
        AppError,
    >)
        requires
            old(self).wf(),
        ensures
            final(self).wf(),
            exists|t: i64|
                (final(self).rl_view(), r) == #[trigger] spec_rate_limit_step(
                    old(self).rl_view(),
                    ip@,
                    limit_per_minute,
                    t,
                ),
            final(self).ad_view() == old(self).ad_view(),
    {
        let now = now_seconds();
        let r = self.check_rate_limit_at(ip, limit_per_minute, now);
        proof {
            assert((self.rl_view(), r) == spec_rate_limit_step(
                old(self).rl_view(),
                ip@,
                limit_per_minute,
                now,
            ));
        }
        r
    }

    /// Evaluate one observed amount for `user_wallet` at time `now`. Returns
    /// whether the observation is anomalous: strictly above
    /// `threshold_tenths / 10` times the updated running average, which the
    /// observation itself already counts toward.
    pub fn detect_anomaly_at(
        &mut self,
        user_wallet: &str,
        transaction_amount: u64,
        threshold_tenths: u64,
        now: i64,
    ) -> (r: Result<bool, AppError>)
        requires
            old(self).wf(),
        ensures
            final(self).wf(),
            ({
                let (m1, flagged) = spec_anomaly_step(
                    old(self).ad_view(),
                    user_wallet@,
                    transaction_amount,
                    threshold_tenths,
                    now,
                );
                final(self).ad_view() == m1 && r == Ok::<bool, AppError>(flagged)
            }),
            final(self).rl_view() == old(self).rl_view(),
    {
        let key: String = user_wallet.to_owned();
        let found = find_profile(&self.anomaly_detector, &key);
        let avg0: u64 = match found {
            Some(i) => {
                proof {
                    lemma_assoc_found(ad_pairs(self.anomaly_detector@), i as int);
                }
                self.anomaly_detector[i].average_tx_size
            },
            None => {
                proof {
                    let ghost s0 = ad_pairs(self.anomaly_detector@);
                    assert forall|j: int| 0 <= j < s0.len() implies (#[trigger] s0[j]).0
                        != user_wallet@ by {
                        assert(s0[j].0 == self.anomaly_detector@[j].key@);
                    }
                    lemma_assoc_absent(s0, user_wallet@);
                }
                transaction_amount
            },
        };
        let amount128 = transaction_amount as u128;
        let avg1_wide: u128 = (3 * amount128 + 7 * (avg0 as u128)) / 10;
        assert(avg1_wide <= 0xFFFFFFFFFFFFFFFFu128);
        let avg1: u64 = avg1_wide as u64;
        proof {
            assert((avg1 as u128) * (threshold_tenths as u128) <= 0xFFFFFFFFFFFFFFFFu128
                * 0xFFFFFFFFFFFFFFFFu128) by (nonlinear_arith)
                requires
                    avg1 <= 0xFFFFFFFFFFFFFFFFu128,
                    threshold_tenths <= 0xFFFFFFFFFFFFFFFFu128,
            ;
        }
        let flagged = 10 * amount128 > (avg1 as u128) * (threshold_tenths as u128);
        let ghost s0 = ad_pairs(self.anomaly_detector@);
        match found {
            Some(i) => {
                self.anomaly_detector[i] = UserProfile {
                    key,
                    average_tx_size: avg1,
                    last_seen_at: now,
                };
                proof {
                    let p = (user_wallet@, (avg1 as nat, now as int));
                    assert(ad_pairs(self.anomaly_detector@) =~= s0.update(i as int, p));
                    lemma_assoc_update(s0, i as int, p);
                }
            },
            None => {
                self.anomaly_detector.push(
                    UserProfile { key, average_tx_size: avg1, last_seen_at: now },
                );
                proof {
                    let p = (user_wallet@, (avg1 as nat, now as int));
                    assert(ad_pairs(self.anomaly_detector@) =~= s0.push(p));
                    lemma_assoc_push(s0, p);
                }
            },
        }
        Ok(flagged)
    }

    /// Evaluate one observed amount using the current clock. The detection
    /// logic is `detect_anomaly_at`, verified for every clock value; this
    /// entry point only supplies the clock reading.
    pub fn detect_anomaly(
        &mut self,
        user_wallet: &str,
        transaction_amount: u64,
        threshold_tenths: u64,
    ) -> (r: Result<bool, AppError>)
        requires
            old(self).wf(),
        ensures
            final(self).wf(),
            exists|t: i64|
                {
                    let (m1, flagged) = #[trigger] spec_anomaly_step(
                        old(self).ad_view(),
                        user_wallet@,
                        transaction_amount,
                        threshold_tenths,
                        t,
                    );
                    final(self).ad_view() == m1 && r == Ok::<bool, AppError>(flagged)
                },
            final(self).rl_view() == old(self).rl_view(),
    {
        let now = now_seconds();
        let r = self.detect_anomaly_at(user_wallet, transaction_amount, threshold_tenths, now);
        proof {
            let (m1, flagged) = spec_anomaly_step(
                old(self).ad_view(),
                user_wallet@,
                transaction_amount,
                threshold_tenths,
                now,
            );
            assert(self.ad_view() == m1 && r == Ok::<bool, AppError>(flagged));
        }
        r
    }

    /// An unreadable origin is rejected: a blank address never passes.
    pub fn validate_ip(ip: &str) -> (r: Result<(), AppError>)
        ensures
            ip@.len() == 0 ==> (r matches Err(e) && e matches AppError::InvalidRequest(m) && m@
                == "Invalid IP address"@),
            ip@.len() != 0 ==> r == Ok::<(), AppError>(()),
    {
        if ip.is_empty() {
            return Err(AppError::InvalidRequest(String::from_str("Invalid IP address")));
        }
        Ok(())
    }

    /// The device fingerprint of a user agent at an origin: the lowercase
    /// hex form of the SHA-256 digest of `user_agent`, a colon, and `ip`.
    pub fn generate_device_fingerprint(user_agent: &str, ip: &str) -> (r: String)
        ensures
            r@ == spec_hex_lower(
                sha256_of(user_agent.spec_bytes() + seq![58u8] + ip.spec_bytes()),
            ),
            r@.len() == 64,
    {
        let mut input = user_agent.as_bytes_vec();
        input.push(58);
        let mut ip_bytes = ip.as_bytes_vec();
        input.append(&mut ip_bytes);
        proof {
            assert(input@ =~= user_agent.spec_bytes() + seq![58u8] + ip.spec_bytes());
        }
        let digest = sha256(input.as_slice());
        hex_lower(digest.as_slice())
    }

    /// Enforce fingerprint consistency: a stored fingerprint that differs
    /// from the current one is suspicious; none stored always passes.
    pub fn validate_device_fingerprint(stored: &Option<String>, current: &str) -> (r: Result<
        (),
        AppError,
    >)
        ensures
            r == spec_validate_fingerprint(*stored, current@),
    {
        match stored {
            Some(fingerprint) => {
                let cur: String = current.to_owned();
                if !(*fingerprint == cur) {
                    Err(AppError::SuspiciousActivity)
                } else {
                    Ok(())
                }
            },
            None => Ok(()),
        }
    }
}

/// What fingerprint validation yields: failure exactly when a stored
/// fingerprint exists and differs from the current one.
pub open spec fn spec_validate_fingerprint(stored: Option<String>, current: Seq<char>) -> Result<
    (),
    AppError,
> {
    match stored {
        Option::Some(fingerprint) => if fingerprint@ != current {
            Err(AppError::SuspiciousActivity)
        } else {
            Ok(())
        },
        Option::None => Ok(()),
    }
}

impl Default for SecurityManager {
    fn default() -> (m: Self)
        ensures
            m.wf(),
            m.rl_view() == Map::<Seq<char>, (nat, int)>::empty(),
            m.ad_view() == Map::<Seq<char>, (nat, int)>::empty(),
    {
        SecurityManager::new()
    }
}

/// The lowercase hex character for a value below sixteen.
pub open spec fn spec_hex_digit(n: int) -> char {
    if n == 0 {
        '0'
    } else if n == 1 {
        '1'
    } else if n == 2 {
        '2'
    } else if n == 3 {
        '3'
    } else if n == 4 {
        '4'
    } else if n == 5 {
        '5'
    } else if n == 6 {
        '6'
    } else if n == 7 {
        '7'
    } else if n == 8 {
        '8'
    } else if n == 9 {
        '9'
    } else if n == 10 {
        'a'
    } else if n == 11 {
        'b'
    } else if n == 12 {
        'c'
    } else if n == 13 {
        'd'
    } else if n == 14 {
        'e'
    } else {
        'f'
    }
}

/// The lowercase hex text of a byte sequence: two characters per byte.
pub open spec fn spec_hex_lower(data: Seq<u8>) -> Seq<char>
    decreases data.len(),
{
    if data.len() == 0 {
        Seq::<char>::empty()
    } else {
        seq![
            spec_hex_digit(data[0] as int / 16),
            spec_hex_digit(data[0] as int % 16),
        ] + spec_hex_lower(data.drop_first())
    }
}

fn hex_digit(n: u8) -> (c: char)
    requires
        n < 16,
    ensures
        c == spec_hex_digit(n as int),
{
    match n {
        0 => '0',
        1 => '1',
        2 => '2',
        3 => '3',
        4 => '4',
        5 => '5',
        6 => '6',
        7 => '7',
        8 => '8',
        9 => '9',
        10 => 'a',
        11 => 'b',
        12 => 'c',
        13 => 'd',
        14 => 'e',
        _ => 'f',
    }
}

/// Render bytes as lowercase hex.
fn hex_lower(data: &[u8]) -> (r: String)
    ensures
        r@ == spec_hex_lower(data@),
        r@.len() == 2 * data@.len(),
{
    let mut out = String::new();
    let n = data.len();
    proof {
        assert(data@.skip(0) =~= data@);
    }
    let mut i: usize = 0;
    while i < n
        invariant
            n == data@.len(),
            i <= n,
            out@.len() == 2 * i,
            spec_hex_lower(data@) =~= out@ + spec_hex_lower(data@.skip(i as int)),
        decreases n - i,
    {
        let b = data[i];
        push_char(&mut out, hex_digit(b / 16));
        push_char(&mut out, hex_digit(b % 16));
        proof {
            assert(data@.skip(i as int)[0] == data@[i as int]);
            assert(data@.skip(i as int).drop_first() =~= data@.skip(i as int + 1));
        }
        i = i + 1;
    }
    proof {
        assert(data@.skip(n as int) =~= Seq::<u8>::empty());
        assert(spec_hex_lower(data@) =~= out@);
    }
    out
}

/// Repeated gated requests for one key, all at the same instant; yields the
/// state after `k` requests and the `k`-th result.
pub open spec fn spec_rate_limit_calls(
    m: Map<Seq<char>, (nat, int)>,
    key: Seq<char>,
    limit: usize,
    now: i64,
    k: nat,
) -> (Map<Seq<char>, (nat, int)>, Result<(), AppError>)
    decreases k,
{
    if k == 0 {
        (m, Ok(()))
    } else {
        let (m1, _) = spec_rate_limit_calls(m, key, limit, now, (k - 1) as nat);
        spec_rate_limit_step(m1, key, limit, now)
    }
}

/// Within one window, the counter counts: starting with no window for the
/// key, after `k` requests at one instant the count reads `k`, every
/// request up to the limit passes, and each one beyond it fails.
pub proof fn lemma_rate_limit_window_counts(
    m: Map<Seq<char>, (nat, int)>,
    key: Seq<char>,
    limit: usize,
    now: i64,
    k: nat,
)
    requires
        !m.contains_key(key),
        1 <= k <= usize::MAX,
        now < i64::MAX,
    ensures
        ({
            let (mk, rk) = spec_rate_limit_calls(m, key, limit, now, k);
            &&& mk.contains_key(key)
            &&& mk[key].0 == k
            &&& mk[key].1 == sat_add_i64(now as int, 60)
            &&& (rk is Ok <==> k <= limit)
        }),
    decreases k,
{
    if k > 1 {
        lemma_rate_limit_window_counts(m, key, limit, now, (k - 1) as nat);
    } else {
        assert(spec_rate_limit_calls(m, key, limit, now, 0) == (m, Ok::<(), AppError>(())));
    }
}

/// When a window has lapsed, the counter restarts: the next request counts
/// as the first of a fresh sixty-second window, and passes exactly when the
/// limit allows any request at all.
pub proof fn lemma_rate_limit_window_rollover(
    m: Map<Seq<char>, (nat, int)>,
    key: Seq<char>,
    limit: usize,
    now: i64,
)
    requires
        m.contains_key(key),
        now >= m[key].1,
    ensures
        ({
            let (m1, r) = spec_rate_limit_step(m, key, limit, now);
            &&& m1[key].0 == 1
            &&& m1[key].1 == sat_add_i64(now as int, 60)
            &&& (r is Ok <==> limit >= 1)
        }),
{
}

/// A principal's first observation is never anomalous when the threshold
/// multiplier is at least one: the observation seeds its own baseline.
pub proof fn lemma_anomaly_first_observation(
    m: Map<Seq<char>, (nat, int)>,
    key: Seq<char>,
    amount: u64,
    threshold_tenths: u64,
    now: i64,
)
    requires
        !m.contains_key(key),
        threshold_tenths >= 10,
    ensures
        !spec_anomaly_step(m, key, amount, threshold_tenths, now).1,
{
    let avg1 = (3 * amount + 7 * amount) / 10int;
    assert(avg1 == amount);
    assert(avg1 * threshold_tenths >= 10 * amount) by (nonlinear_arith)
        requires
            avg1 == amount,
            threshold_tenths >= 10,
            amount >= 0,
    ;
}

} // verus!
