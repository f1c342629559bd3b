//! Rate limiting by fixed windows.
//!
//! A limiter counts the requests of each key in a window that begins with
//! the key's first request and lasts for the configured time. A request
//! that arrives when the window is full is turned away and told when to
//! come back; one that arrives after the window has ended begins a new
//! window.
//!
//! Time is given in milliseconds on a clock that does not go back. The
//! library does not read the clock.

use crate::text::{concat, nat_decimal, opt_text, str_eq, u64_decimal};
use vstd::prelude::*;
use vstd::string::*;

verus! {

/// How often the limiters are cleaned up, in milliseconds: every five
/// minutes.
pub const CLEANUP_INTERVAL_MS: u64 = 300_000;

/// The status of a request that is turned away.
pub const TOO_MANY_REQUESTS: u16 = 429;

/// How many requests a key may make in how long a window.
#[derive(Clone, Copy, Debug)]
pub struct RateLimitConfig {
    /// Maximum requests allowed in the window.
    pub max_requests: u32,
    /// The length of the window, in milliseconds.
    pub window_ms: u64,
}

impl Default for RateLimitConfig {
    /// 100 requests a minute.
    fn default() -> (r: RateLimitConfig)
        ensures
            r.max_requests == 100,
            r.window_ms == 60_000,
    {
        RateLimitConfig { max_requests: 100, window_ms: 60_000 }
    }
}

/// The window of one key.
#[derive(Debug)]
pub struct RateLimitEntry {
    pub key: String,
    pub count: u32,
    pub window_start: u64,
}

/// A window as plain values: how many requests were counted, and when it
/// began.
pub type Window = (u32, u64);

/// How long ago `start` was at `now`.
pub open spec fn elapsed(now: u64, start: u64) -> int {
    if now >= start {
        now - start
    } else {
        0
    }
}

/// The window a request at `now` falls into: the key's window if it has
/// one that has not ended, else a new, empty window that begins now.
pub open spec fn window_at(held: Option<Window>, config: RateLimitConfig, now: u64) -> Window {
    match held {
        Some(w) => if elapsed(now, w.1) >= config.window_ms {
            (0u32, now)
        } else {
            w
        },
        None => (0u32, now),
    }
}

/// When a request that is turned away at `now` may come back, in seconds:
/// what is left of the window in whole seconds, and at least one.
pub open spec fn retry_after(window: Window, config: RateLimitConfig, now: u64) -> u64 {
    let left = config.window_ms / 1000 - elapsed(now, window.1) / 1000;
    if left >= 1 {
        left as u64
    } else {
        1
    }
}

/// What a request at `now` is told: how many requests are left in its
/// window, or when to come back.
pub open spec fn verdict(held: Option<Window>, config: RateLimitConfig, now: u64) -> Result<
    u32,
    u64,
> {
    let w = window_at(held, config, now);
    if w.0 >= config.max_requests {
        Err(retry_after(w, config, now))
    } else {
        Ok((config.max_requests - (w.0 + 1)) as u32)
    }
}

/// The key's window after a request at `now`: a request that is let
/// through is counted, one that is turned away is not.
pub open spec fn window_after(held: Option<Window>, config: RateLimitConfig, now: u64) -> Window {
    let w = window_at(held, config, now);
    if w.0 >= config.max_requests {
        w
    } else {
        ((w.0 + 1) as u32, w.1)
    }
}

/// The key's window after requests at the given times, in order.
pub open spec fn window_after_all(held: Option<Window>, config: RateLimitConfig, times: Seq<u64>) -> Option<
    Window,
>
    decreases times.len(),
{
    if times.len() == 0 {
        held
    } else {
        window_after_all(
            Some(window_after(held, config, times[0])),
            config,
            times.drop_first(),
        )
    }
}

/// What a cleanup at `now` leaves of a window: the window, unless it began
/// `max_age_ms` or longer ago.
pub open spec fn kept_window(held: Option<Window>, max_age_ms: u64, now: u64) -> Option<Window> {
    match held {
        Some(w) => if elapsed(now, w.1) < max_age_ms {
            Some(w)
        } else {
            None
        },
        None => None,
    }
}

/// The window of `key` among the first `upto` entries.
pub open spec fn window_of(entries: Seq<RateLimitEntry>, key: Seq<char>, upto: int) -> Option<
    Window,
>
    decreases upto,
{
    if upto <= 0 || upto > entries.len() {
        None
    } else if entries[upto - 1].key@ == key {
        Some((entries[upto - 1].count, entries[upto - 1].window_start))
    } else {
        window_of(entries, key, upto - 1)
    }
}

/// No key has two entries.
pub open spec fn distinct_keys(entries: Seq<RateLimitEntry>) -> bool {
    forall|i: int, j: int| 0 <= i < j < entries.len() ==> entries[i].key@ != entries[j].key@
}

/// An in-memory rate limiter. It holds one window for each key it has
/// seen and not forgotten.
#[derive(Debug)]
pub struct RateLimiter {
    entries: Vec<RateLimitEntry>,
}

proof fn window_absent(entries: Seq<RateLimitEntry>, key: Seq<char>, upto: int)
    requires
        0 <= upto <= entries.len(),
        forall|j: int| 0 <= j < upto ==> entries[j].key@ != key,
    ensures
        window_of(entries, key, upto) is None,
    decreases upto,
{
    if upto > 0 {
        window_absent(entries, key, upto - 1);
    }
}

proof fn window_same_prefix(
    a: Seq<RateLimitEntry>,
    b: Seq<RateLimitEntry>,
    key: Seq<char>,
    upto: int,
)
    requires
        0 <= upto <= a.len(),
        upto <= b.len(),
        forall|j: int| 0 <= j < upto ==> a[j] == b[j],
    ensures
        window_of(a, key, upto) == window_of(b, key, upto),
    decreases upto,
{
    if upto > 0 {
        window_same_prefix(a, b, key, upto - 1);
    }
}

proof fn window_after_update(
    a: Seq<RateLimitEntry>,
    b: Seq<RateLimitEntry>,
    at: int,
    key: Seq<char>,
    upto: int,
)
    requires
        0 <= at < a.len(),
        a.len() == b.len(),
        0 <= upto <= a.len(),
        distinct_keys(a),
        b[at].key@ == a[at].key@,
        forall|j: int| 0 <= j < a.len() && j != at ==> a[j] == b[j],
    ensures
        window_of(b, key, upto) == if key == a[at].key@ && at < upto {
            Some((b[at].count, b[at].window_start))
        } else {
            window_of(a, key, upto)
        },
    decreases upto,
{
    if upto > 0 {
        window_after_update(a, b, at, key, upto - 1);
        if upto - 1 != at && b[upto - 1].key@ == key && key == a[at].key@ {
            assert(a[upto - 1].key@ == a[at].key@);
        }
    }
}

proof fn window_at_index(entries: Seq<RateLimitEntry>, at: int, upto: int)
    requires
        0 <= at < upto <= entries.len(),
        distinct_keys(entries),
    ensures
        window_of(entries, entries[at].key@, upto) == Some(
            (entries[at].count, entries[at].window_start),
        ),
    decreases upto,
{
    if upto - 1 != at {
        window_at_index(entries, at, upto - 1);
    }
}

/// The index of the entry of `key`, if it has one.
fn position(entries: &Vec<RateLimitEntry>, key: &str) -> (r: Option<usize>)
    ensures
        match r {
            Some(i) => i < entries.len() && entries[i as int].key@ == key@,
            None => forall|j: int| 0 <= j < entries.len() ==> entries[j].key@ != key@,
        },
{
    let mut i: usize = 0;
    while i < entries.len()
        invariant
            i <= entries.len(),
            forall|j: int| 0 <= j < i ==> entries[j].key@ != key@,
        decreases entries.len() - i,
    {
        if str_eq(entries[i].key.as_str(), key) {
            return Some(i);
        }
        i += 1;
    }
    None
}

fn elapsed_ms(now: u64, start: u64) -> (r: u64)
    ensures
        r == elapsed(now, start),
{
    if now >= start {
        now - start
    } else {
        0
    }
}

impl RateLimiter {
    #[verifier::type_invariant]
    spec fn one_entry_a_key(&self) -> bool {
        distinct_keys(self.entries@)
    }

    /// The window of `key`, if it has one.
    pub closed spec fn window(&self, key: Seq<char>) -> Option<Window> {
        window_of(self.entries@, key, self.entries@.len() as int)
    }

    /// How many keys have a window.
    pub closed spec fn held(&self) -> nat {
        self.entries@.len()
    }

    /// How many keys have a window.
    pub fn len(&self) -> (r: usize)
        ensures
            r == self.held(),
    {
        self.entries.len()
    }

    /// The window of `key`, if it has one: how many of its requests were
    /// counted, and when the window began.
    pub fn window_of_key(&self, key: &str) -> (r: Option<Window>)
        ensures
            r == self.window(key@),
    {
        proof {
            use_type_invariant(self);
        }
        match position(&self.entries, key) {
            Some(i) => {
                proof {
                    window_at_index(self.entries@, i as int, self.entries@.len() as int);
                }
                Some((self.entries[i].count, self.entries[i].window_start))
            },
            None => {
                proof {
                    window_absent(self.entries@, key@, self.entries@.len() as int);
                }
                None
            },
        }
    }

    /// A limiter that has seen no request.
    pub fn new() -> (r: RateLimiter)
        ensures
            r.held() == 0,
            forall|key: Seq<char>| r.window(key) is None,
    {
        RateLimiter { entries: Vec::new() }
    }

    /// Decides on a request of `key` at `now`: `Ok` with the number of
    /// requests the key has left in its window, or `Err` with the seconds
    /// after which to come back.
    pub fn check(&mut self, key: &str, config: &RateLimitConfig, now: u64) -> (r: Result<u32, u64>)
        ensures
            r == verdict(old(self).window(key@), *config, now),
            final(self).window(key@) == Some(window_after(old(self).window(key@), *config, now)),
            forall|other: Seq<char>|
                other != key@ ==> final(self).window(other) == old(self).window(other),
    {
        proof {
            use_type_invariant(&*self);
        }
        let ghost before = self.entries@;
        let mut entries: Vec<RateLimitEntry> = Vec::new();
        std::mem::swap(&mut entries, &mut self.entries);
        let n: usize = entries.len();
        let found = position(&entries, key);
        let (held_count, held_start, fresh) = match found {
            Some(i) => (entries[i].count, entries[i].window_start, false),
            None => (0u32, now, true),
        };
        proof {
            match found {
                Some(i) => {
                    window_at_index(before, i as int, n as int);
                },
                None => {
                    window_absent(before, key@, n as int);
                },
            }
        }
        let (count, start) = if !fresh && elapsed_ms(now, held_start) >= config.window_ms {
            (0u32, now)
        } else {
            (held_count, held_start)
        };
        assert((count, start) == window_at(old(self).window(key@), *config, now));
        let (result, count_after) = if count >= config.max_requests {
            let left = config.window_ms / 1000 - elapsed_ms(now, start) / 1000;
            (
                Err(
                    if left >= 1 {
                        left
                    } else {
                        1
                    },
                ),
                count,
            )
        } else {
            (Ok(config.max_requests - (count + 1)), count + 1)
        };
        let entry = RateLimitEntry {
            key: String::from_str(key),
            count: count_after,
            window_start: start,
        };
        match found {
            Some(i) => {
                entries.set(i, entry);
                proof {
                    let after = entries@;
                    assert forall|k: Seq<char>|
                        window_of(after, k, n as int) == if k == key@ {
                            Some((after[i as int].count, after[i as int].window_start))
                        } else {
                            window_of(before, k, n as int)
                        } by {
                        window_after_update(before, after, i as int, k, n as int);
                    }
                    assert forall|a: int, b: int| 0 <= a < b < after.len() implies after[a].key@
                        != after[b].key@ by {
                        assert(after[a].key@ == before[a].key@);
                        assert(after[b].key@ == before[b].key@);
                    }
                }
            },
            None => {
                entries.push(entry);
                proof {
                    let after = entries@;
                    assert forall|a: int, b: int| 0 <= a < b < after.len() implies after[a].key@
                        != after[b].key@ by {
                        assert(after[a] == before[a]);
                        if b < n {
                            assert(after[b] == before[b]);
                        }
                    }
                    assert forall|other: Seq<char>| other != key@ implies window_of(
                        after,
                        other,
                        after.len() as int,
                    ) == window_of(before, other, n as int) by {
                        window_same_prefix(after, before, other, n as int);
                    }
                }
            },
        }
        self.entries = entries;
        result
    }

    /// Forgets every window that began `max_age_ms` or longer ago.
    pub fn cleanup(&mut self, max_age_ms: u64, now: u64)
        ensures
            forall|key: Seq<char>|
                final(self).window(key) == kept_window(old(self).window(key), max_age_ms, now),
    {
        proof {
            use_type_invariant(&*self);
        }
        let ghost before = self.entries@;
        let mut kept: Vec<RateLimitEntry> = Vec::new();
        let mut i: usize = 0;
        while i < self.entries.len()
            invariant
                i <= self.entries.len(),
                self.entries@ == before,
                distinct_keys(before),
                distinct_keys(kept@),
                forall|j: int|
                    0 <= j < kept@.len() ==> exists|k: int|
                        0 <= k < i && before[k].key@ == (#[trigger] kept@[j]).key@,
                forall|key: Seq<char>|
                    window_of(kept@, key, kept@.len() as int) == (match window_of(
                        before,
                        key,
                        i as int,
                    ) {
                        Some(w) => if elapsed(now, w.1) < max_age_ms {
                            Some(w)
                        } else {
                            None
                        },
                        None => None,
                    }),
            decreases self.entries.len() - i,
        {
            let ghost kept_before = kept@;
            if elapsed_ms(now, self.entries[i].window_start) < max_age_ms {
                kept.push(
                    RateLimitEntry {
                        key: self.entries[i].key.clone(),
                        count: self.entries[i].count,
                        window_start: self.entries[i].window_start,
                    },
                );
                proof {
                    let after = kept@;
                    assert forall|a: int, b: int| 0 <= a < b < after.len() implies after[a].key@
                        != after[b].key@ by {
                        if b == kept_before.len() {
                            assert(after[a] == kept_before[a]);
                            let k = choose|k: int|
                                0 <= k < i && before[k].key@ == (#[trigger] kept_before[a]).key@;
                            assert(before[k].key@ != before[i as int].key@);
                        } else {
                            assert(after[a] == kept_before[a] && after[b] == kept_before[b]);
                        }
                    }
                    assert forall|j: int| 0 <= j < after.len() implies exists|k: int|
                        0 <= k < i + 1 && before[k].key@ == (#[trigger] after[j]).key@ by {
                        if j < kept_before.len() {
                            assert(after[j] == kept_before[j]);
                            let k = choose|k: int|
                                0 <= k < i && before[k].key@ == (#[trigger] kept_before[j]).key@;
                            assert(0 <= k < i + 1 && before[k].key@ == after[j].key@);
                        } else {
                            assert(before[i as int].key@ == after[j].key@);
                        }
                    }
                    assert forall|key: Seq<char>|
                        window_of(after, key, after.len() as int) == (match window_of(
                            before,
                            key,
                            i + 1,
                        ) {
                            Some(w) => if elapsed(now, w.1) < max_age_ms {
                                Some(w)
                            } else {
                                None
                            },
                            None => None,
                        }) by {
                        window_same_prefix(after, kept_before, key, kept_before.len() as int);
                    }
                }
            } else {
                proof {
                    assert forall|j: int| 0 <= j < kept@.len() implies exists|k: int|
                        0 <= k < i + 1 && before[k].key@ == (#[trigger] kept@[j]).key@ by {
                        let k = choose|k: int|
                            0 <= k < i && before[k].key@ == (#[trigger] kept@[j]).key@;
                        assert(0 <= k < i + 1 && before[k].key@ == kept@[j].key@);
                    }
                    assert forall|key: Seq<char>|
                        window_of(kept@, key, kept@.len() as int) == (match window_of(
                            before,
                            key,
                            i + 1,
                        ) {
                            Some(w) => if elapsed(now, w.1) < max_age_ms {
                                Some(w)
                            } else {
                                None
                            },
                            None => None,
                        }) by {
                        if before[i as int].key@ == key {
                            // The key has no earlier entry, so nothing was
                            // kept for it.
                            window_absent_before(before, key, i as int);
                        }
                    }
                }
            }
            i += 1;
        }
        self.entries = kept;
    }
}

/// A key whose entry stands at `at` has no window among the entries
/// before it.
proof fn window_absent_before(entries: Seq<RateLimitEntry>, key: Seq<char>, at: int)
    requires
        0 <= at < entries.len(),
        distinct_keys(entries),
        entries[at].key@ == key,
    ensures
        window_of(entries, key, at) is None,
{
    window_absent(entries, key, at);
}

/// The limiters of the gateway: one by session for the proxy, one by
/// address for logins.
#[derive(Debug)]
pub struct RateLimitState {
    pub session_limiter: RateLimiter,
    pub ip_limiter: RateLimiter,
    pub session_config: RateLimitConfig,
    pub ip_config: RateLimitConfig,
}

/// The age at which a window is forgotten: twice the length of a window.
pub open spec fn max_age_of(config: RateLimitConfig) -> u64 {
    if config.window_ms * 2 > u64::MAX {
        u64::MAX
    } else {
        (config.window_ms * 2) as u64
    }
}

fn max_age(config: &RateLimitConfig) -> (r: u64)
    ensures
        r == max_age_of(*config),
{
    if config.window_ms > u64::MAX / 2 {
        u64::MAX
    } else {
        config.window_ms * 2
    }
}

impl Default for RateLimitState {
    /// 100 requests a minute for each session, 10 logins a minute from
    /// each address.
    fn default() -> (r: RateLimitState)
        ensures
            r.session_config.max_requests == 100,
            r.session_config.window_ms == 60_000,
            r.ip_config.max_requests == 10,
            r.ip_config.window_ms == 60_000,
            forall|key: Seq<char>| r.session_limiter.window(key) is None,
            forall|key: Seq<char>| r.ip_limiter.window(key) is None,
    {
        RateLimitState {
            session_limiter: RateLimiter::new(),
            ip_limiter: RateLimiter::new(),
            session_config: RateLimitConfig { max_requests: 100, window_ms: 60_000 },
            ip_config: RateLimitConfig { max_requests: 10, window_ms: 60_000 },
        }
    }
}

impl RateLimitState {
    /// Limiters with the given configurations.
    pub fn new(session_config: RateLimitConfig, ip_config: RateLimitConfig) -> (r: RateLimitState)
        ensures
            r.session_config == session_config,
            r.ip_config == ip_config,
            forall|key: Seq<char>| r.session_limiter.window(key) is None,
            forall|key: Seq<char>| r.ip_limiter.window(key) is None,
    {
        RateLimitState {
            session_limiter: RateLimiter::new(),
            ip_limiter: RateLimiter::new(),
            session_config,
            ip_config,
        }
    }

    /// The time between two cleanups, in milliseconds. The cleanup itself
    /// is [`RateLimitState::cleanup`].
    pub fn start_cleanup_task() -> (r: u64)
        ensures
            r == CLEANUP_INTERVAL_MS,
    {
        CLEANUP_INTERVAL_MS
    }

    /// Forgets, in both limiters, every window that is older than twice
    /// the limiter's window length, so that the limiters do not grow
    /// without bound.
    pub fn cleanup(&mut self, now: u64)
        ensures
            final(self).session_config == old(self).session_config,
            final(self).ip_config == old(self).ip_config,
            forall|key: Seq<char>|
                final(self).session_limiter.window(key) == kept_window(
                    old(self).session_limiter.window(key),
                    max_age_of(old(self).session_config),
                    now,
                ),
            forall|key: Seq<char>|
                final(self).ip_limiter.window(key) == kept_window(
                    old(self).ip_limiter.window(key),
                    max_age_of(old(self).ip_config),
                    now,
                ),
    {
        let session_age = max_age(&self.session_config);
        let ip_age = max_age(&self.ip_config);
        self.session_limiter.cleanup(session_age, now);
        self.ip_limiter.cleanup(ip_age, now);
    }
}

/// What a client that is turned away is told.
#[derive(Debug)]
pub struct RateLimitRejection {
    /// The status, 429.
    pub status: u16,
    /// The value of the `Retry-After` header.
    pub retry_after_header: String,
    /// The `error` member of the body.
    pub error: String,
    /// The `message` member of the body.
    pub message: String,
    /// The `retry_after` member of the body, in seconds.
    pub retry_after: u64,
}

/// The answer to a request that is turned away.
pub fn rate_limit_response(retry_after: u64) -> (r: RateLimitRejection)
    ensures
        r.status == TOO_MANY_REQUESTS,
        r.retry_after == retry_after,
        r.retry_after_header@ == nat_decimal(retry_after as nat),
        r.error@ == "rate_limit_exceeded"@,
        r.message@ == "Too many requests. Please slow down."@,
{
    RateLimitRejection {
        status: TOO_MANY_REQUESTS,
        retry_after_header: u64_decimal(retry_after),
        error: String::from_str("rate_limit_exceeded"),
        message: String::from_str("Too many requests. Please slow down."),
        retry_after,
    }
}

/// The key under which a proxied request is counted: its session, else
/// its address, else `unknown`.
pub open spec fn session_rate_key(session_id: Option<Seq<char>>, ip: Option<Seq<char>>) -> Seq<char> {
    match session_id {
        Some(id) => "session:"@ + id,
        None => match ip {
            Some(a) => "ip:"@ + a,
            None => "unknown"@,
        },
    }
}

/// The key under which a login request is counted: its address.
pub open spec fn ip_rate_key(ip: Option<Seq<char>>) -> Seq<char> {
    match ip {
        Some(a) => "auth:"@ + a,
        None => "auth:unknown"@,
    }
}

/// Decides on a proxied request at `now`: it is counted under its session
/// or, where it names none, under its address. `Err` is the answer to a
/// request that is turned away.
pub fn session_rate_limit(
    state: &mut RateLimitState,
    session_id: Option<&str>,
    ip: Option<&str>,
    now: u64,
) -> (r: Result<u32, RateLimitRejection>)
    ensures
        final(state).ip_limiter == old(state).ip_limiter,
        final(state).session_config == old(state).session_config,
        final(state).ip_config == old(state).ip_config,
        match verdict(
            old(state).session_limiter.window(session_rate_key(opt_text(session_id), opt_text(ip))),
            old(state).session_config,
            now,
        ) {
            Ok(left) => r == Ok::<u32, RateLimitRejection>(left),
            Err(after) => r matches Err(rejection) && rejection.retry_after == after
                && rejection.status == TOO_MANY_REQUESTS,
        },
        final(state).session_limiter.window(session_rate_key(opt_text(session_id), opt_text(ip)))
            == Some(
            window_after(
                old(state).session_limiter.window(
                    session_rate_key(opt_text(session_id), opt_text(ip)),
                ),
                old(state).session_config,
                now,
            ),
        ),
{
    let key = match session_id {
        Some(id) => concat("session:", id),
        None => match ip {
            Some(a) => concat("ip:", a),
            None => String::from_str("unknown"),
        },
    };
    let config = state.session_config;
    match state.session_limiter.check(key.as_str(), &config, now) {
        Ok(left) => Ok(left),
        Err(after) => Err(rate_limit_response(after)),
    }
}

/// Decides on a login request at `now`; it is counted under the address
/// it comes from.
pub fn ip_rate_limit(state: &mut RateLimitState, ip: Option<&str>, now: u64) -> (r: Result<
    u32,
    RateLimitRejection,
>)
    ensures
        final(state).session_limiter == old(state).session_limiter,
        final(state).session_config == old(state).session_config,
        final(state).ip_config == old(state).ip_config,
        match verdict(
            old(state).ip_limiter.window(ip_rate_key(opt_text(ip))),
            old(state).ip_config,
            now,
        ) {
            Ok(left) => r == Ok::<u32, RateLimitRejection>(left),
            Err(after) => r matches Err(rejection) && rejection.retry_after == after
                && rejection.status == TOO_MANY_REQUESTS,
        },
        final(state).ip_limiter.window(ip_rate_key(opt_text(ip))) == Some(
            window_after(
                old(state).ip_limiter.window(ip_rate_key(opt_text(ip))),
                old(state).ip_config,
                now,
            ),
        ),
{
    let key = match ip {
        Some(a) => concat("auth:", a),
        None => String::from_str("auth:unknown"),
    };
    let config = state.ip_config;
    match state.ip_limiter.check(key.as_str(), &config, now) {
        Ok(left) => Ok(left),
        Err(after) => Err(rate_limit_response(after)),
    }
}

/// Each of `times` is before the end of the window that began at `start`.
pub open spec fn all_within(times: Seq<u64>, start: u64, config: RateLimitConfig) -> bool {
    forall|i: int| 0 <= i < times.len() ==> elapsed(#[trigger] times[i], start) < config.window_ms
}

/// How many requests a window counts after `more` requests that fall into
/// it, if it counted `count` before: it stops counting when it is full.
pub open spec fn filled(count: u32, more: nat, config: RateLimitConfig) -> u32 {
    if count >= config.max_requests {
        count
    } else if count + more >= config.max_requests {
        config.max_requests
    } else {
        (count + more) as u32
    }
}

proof fn window_fills(count: u32, start: u64, config: RateLimitConfig, times: Seq<u64>)
    requires
        all_within(times, start, config),
    ensures
        window_after_all(Some((count, start)), config, times) == Some(
            (filled(count, times.len(), config), start),
        ),
    decreases times.len(),
{
    if times.len() > 0 {
        let rest = times.drop_first();
        assert(elapsed(times[0], start) < config.window_ms);
        assert forall|i: int| 0 <= i < rest.len() implies elapsed(#[trigger] rest[i], start)
            < config.window_ms by {
            assert(rest[i] == times[i + 1]);
        }
        let next = window_after(Some((count, start)), config, times[0]);
        window_fills(next.0, start, config, rest);
    }
}

/// Of requests of one key that all come before the window of the first
/// has ended, as many as the limit allows are let through, each being told
/// how many are left; every one after them is turned away, and told to
/// come back in at least one second and at most the length of the window.
/// The window is at least a second long.
pub proof fn limit_holds_within_window(config: RateLimitConfig, times: Seq<u64>, k: int)
    requires
        config.window_ms >= 1000,
        0 <= k < times.len(),
        all_within(times, times[0], config),
    ensures
        ({
            let told = verdict(window_after_all(None, config, times.take(k)), config, times[k]);
            if k < config.max_requests {
                told == Ok::<u32, u64>((config.max_requests - (k + 1)) as u32)
            } else {
                told matches Err(seconds) && 1 <= seconds <= config.window_ms / 1000
            }
        }),
{
    let first = times[0];
    assert(elapsed(times[k], first) < config.window_ms);
    if k > 0 {
        let seen = times.take(k);
        let rest = seen.drop_first();
        assert(seen[0] == first);
        assert forall|i: int| 0 <= i < rest.len() implies elapsed(#[trigger] rest[i], first)
            < config.window_ms by {
            assert(rest[i] == times[i + 1]);
        }
        let begun = window_after(None, config, first);
        assert(begun.1 == first);
        window_fills(begun.0, first, config, rest);
        assert(window_after_all(None, config, seen) == window_after_all(
            Some(begun),
            config,
            rest,
        ));
    } else {
        assert(times.take(0).len() == 0);
    }
}

/// A request that comes when the key's window has ended begins a new
/// window and is let through, however full the old window was, wherever
/// the limit lets anything through.
pub proof fn new_window_after_expiry(held: Window, config: RateLimitConfig, now: u64)
    requires
        config.max_requests >= 1,
        elapsed(now, held.1) >= config.window_ms,
    ensures
        verdict(Some(held), config, now) == Ok::<u32, u64>((config.max_requests - 1) as u32),
        window_after(Some(held), config, now) == (1u32, now),
{
}

} // verus!
