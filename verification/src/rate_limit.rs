//! Lightweight per-IP throttling for unauthenticated account endpoints: a
//! fixed window per client address and policy.
use vstd::prelude::*;

use crate::text::{chars_of, index_of_from, lemma_split_first_at, lemma_split_first_none, split_first, str_equal, trim, trimmed};

verus! {

broadcast use vstd::array::group_array_axioms;

/// Beyond this many tracked windows, stale ones are dropped and unknown
/// clients are refused.
pub const MAX_TRACKED_CLIENTS: usize = 10_000;

/// Nanoseconds in a second.
pub const NANOS_PER_SEC: u64 = 1_000_000_000;

/// Windows older than this (one hour, in nanoseconds) count as stale.
pub const STALE_AFTER_NANOS: u64 = 3_600_000_000_000;

/// A client address: IPv4 octets or IPv6 segments.
#[derive(Debug, Clone, Copy, PartialEq, Eq)]
pub enum ClientIp {
    V4([u8; 4]),
    V6([u16; 8]),
}

/// A throttling policy: at most `max_requests` per fixed window of
/// `window_nanos` nanoseconds, counted separately under `name`.
#[derive(Clone, Copy)]
pub struct Policy {
    pub name: &'static str,
    pub max_requests: u32,
    pub window_nanos: u64,
}

/// The window of one client under one policy: when it started (nanoseconds on
/// the caller's monotonic clock) and how many requests it admitted.
#[derive(Clone, Copy)]
pub struct Window {
    pub ip: ClientIp,
    pub policy: &'static str,
    pub started_at: u64,
    pub count: u32,
}

/// `Instant::duration_since`, which saturates at zero.
pub open spec fn elapsed(now: u64, since: u64) -> u64 {
    if now >= since {
        (now - since) as u64
    } else {
        0
    }
}

/// Whether a window belongs to a client and a policy name.
pub open spec fn same_key(w: Window, ip: ClientIp, name: Seq<char>) -> bool {
    w.ip == ip && w.policy@ == name
}

/// No two windows share a client and a policy name.
pub open spec fn unique_keys(s: Seq<Window>) -> bool {
    forall|i: int, j: int|
        0 <= i < s.len() && 0 <= j < s.len() && i != j ==> !same_key(s[i], s[j].ip, s[j].policy@)
}

/// Whether some window belongs to the client and policy name.
pub open spec fn has_key(s: Seq<Window>, ip: ClientIp, name: Seq<char>) -> bool {
    exists|i: int| 0 <= i < s.len() && same_key(s[i], ip, name)
}

/// The index of the window of the client and policy name (meaningful when
/// [`has_key`] holds).
pub open spec fn key_index(s: Seq<Window>, ip: ClientIp, name: Seq<char>) -> int {
    choose|i: int| 0 <= i < s.len() && same_key(s[i], ip, name)
}

/// Whether a window is at least an hour old at `now`.
pub open spec fn is_stale(w: Window, now: u64) -> bool {
    elapsed(now, w.started_at) >= STALE_AFTER_NANOS
}

/// The windows that are not stale, in order.
pub open spec fn fresh_windows(s: Seq<Window>, now: u64) -> Seq<Window>
    decreases s.len(),
{
    if s.len() == 0 {
        s
    } else if is_stale(s.last(), now) {
        fresh_windows(s.drop_last(), now)
    } else {
        fresh_windows(s.drop_last(), now).push(s.last())
    }
}

/// The windows after the clean-up that runs when the table is full.
pub open spec fn pruned(s: Seq<Window>, now: u64) -> Seq<Window> {
    if s.len() >= MAX_TRACKED_CLIENTS {
        fresh_windows(s, now)
    } else {
        s
    }
}

/// One request against a window: a window whose time is up restarts at
/// `now`; a full window refuses with the time left in it (measured from the
/// window as it was found), otherwise the request is counted.
pub open spec fn step(w: Window, policy: Policy, now: u64) -> (Window, Result<(), u64>) {
    let gone = elapsed(now, w.started_at);
    let current = if gone >= policy.window_nanos {
        Window { started_at: now, count: 0, ..w }
    } else {
        w
    };
    if current.count >= policy.max_requests {
        (current, Err(if policy.window_nanos >= gone { (policy.window_nanos - gone) as u64 } else { 0 }))
    } else {
        (Window { count: (current.count + 1) as u32, ..current }, Ok(()))
    }
}

/// The windows and the answer after one request from `ip` under `policy` at
/// `now`: `Err` carries the nanoseconds after which to retry.
pub open spec fn checked(s: Seq<Window>, ip: ClientIp, policy: Policy, now: u64) -> (Seq<Window>, Result<(), u64>) {
    let p = pruned(s, now);
    if has_key(p, ip, policy.name@) {
        let i = key_index(p, ip, policy.name@);
        let (w, res) = step(p[i], policy, now);
        (p.update(i, w), res)
    } else if p.len() >= MAX_TRACKED_CLIENTS {
        (p, Err(policy.window_nanos))
    } else {
        let (w, res) = step(
            Window { ip, policy: policy.name, started_at: now, count: 0 },
            policy,
            now,
        );
        (p.push(w), res)
    }
}

/// Fixed-window counters per client address and policy name.
pub struct AuthRateLimiter {
    windows: Vec<Window>,
}

impl View for AuthRateLimiter {
    type V = Seq<Window>;

    closed spec fn view(&self) -> Seq<Window> {
        self.windows@
    }
}

impl AuthRateLimiter {
    #[verifier::type_invariant]
    spec fn well_formed(self) -> bool {
        &&& unique_keys(self.windows@)
        &&& self.windows@.len() <= MAX_TRACKED_CLIENTS
    }

    /// A limiter that tracks no client yet.
    pub fn new() -> (limiter: Self)
        ensures
            limiter@ == Seq::<Window>::empty(),
    {
        AuthRateLimiter { windows: Vec::new() }
    }

    /// How many windows are tracked.
    pub fn window_count(&self) -> (n: usize)
        ensures
            n == self@.len(),
            n <= MAX_TRACKED_CLIENTS,
    {
        proof {
            use_type_invariant(self);
        }
        self.windows.len()
    }

    /// Count one request from `ip` under `policy` at `now` (nanoseconds on a
    /// monotonic clock): `Ok` admits it, `Err` refuses it with the
    /// nanoseconds after which to retry (see [`checked`]). The table never
    /// holds more than [`MAX_TRACKED_CLIENTS`] windows, nor two for one key,
    /// and an admitted request never takes its window past the policy's
    /// maximum.
    pub fn check(&mut self, ip: ClientIp, policy: Policy, now: u64) -> (res: Result<(), u64>)
        ensures
            (final(self)@, res) == checked(old(self)@, ip, policy, now),
            unique_keys(final(self)@),
            final(self)@.len() <= MAX_TRACKED_CLIENTS,
            res is Ok ==> has_key(final(self)@, ip, policy.name@) && final(self)@[key_index(
                final(self)@,
                ip,
                policy.name@,
            )].count <= policy.max_requests,
    {
        proof {
            use_type_invariant(&*self);
        }
        let ghost old_windows = self.windows@;
        let mut windows: Vec<Window> = if self.windows.len() >= MAX_TRACKED_CLIENTS {
            keep_fresh(&self.windows, now)
        } else {
            self.windows.clone()
        };
        assert(windows@ == pruned(old_windows, now));
        let found = find_window(&windows, ip, policy.name);
        let res;
        if found < windows.len() {
            let w = windows[found];
            let (next, r) = step_window(w, policy, now);
            windows.set(found, next);
            res = r;
            proof {
                lemma_update_keeps_unique(pruned(old_windows, now), found as int, next);
            }
        } else if windows.len() >= MAX_TRACKED_CLIENTS {
            res = Err(policy.window_nanos);
        } else {
            let (next, r) = step_window(
                Window { ip, policy: policy.name, started_at: now, count: 0 },
                policy,
                now,
            );
            windows.push(next);
            res = r;
            proof {
                let p = pruned(old_windows, now);
                assert forall|i: int, j: int|
                    0 <= i < windows@.len() && 0 <= j < windows@.len() && i != j implies !same_key(
                    windows@[i],
                    windows@[j].ip,
                    windows@[j].policy@,
                ) by {
                    if i < p.len() && j < p.len() {
                    } else if i < p.len() {
                        assert(!same_key(p[i], ip, policy.name@));
                    } else {
                        assert(!same_key(p[j], ip, policy.name@));
                    }
                }
            }
        }
        self.windows = windows;
        proof {
            let p = pruned(old_windows, now);
            if res is Ok {
                let k = key_index(self.windows@, ip, policy.name@);
                if found < p.len() {
                    assert(same_key(self.windows@[found as int], ip, policy.name@));
                } else {
                    assert(same_key(self.windows@[p.len() as int], ip, policy.name@));
                }
            }
        }
        res
    }
}

impl Default for AuthRateLimiter {
    /// A limiter that tracks no client yet.
    fn default() -> (limiter: Self)
        ensures
            limiter@ == Seq::<Window>::empty(),
    {
        AuthRateLimiter::new()
    }
}

/// Changing one window without changing its key keeps keys unique.
proof fn lemma_update_keeps_unique(s: Seq<Window>, i: int, w: Window)
    requires
        unique_keys(s),
        0 <= i < s.len(),
        w.ip == s[i].ip,
        w.policy@ == s[i].policy@,
    ensures
        unique_keys(s.update(i, w)),
{
    let t = s.update(i, w);
    assert forall|a: int, b: int| 0 <= a < t.len() && 0 <= b < t.len() && a != b implies !same_key(
        t[a],
        t[b].ip,
        t[b].policy@,
    ) by {
        assert(!same_key(s[a], s[b].ip, s[b].policy@));
    }
}

/// The answer for one window (see [`step`]).
fn step_window(w: Window, policy: Policy, now: u64) -> (out: (Window, Result<(), u64>))
    ensures
        out == step(w, policy, now),
        out.0.ip == w.ip,
        out.0.policy == w.policy,
        out.1 is Ok ==> out.0.count <= policy.max_requests,
{
    let gone: u64 = if now >= w.started_at {
        now - w.started_at
    } else {
        0
    };
    let current = if gone >= policy.window_nanos {
        Window { started_at: now, count: 0, ..w }
    } else {
        w
    };
    if current.count >= policy.max_requests {
        let left: u64 = if policy.window_nanos >= gone {
            policy.window_nanos - gone
        } else {
            0
        };
        (current, Err(left))
    } else {
        (Window { count: current.count + 1, ..current }, Ok(()))
    }
}

/// Whether two client addresses are the same.
pub fn same_ip(a: &ClientIp, b: &ClientIp) -> (eq: bool)
    ensures
        eq == (*a == *b),
{
    match (a, b) {
        (ClientIp::V4(x), ClientIp::V4(y)) => {
            let eq = x[0] == y[0] && x[1] == y[1] && x[2] == y[2] && x[3] == y[3];
            proof {
                if eq {
                    assert(x@ =~= y@);
                    assert(*x == *y);
                }
            }
            eq
        },
        (ClientIp::V6(x), ClientIp::V6(y)) => {
            let eq = x[0] == y[0] && x[1] == y[1] && x[2] == y[2] && x[3] == y[3] && x[4] == y[4] && x[5]
                == y[5] && x[6] == y[6] && x[7] == y[7];
            proof {
                if eq {
                    assert(x@ =~= y@);
                    assert(*x == *y);
                }
            }
            eq
        },
        _ => false,
    }
}

/// The index of the window of `ip` under `name`, or the length when none.
fn find_window(windows: &Vec<Window>, ip: ClientIp, name: &'static str) -> (i: usize)
    requires
        unique_keys(windows@),
    ensures
        i <= windows@.len(),
        i < windows@.len() ==> has_key(windows@, ip, name@) && i == key_index(windows@, ip, name@),
        i == windows@.len() ==> !has_key(windows@, ip, name@),
{
    let mut i: usize = 0;
    while i < windows.len()
        invariant
            i <= windows@.len(),
            unique_keys(windows@),
            forall|j: int| 0 <= j < i ==> !same_key(windows@[j], ip, name@),
        decreases windows@.len() - i,
    {
        if same_ip(&windows[i].ip, &ip) && str_equal(windows[i].policy, name) {
            proof {
                assert(same_key(windows@[i as int], ip, name@));
                assert(has_key(windows@, ip, name@));
                let k = key_index(windows@, ip, name@);
                if k != i {
                    assert(!same_key(windows@[k], windows@[i as int].ip, windows@[i as int].policy@));
                }
            }
            return i;
        }
        i = i + 1;
    }
    i
}

/// The windows that are not stale at `now`, in order.
fn keep_fresh(windows: &Vec<Window>, now: u64) -> (kept: Vec<Window>)
    requires
        unique_keys(windows@),
    ensures
        kept@ == fresh_windows(windows@, now),
        unique_keys(kept@),
        kept@.len() <= windows@.len(),
{
    let mut kept: Vec<Window> = Vec::new();
    let ghost mut source: Seq<int> = Seq::empty();
    let mut i: usize = 0;
    while i < windows.len()
        invariant
            i <= windows@.len(),
            unique_keys(windows@),
            kept@ == fresh_windows(windows@.take(i as int), now),
            source.len() == kept@.len(),
            kept@.len() <= i,
            forall|k: int| 0 <= k < source.len() ==> 0 <= #[trigger] source[k] < i,
            forall|k: int| 0 <= k < source.len() ==> kept@[k] == windows@[#[trigger] source[k]],
            forall|a: int, b: int| 0 <= a < b < source.len() ==> source[a] < source[b],
        decreases windows@.len() - i,
    {
        let w = windows[i];
        proof {
            assert(windows@.take(i + 1).drop_last() =~= windows@.take(i as int));
            assert(windows@.take(i + 1).last() == w);
        }
        let gone: u64 = if now >= w.started_at {
            now - w.started_at
        } else {
            0
        };
        if gone < STALE_AFTER_NANOS {
            kept.push(w);
            proof {
                source = source.push(i as int);
            }
        }
        i = i + 1;
    }
    proof {
        assert(windows@.take(windows@.len() as int) =~= windows@);
        assert forall|a: int, b: int| 0 <= a < kept@.len() && 0 <= b < kept@.len() && a != b implies !same_key(
            kept@[a],
            kept@[b].ip,
            kept@[b].policy@,
        ) by {
            let sa = source[a];
            let sb = source[b];
            if a < b {
                assert(sa < sb);
            } else {
                assert(sb < sa);
            }
            assert(!same_key(windows@[sa], windows@[sb].ip, windows@[sb].policy@));
        }
    }
    kept
}

/// Client addresses that may report the real client in `X-Forwarded-For`:
/// private or loopback IPv4 (10/8, 172.16/12, 192.168/16, 127/8) and loopback
/// or unique-local IPv6 (::1, fc00::/7).
pub open spec fn trusted_proxy(ip: ClientIp) -> bool {
    match ip {
        ClientIp::V4(o) => o[0] == 10 || (o[0] == 172 && 16 <= o[1] && o[1] <= 31) || (o[0] == 192
            && o[1] == 168) || o[0] == 127,
        ClientIp::V6(s) => (s[0] == 0 && s[1] == 0 && s[2] == 0 && s[3] == 0 && s[4] == 0 && s[5] == 0
            && s[6] == 0 && s[7] == 1) || (0xfc00 <= s[0] && s[0] <= 0xfdff),
    }
}

/// An IPv4 address as its 32-bit number.
pub open spec fn ipv4_number(o: [u8; 4]) -> int {
    o[0] * 0x100_0000 + o[1] * 0x1_0000 + o[2] * 0x100 + o[3]
}

/// An IPv6 address as its 128-bit number.
pub open spec fn ipv6_number(s: [u16; 8]) -> int {
    s[0] * 0x1_0000_0000_0000_0000_0000_0000_0000 + s[1] * 0x1_0000_0000_0000_0000_0000_0000 + s[2]
        * 0x1_0000_0000_0000_0000_0000 + s[3] * 0x1_0000_0000_0000_0000 + s[4] * 0x1_0000_0000_0000 + s[5]
        * 0x1_0000_0000 + s[6] * 0x1_0000 + s[7]
}

/// The trusted proxies are exactly the private (RFC 1918: 10.0.0.0/8,
/// 172.16.0.0/12, 192.168.0.0/16) and loopback (127.0.0.0/8) IPv4 addresses,
/// and the IPv6 loopback (::1) and unique-local (fc00::/7) addresses, each
/// block being the range of numbers that shares its prefix.
pub proof fn lemma_trusted_proxies_are_private_or_loopback(ip: ClientIp)
    ensures
        ip matches ClientIp::V4(o) ==> (trusted_proxy(ip) <==> {
            let n = ipv4_number(o);
            ||| 0x0A00_0000 <= n <= 0x0AFF_FFFF
            ||| 0xAC10_0000 <= n <= 0xAC1F_FFFF
            ||| 0xC0A8_0000 <= n <= 0xC0A8_FFFF
            ||| 0x7F00_0000 <= n <= 0x7FFF_FFFF
        }),
        ip matches ClientIp::V6(g) ==> (trusted_proxy(ip) <==> {
            let n = ipv6_number(g);
            ||| n == 1
            ||| 0xFC00_0000_0000_0000_0000_0000_0000_0000 <= n <= 0xFDFF_FFFF_FFFF_FFFF_FFFF_FFFF_FFFF_FFFF
        }),
{
    match ip {
        ClientIp::V4(o) => {
            let rest = o[1] * 0x1_0000 + o[2] * 0x100 + o[3];
            assert(0 <= rest <= 0xFF_FFFF);
            let low = o[2] * 0x100 + o[3];
            assert(0 <= low <= 0xFFFF);
        },
        ClientIp::V6(g) => {
            let tail = g[1] * 0x1_0000_0000_0000_0000_0000_0000 + g[2] * 0x1_0000_0000_0000_0000_0000 + g[3]
                * 0x1_0000_0000_0000_0000 + g[4] * 0x1_0000_0000_0000 + g[5] * 0x1_0000_0000 + g[6] * 0x1_0000
                + g[7];
            assert(0 <= tail <= 0xFFFF_FFFF_FFFF_FFFF_FFFF_FFFF_FFFF);
            if ipv6_number(g) == 1 {
                assert(g[0] == 0);
                assert(tail == 1);
                assert(g[1] == 0);
                assert(g[2] == 0);
                assert(g[3] == 0);
                assert(g[4] == 0);
                assert(g[5] == 0);
                assert(g[6] == 0);
            }
        },
    }
}

/// Whether a peer is a loopback or private reverse proxy.
pub fn is_trusted_proxy(ip: ClientIp) -> (trusted: bool)
    ensures
        trusted == trusted_proxy(ip),
{
    match ip {
        ClientIp::V4(o) => o[0] == 10 || (o[0] == 172 && 16 <= o[1] && o[1] <= 31) || (o[0] == 192
            && o[1] == 168) || o[0] == 127,
        ClientIp::V6(s) => (s[0] == 0 && s[1] == 0 && s[2] == 0 && s[3] == 0 && s[4] == 0 && s[5] == 0
            && s[6] == 0 && s[7] == 1) || (0xfc00 <= s[0] && s[0] <= 0xfdff),
    }
}

/// The unspecified IPv4 address, 0.0.0.0.
pub open spec fn unspecified_ip() -> ClientIp {
    ClientIp::V4([0u8, 0u8, 0u8, 0u8])
}

/// The entry of an `X-Forwarded-For` header that names the client: its first
/// comma-separated entry, trimmed.
pub open spec fn forwarded_entry(header: Seq<char>) -> Seq<char> {
    trimmed(split_first(header, ',').0)
}

/// The first comma-separated entry of an `X-Forwarded-For` header, trimmed.
pub fn first_forwarded_entry(header: &str) -> (entry: &str)
    ensures
        entry@ == forwarded_entry(header@),
{
    let chars = chars_of(header);
    let comma = index_of_from(&chars, 0, ',');
    proof {
        if comma < chars.len() {
            lemma_split_first_at(header@, ',', comma as int);
        } else {
            lemma_split_first_none(header@, ',');
            assert(header@.subrange(0, header@.len() as int) =~= header@);
        }
    }
    trim(header.substring_char(0, comma))
}

/// The client a request is counted under: the forwarded address (read from
/// [`first_forwarded_entry`]) when the peer is a trusted proxy and the entry
/// is an address, else the peer, else 0.0.0.0.
pub open spec fn client_of(peer: Option<ClientIp>, forwarded: Option<ClientIp>) -> ClientIp {
    if peer matches Some(p) && trusted_proxy(p) && forwarded is Some {
        forwarded->0
    } else {
        match peer {
            Some(p) => p,
            None => unspecified_ip(),
        }
    }
}

/// The address a request is counted under (see [`client_of`]).
pub fn client_ip(peer: Option<ClientIp>, forwarded: Option<ClientIp>) -> (ip: ClientIp)
    ensures
        ip == client_of(peer, forwarded),
{
    if let Some(p) = peer {
        if is_trusted_proxy(p) {
            if let Some(f) = forwarded {
                return f;
            }
        }
    }
    match peer {
        Some(p) => p,
        None => ClientIp::V4([0u8, 0u8, 0u8, 0u8]),
    }
}

/// The throttling policy of a request path: login and registration only.
pub fn policy_for(path: &str) -> (policy: Option<Policy>)
    ensures
        path@ == "/api/auth/login"@ ==> (policy matches Some(p) && p.name@ == "login"@
            && p.max_requests == 10 && p.window_nanos == 300 * NANOS_PER_SEC),
        path@ == "/api/auth/register"@ ==> (policy matches Some(p) && p.name@ == "register"@
            && p.max_requests == 5 && p.window_nanos == 3600 * NANOS_PER_SEC),
        path@ != "/api/auth/login"@ && path@ != "/api/auth/register"@ ==> policy is None,
{
    proof {
        reveal_strlit("/api/auth/login");
        reveal_strlit("/api/auth/register");
        assert("/api/auth/login"@.len() != "/api/auth/register"@.len());
    }
    if str_equal(path, "/api/auth/login") {
        Some(Policy { name: "login", max_requests: 10, window_nanos: 300 * NANOS_PER_SEC })
    } else if str_equal(path, "/api/auth/register") {
        Some(Policy { name: "register", max_requests: 5, window_nanos: 3600 * NANOS_PER_SEC })
    } else {
        None
    }
}

/// The `Retry-After` seconds for a refusal: whole seconds left, at least one.
pub fn retry_after_secs(retry_nanos: u64) -> (secs: u64)
    ensures
        secs == if retry_nanos / NANOS_PER_SEC >= 1 { retry_nanos / NANOS_PER_SEC } else { 1 },
{
    let secs = retry_nanos / NANOS_PER_SEC;
    if secs >= 1 {
        secs
    } else {
        1
    }
}

/// Once its time is up, a window admits a request again (for any policy that
/// admits at least one request per window).
pub proof fn lemma_admits_after_window(s: Seq<Window>, ip: ClientIp, policy: Policy, now: u64)
    requires
        has_key(pruned(s, now), ip, policy.name@),
        elapsed(now, pruned(s, now)[key_index(pruned(s, now), ip, policy.name@)].started_at)
            >= policy.window_nanos,
        policy.max_requests >= 1,
    ensures
        checked(s, ip, policy, now).1 is Ok,
{
}

/// A client seen for the first time is admitted while there is room to track
/// it (for any policy that admits at least one request per window).
pub proof fn lemma_admits_new_client(s: Seq<Window>, ip: ClientIp, policy: Policy, now: u64)
    requires
        !has_key(pruned(s, now), ip, policy.name@),
        pruned(s, now).len() < MAX_TRACKED_CLIENTS,
        policy.max_requests >= 1,
    ensures
        checked(s, ip, policy, now).1 is Ok,
{
}

/// A window that already admitted the policy's maximum refuses every further
/// request until its time is up, and says how long is left.
pub proof fn lemma_refuses_full_window(s: Seq<Window>, ip: ClientIp, policy: Policy, now: u64)
    requires
        has_key(pruned(s, now), ip, policy.name@),
        pruned(s, now)[key_index(pruned(s, now), ip, policy.name@)].count >= policy.max_requests,
        elapsed(now, pruned(s, now)[key_index(pruned(s, now), ip, policy.name@)].started_at)
            < policy.window_nanos,
    ensures
        checked(s, ip, policy, now).1 == Err::<(), u64>(
            (policy.window_nanos - elapsed(
                now,
                pruned(s, now)[key_index(pruned(s, now), ip, policy.name@)].started_at,
            )) as u64,
        ),
{
}

/// The window of a client under a policy name, if the table has one.
pub open spec fn client_window(s: Seq<Window>, ip: ClientIp, name: Seq<char>) -> Option<Window> {
    if has_key(s, ip, name) {
        Some(s[key_index(s, ip, name)])
    } else {
        None
    }
}

/// How many requests the client's window has admitted (none without a window).
pub open spec fn client_count(s: Seq<Window>, ip: ClientIp, name: Seq<char>) -> nat {
    match client_window(s, ip, name) {
        Some(w) => w.count as nat,
        None => 0,
    }
}

/// The table, and how many requests were admitted, after requests from `ip`
/// under `policy` at the given times, in order.
pub open spec fn run(s: Seq<Window>, ip: ClientIp, policy: Policy, times: Seq<u64>) -> (Seq<Window>, nat)
    decreases times.len(),
{
    if times.len() == 0 {
        (s, 0)
    } else {
        let next = checked(s, ip, policy, times[0]);
        let rest = run(next.0, ip, policy, times.drop_first());
        (rest.0, rest.1 + if next.1 is Ok {
            1nat
        } else {
            0nat
        })
    }
}

/// The client's window, if any, started no earlier than `start` and holds no
/// more than the policy's maximum.
pub open spec fn window_since(s: Seq<Window>, ip: ClientIp, policy: Policy, start: u64) -> bool {
    match client_window(s, ip, policy.name@) {
        Some(w) => start <= w.started_at && w.count <= policy.max_requests,
        None => true,
    }
}

/// The clean-up keeps exactly the windows that are not stale, in order, and
/// keeps keys unique.
proof fn lemma_fresh_windows(s: Seq<Window>, now: u64)
    ensures
        fresh_windows(s, now).len() <= s.len(),
        forall|k: int| 0 <= k < fresh_windows(s, now).len() ==> s.contains(#[trigger] fresh_windows(s, now)[k]),
        forall|j: int| 0 <= j < s.len() && !is_stale(#[trigger] s[j], now) ==> fresh_windows(s, now).contains(s[j]),
        unique_keys(s) ==> unique_keys(fresh_windows(s, now)),
    decreases s.len(),
{
    if s.len() > 0 {
        let d = s.drop_last();
        lemma_fresh_windows(d, now);
        let f = fresh_windows(d, now);
        assert forall|k: int| 0 <= k < f.len() implies s.contains(#[trigger] f[k]) by {
            let j = choose|j: int| 0 <= j < d.len() && d[j] == f[k];
            assert(s[j] == f[k]);
        }
        assert forall|j: int| 0 <= j < s.len() && !is_stale(#[trigger] s[j], now) implies fresh_windows(
            s,
            now,
        ).contains(s[j]) by {
            if j < s.len() - 1 {
                assert(d[j] == s[j]);
                let k = choose|k: int| 0 <= k < f.len() && f[k] == d[j];
                if !is_stale(s.last(), now) {
                    assert(f.push(s.last())[k] == s[j]);
                }
            } else {
                assert(f.push(s.last())[f.len() as int] == s[j]);
            }
        }
        if !is_stale(s.last(), now) {
            let g = f.push(s.last());
            assert forall|k: int| 0 <= k < g.len() implies s.contains(#[trigger] g[k]) by {
                if k < f.len() {
                    assert(g[k] == f[k]);
                } else {
                    assert(s[s.len() - 1] == g[k]);
                }
            }
        }
        if unique_keys(s) {
            assert(unique_keys(d)) by {
                assert forall|a: int, b: int| 0 <= a < d.len() && 0 <= b < d.len() && a != b implies !same_key(
                    d[a],
                    d[b].ip,
                    d[b].policy@,
                ) by {
                    assert(d[a] == s[a] && d[b] == s[b]);
                }
            }
            if !is_stale(s.last(), now) {
                let g = f.push(s.last());
                assert forall|a: int, b: int| 0 <= a < g.len() && 0 <= b < g.len() && a != b implies !same_key(
                    g[a],
                    g[b].ip,
                    g[b].policy@,
                ) by {
                    if a < f.len() && b < f.len() {
                        assert(g[a] == f[a] && g[b] == f[b]);
                    } else {
                        let other = if a < f.len() { a } else { b };
                        assert(g[other] == f[other]);
                        let j = choose|j: int| 0 <= j < d.len() && d[j] == f[other];
                        assert(s[j] == f[other]);
                        assert(!same_key(s[j], s[s.len() - 1].ip, s[s.len() - 1].policy@));
                        assert(!same_key(s[s.len() - 1], s[j].ip, s[j].policy@));
                    }
                }
            }
        }
    }
}

/// In a table with unique keys, a window with the client's key is the
/// client's window.
proof fn lemma_key_window(s: Seq<Window>, ip: ClientIp, name: Seq<char>, j: int)
    requires
        unique_keys(s),
        0 <= j < s.len(),
        same_key(s[j], ip, name),
    ensures
        has_key(s, ip, name),
        key_index(s, ip, name) == j,
{
    let k = key_index(s, ip, name);
    if k != j {
        assert(!same_key(s[k], s[j].ip, s[j].policy@));
    }
}

/// One request from the client at `now`, within the window that began at
/// `start`: the table stays well formed, the client's window does not
/// restart, and it counts the request exactly when the request is admitted.
proof fn lemma_checked_in_window(s: Seq<Window>, ip: ClientIp, policy: Policy, now: u64, start: u64)
    requires
        unique_keys(s),
        s.len() <= MAX_TRACKED_CLIENTS,
        policy.window_nanos <= STALE_AFTER_NANOS,
        start <= now,
        now < start + policy.window_nanos,
        window_since(s, ip, policy, start),
    ensures
        unique_keys(checked(s, ip, policy, now).0),
        checked(s, ip, policy, now).0.len() <= MAX_TRACKED_CLIENTS,
        window_since(checked(s, ip, policy, now).0, ip, policy, start),
        client_count(checked(s, ip, policy, now).0, ip, policy.name@) == client_count(s, ip, policy.name@) + if checked(
            s,
            ip,
            policy,
            now,
        ).1 is Ok {
            1nat
        } else {
            0nat
        },
{
    let name = policy.name@;
    let p = pruned(s, now);
    lemma_fresh_windows(s, now);
    assert(unique_keys(p));
    assert(p.len() <= MAX_TRACKED_CLIENTS);
    // The client's window is not stale, so the clean-up keeps it.
    if has_key(s, ip, name) {
        let i = key_index(s, ip, name);
        assert(!is_stale(s[i], now));
        if s.len() >= MAX_TRACKED_CLIENTS {
            assert(p.contains(s[i]));
        }
        let k = choose|k: int| 0 <= k < p.len() && p[k] == s[i];
        lemma_key_window(p, ip, name, k);
        assert(client_window(p, ip, name) == client_window(s, ip, name));
    } else if has_key(p, ip, name) {
        let k = key_index(p, ip, name);
        if s.len() >= MAX_TRACKED_CLIENTS {
            assert(s.contains(p[k]));
            let j = choose|j: int| 0 <= j < s.len() && s[j] == p[k];
            assert(same_key(s[j], ip, name));
        }
        assert(false);
    }
    let res = checked(s, ip, policy, now);
    if has_key(p, ip, name) {
        let i = key_index(p, ip, name);
        let w = step(p[i], policy, now).0;
        lemma_update_keeps_unique(p, i, w);
        lemma_key_window(p.update(i, w), ip, name, i);
    } else if p.len() < MAX_TRACKED_CLIENTS {
        let w = step(Window { ip, policy: policy.name, started_at: now, count: 0 }, policy, now).0;
        let q = p.push(w);
        assert forall|a: int, b: int| 0 <= a < q.len() && 0 <= b < q.len() && a != b implies !same_key(
            q[a],
            q[b].ip,
            q[b].policy@,
        ) by {
            if a < p.len() && b < p.len() {
                assert(q[a] == p[a] && q[b] == p[b]);
            } else if a < p.len() {
                assert(q[a] == p[a]);
                assert(!same_key(p[a], ip, name));
            } else {
                assert(q[b] == p[b]);
                assert(!same_key(p[b], ip, name));
            }
        }
        lemma_key_window(q, ip, name, p.len() as int);
    }
}

/// Within one window a client is admitted at most `max_requests` times:
/// from a table whose window for the client (if any) began no earlier than
/// `start`, requests from that client at times within `window_nanos` after
/// `start` are admitted at most as often as the window has room left (for
/// policies whose window is at most the hour after which windows count as
/// stale). Each request is one [`AuthRateLimiter::check`] (see [`run`]).
pub proof fn lemma_at_most_max_per_window(s: Seq<Window>, ip: ClientIp, policy: Policy, times: Seq<u64>, start: u64)
    requires
        unique_keys(s),
        s.len() <= MAX_TRACKED_CLIENTS,
        policy.window_nanos <= STALE_AFTER_NANOS,
        forall|k: int| 0 <= k < times.len() ==> start <= #[trigger] times[k] && times[k] < start + policy.window_nanos,
        window_since(s, ip, policy, start),
    ensures
        run(s, ip, policy, times).1 + client_count(s, ip, policy.name@) <= policy.max_requests,
    decreases times.len(),
{
    if times.len() == 0 {
    } else {
        assert(start <= times[0] && times[0] < start + policy.window_nanos);
        lemma_checked_in_window(s, ip, policy, times[0], start);
        let next = checked(s, ip, policy, times[0]);
        let rest = times.drop_first();
        assert forall|k: int| 0 <= k < rest.len() implies start <= #[trigger] rest[k] && rest[k] < start
            + policy.window_nanos by {
            assert(rest[k] == times[k + 1]);
        }
        lemma_at_most_max_per_window(next.0, ip, policy, rest, start);
    }
}

/// The clean-up keeps the table's keys unique, and the client's window in it
/// is either gone or unchanged; a window that is not stale stays.
proof fn lemma_pruned_client(s: Seq<Window>, ip: ClientIp, name: Seq<char>, now: u64)
    requires
        unique_keys(s),
    ensures
        unique_keys(pruned(s, now)),
        pruned(s, now).len() <= s.len(),
        client_window(pruned(s, now), ip, name) is None || client_window(pruned(s, now), ip, name)
            == client_window(s, ip, name),
        client_window(s, ip, name) matches Some(w) && !is_stale(w, now) ==> client_window(pruned(s, now), ip, name)
            == client_window(s, ip, name),
{
    let p = pruned(s, now);
    lemma_fresh_windows(s, now);
    if has_key(p, ip, name) {
        let k = key_index(p, ip, name);
        if s.len() >= MAX_TRACKED_CLIENTS {
            assert(s.contains(p[k]));
            let j = choose|j: int| 0 <= j < s.len() && s[j] == p[k];
            lemma_key_window(s, ip, name, j);
        } else {
            lemma_key_window(s, ip, name, k);
        }
    }
    if has_key(s, ip, name) {
        let i = key_index(s, ip, name);
        if !is_stale(s[i], now) {
            if s.len() >= MAX_TRACKED_CLIENTS {
                assert(p.contains(s[i]));
                let k = choose|k: int| 0 <= k < p.len() && p[k] == s[i];
                lemma_key_window(p, ip, name, k);
            }
        }
    }
}

/// What one request does to the client's window: the window found after the
/// clean-up takes the step; with none, a new window starting at `now` takes
/// it when there is room, and the request is refused otherwise.
proof fn lemma_checked_client(s: Seq<Window>, ip: ClientIp, policy: Policy, now: u64)
    requires
        unique_keys(s),
        s.len() <= MAX_TRACKED_CLIENTS,
    ensures
        unique_keys(checked(s, ip, policy, now).0),
        checked(s, ip, policy, now).0.len() <= MAX_TRACKED_CLIENTS,
        match client_window(pruned(s, now), ip, policy.name@) {
            Some(w) => client_window(checked(s, ip, policy, now).0, ip, policy.name@) == Some(step(w, policy, now).0)
                && checked(s, ip, policy, now).1 == step(w, policy, now).1,
            None => if pruned(s, now).len() < MAX_TRACKED_CLIENTS {
                let fresh = Window { ip, policy: policy.name, started_at: now, count: 0 };
                client_window(checked(s, ip, policy, now).0, ip, policy.name@) == Some(step(fresh, policy, now).0)
                    && checked(s, ip, policy, now).1 == step(fresh, policy, now).1
            } else {
                client_window(checked(s, ip, policy, now).0, ip, policy.name@) is None && checked(
                    s,
                    ip,
                    policy,
                    now,
                ).1 is Err
            },
        },
{
    let name = policy.name@;
    let p = pruned(s, now);
    lemma_pruned_client(s, ip, name, now);
    if has_key(p, ip, name) {
        let i = key_index(p, ip, name);
        let w = step(p[i], policy, now).0;
        lemma_update_keeps_unique(p, i, w);
        lemma_key_window(p.update(i, w), ip, name, i);
    } else if p.len() < MAX_TRACKED_CLIENTS {
        let w = step(Window { ip, policy: policy.name, started_at: now, count: 0 }, policy, now).0;
        let q = p.push(w);
        assert forall|a: int, b: int| 0 <= a < q.len() && 0 <= b < q.len() && a != b implies !same_key(
            q[a],
            q[b].ip,
            q[b].policy@,
        ) by {
            if a < p.len() && b < p.len() {
                assert(q[a] == p[a] && q[b] == p[b]);
            } else if a < p.len() {
                assert(q[a] == p[a]);
                assert(!same_key(p[a], ip, name));
            } else {
                assert(q[b] == p[b]);
                assert(!same_key(p[b], ip, name));
            }
        }
        lemma_key_window(q, ip, name, p.len() as int);
    } else {
        assert forall|j: int| 0 <= j < p.len() implies !same_key(#[trigger] p[j], ip, name) by {
            if same_key(p[j], ip, name) {
                lemma_key_window(p, ip, name, j);
            }
        }
    }
}

/// A request that finds the client's window expired (or finds none) starts
/// the client's window afresh at its own time: the new window holds just this
/// request when it is admitted and nothing otherwise, and the table stays
/// well formed.
pub proof fn lemma_expired_window_restarts(s: Seq<Window>, ip: ClientIp, policy: Policy, now: u64)
    requires
        unique_keys(s),
        s.len() <= MAX_TRACKED_CLIENTS,
        client_window(s, ip, policy.name@) matches Some(w) ==> elapsed(now, w.started_at) >= policy.window_nanos,
    ensures
        unique_keys(checked(s, ip, policy, now).0),
        checked(s, ip, policy, now).0.len() <= MAX_TRACKED_CLIENTS,
        client_window(checked(s, ip, policy, now).0, ip, policy.name@) matches Some(w) ==> w.started_at == now
            && w.count == (if checked(s, ip, policy, now).1 is Ok {
            1int
        } else {
            0int
        }),
        client_window(checked(s, ip, policy, now).0, ip, policy.name@) is None ==> checked(s, ip, policy, now).1 is Err,
        window_since(checked(s, ip, policy, now).0, ip, policy, now),
{
    lemma_pruned_client(s, ip, policy.name@, now);
    lemma_checked_client(s, ip, policy, now);
}

/// Within `window_nanos` after a request that found the client's window
/// expired (or found none), that request included, the client is admitted at
/// most `max_requests` times (for policies whose window is at most the hour
/// after which windows count as stale).
pub proof fn lemma_at_most_max_after_restart(s: Seq<Window>, ip: ClientIp, policy: Policy, times: Seq<u64>)
    requires
        unique_keys(s),
        s.len() <= MAX_TRACKED_CLIENTS,
        policy.window_nanos <= STALE_AFTER_NANOS,
        times.len() > 0,
        client_window(s, ip, policy.name@) matches Some(w) ==> elapsed(times[0], w.started_at) >= policy.window_nanos,
        forall|k: int| 0 <= k < times.len() ==> times[0] <= #[trigger] times[k] && times[k] < times[0] + policy.window_nanos,
    ensures
        run(s, ip, policy, times).1 <= policy.max_requests,
{
    let now = times[0];
    lemma_expired_window_restarts(s, ip, policy, now);
    let next = checked(s, ip, policy, now);
    let rest = times.drop_first();
    assert forall|k: int| 0 <= k < rest.len() implies now <= #[trigger] rest[k] && rest[k] < now + policy.window_nanos by {
        assert(rest[k] == times[k + 1]);
    }
    lemma_at_most_max_per_window(next.0, ip, policy, rest, now);
}

} // verus!
