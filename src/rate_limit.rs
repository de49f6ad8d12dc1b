use vstd::prelude::*;
use vstd::hash_map::StringHashMap;
use vstd::string::{StrSliceExecFns, StringExecFns};

use crate::error::AppError;
use crate::token::AuthorizedToken;

verus! {

/// `t` still counts at `now`: it is not more than `window` before it.
pub open spec fn is_recent(t: u64, now: u64, window: u64) -> bool {
    !(now > t && now - t > window)
}

/// The timestamps of `q` that still count at `now`, in their order.
pub open spec fn recent(q: Seq<u64>, now: u64, window: u64) -> Seq<u64>
    decreases q.len(),
{
    if q.len() == 0 {
        Seq::empty()
    } else {
        let r = recent(q.drop_last(), now, window);
        if is_recent(q.last(), now, window) {
            r.push(q.last())
        } else {
            r
        }
    }
}

/// The timestamps recorded under `key`; none for a key never seen.
pub open spec fn queue_of(m: Map<Seq<char>, Seq<u64>>, key: Seq<char>) -> Seq<u64> {
    if m.contains_key(key) {
        m[key]
    } else {
        Seq::empty()
    }
}

/// A check of `key` admits at `now` when fewer than `max` of its timestamps
/// still count.
pub open spec fn admits(
    m: Map<Seq<char>, Seq<u64>>,
    window: u64,
    key: Seq<char>,
    max: usize,
    now: u64,
) -> bool {
    recent(queue_of(m, key), now, window).len() < max
}

/// The windows after a check of `key` at `now`: its queue keeps only what
/// still counts, and gains `now` when the check admits.
pub open spec fn after_check(
    m: Map<Seq<char>, Seq<u64>>,
    window: u64,
    key: Seq<char>,
    max: usize,
    now: u64,
) -> Map<Seq<char>, Seq<u64>> {
    let q = recent(queue_of(m, key), now, window);
    m.insert(
        key,
        if q.len() < max {
            q.push(now)
        } else {
            q
        },
    )
}

/// Sliding-window rate limiting: for each key, the times of its recent
/// admitted requests.
pub struct SimpleRateLimiter {
    window: u64,
    windows: StringHashMap<Vec<u64>>,
}

impl View for SimpleRateLimiter {
    type V = Map<Seq<char>, Seq<u64>>;

    closed spec fn view(&self) -> Map<Seq<char>, Seq<u64>> {
        self.windows@.map_values(|q: Vec<u64>| q@)
    }
}

impl SimpleRateLimiter {
    /// The length of the sliding window, in the unit of the timestamps.
    pub closed spec fn window_len(&self) -> u64 {
        self.window
    }

    /// A limiter with no history and the given window length.
    pub fn new(window: u64) -> (r: SimpleRateLimiter)
        ensures
            r@ == Map::<Seq<char>, Seq<u64>>::empty(),
            r.window_len() == window,
    {
        let r = SimpleRateLimiter { window, windows: StringHashMap::new() };
        assert(r@ =~= Map::<Seq<char>, Seq<u64>>::empty());
        r
    }

    /// Checks one request under `key` at time `now`: drops the timestamps
    /// older than the window, then admits (and records `now`) only when fewer
    /// than `max_requests` remain. Keys are independent of each other.
    pub fn check(&mut self, key: String, max_requests: usize, now: u64) -> (r: bool)
        ensures
            r == admits(old(self)@, old(self).window_len(), key@, max_requests, now),
            final(self)@ == after_check(
                old(self)@,
                old(self).window_len(),
                key@,
                max_requests,
                now,
            ),
            final(self).window_len() == old(self).window_len(),
    {
        let ghost m = self@;
        let mut kept: Vec<u64> = Vec::new();
        match self.windows.get(key.as_str()) {
            Some(q) => {
                let n = q.len();
                let mut i: usize = 0;
                while i < n
                    invariant
                        n == q@.len(),
                        i <= n,
                        kept@ == recent(q@.take(i as int), now, self.window),
                    decreases n - i,
                {
                    let t = q[i];
                    proof {
                        assert(q@.take(i as int + 1).drop_last() =~= q@.take(i as int));
                    }
                    if !(now > t && now - t > self.window) {
                        kept.push(t);
                    }
                    i = i + 1;
                }
                assert(q@.take(n as int) =~= q@);
            },
            None => {},
        }
        assert(kept@ == recent(queue_of(m, key@), now, self.window));
        let allowed = kept.len() < max_requests;
        if allowed {
            kept.push(now);
        }
        let ghost before = self.windows@;
        let ghost kv = kept@;
        self.windows.insert(key, kept);
        assert(self@ =~= before.map_values(|q: Vec<u64>| q@).insert(key@, kv));
        allowed
    }
}

/// The rate-limit key of a source address.
pub open spec fn address_key_of(address: Seq<char>) -> Seq<char> {
    "ip:"@ + address
}

/// The rate-limit key of an identity, by its fingerprint.
pub open spec fn identity_key_of(token_id: Seq<char>) -> Seq<char> {
    "token:"@ + token_id
}

/// The rate-limit key of a source address: `ip:` then the address.
pub fn address_key(address: &str) -> (r: String)
    ensures
        r@ == address_key_of(address@),
{
    let mut k = String::from_str("ip:");
    k.append(address);
    k
}

/// The rate-limit key of an identity: `token:` then its fingerprint.
pub fn identity_key(token_id: &str) -> (r: String)
    ensures
        r@ == identity_key_of(token_id@),
{
    let mut k = String::from_str("token:");
    k.append(token_id);
    k
}

/// The text of a forwarded-for header value up to its first comma: the
/// address of the client that the first proxy saw.
pub open spec fn first_hop(v: Seq<char>) -> Seq<char>
    decreases v.len(),
{
    if v.len() == 0 {
        v
    } else if first_hop(v.drop_last()).len() < v.len() - 1 {
        first_hop(v.drop_last())
    } else if v.last() == ',' {
        v.drop_last()
    } else {
        v
    }
}

/// The part of a forwarded-for header value before its first comma (all of
/// it when there is none).
pub fn forwarded_first_hop(v: &str) -> (r: String)
    ensures
        r@ == first_hop(v@),
{
    let n = v.unicode_len();
    let mut i: usize = 0;
    while i < n
        invariant
            n == v@.len(),
            i <= n,
            first_hop(v@.take(i as int)) == v@.take(i as int),
        decreases n - i,
    {
        assert(v@.take(i as int + 1).drop_last() =~= v@.take(i as int));
        if v.get_char(i) == ',' {
            proof {
                lemma_first_hop_extends(v@, i as int);
            }
            return String::from_str(v.substring_char(0, i));
        }
        i = i + 1;
    }
    assert(v@.take(n as int) =~= v@);
    String::from_str(v)
}

proof fn lemma_first_hop_extends(v: Seq<char>, i: int)
    requires
        0 <= i < v.len(),
        v[i] == ',',
        first_hop(v.take(i)) == v.take(i),
    ensures
        first_hop(v) == v.take(i),
    decreases v.len(),
{
    assert(v.take(i + 1).drop_last() =~= v.take(i));
    if i + 1 < v.len() {
        assert(v.take(i + 1) =~= v.drop_last().take(i + 1));
        assert(v.drop_last().take(i) =~= v.take(i));
        lemma_first_hop_extends(v.drop_last(), i);
    } else {
        assert(v.drop_last() =~= v.take(i));
    }
}

/// The address a request is counted under: the forwarded client address
/// when one was given and read as an address, else the peer's address, else
/// the loopback address.
pub fn source_address(forwarded: Option<String>, peer: Option<String>) -> (r: String)
    ensures
        r@ == match forwarded {
            Some(f) => f@,
            None => match peer {
                Some(p) => p@,
                None => "127.0.0.1"@,
            },
        },
{
    match forwarded {
        Some(f) => f,
        None => match peer {
            Some(p) => p,
            None => String::from_str("127.0.0.1"),
        },
    }
}

/// The identity key and per-minute limit under which an identity is also
/// rate-limited; none when the identity has no limit of its own.
pub open spec fn identity_limit(identity: Option<&AuthorizedToken>) -> Option<(Seq<char>, usize)> {
    match identity {
        Some(t) => match t.rate_limit_per_minute {
            Some(l) => Some((identity_key_of(t.token_id@), l)),
            None => None,
        },
        None => None,
    }
}

/// The rate gate: the source address is checked against the global limit;
/// only if that admits, an identity with a limit of its own is checked
/// against it as well. The result says whether the request passes, and how
/// the windows stand afterwards.
pub open spec fn rate_gate(
    m: Map<Seq<char>, Seq<u64>>,
    window: u64,
    address: Seq<char>,
    identity: Option<(Seq<char>, usize)>,
    global_limit: usize,
    now: u64,
) -> (bool, Map<Seq<char>, Seq<u64>>) {
    let ak = address_key_of(address);
    let m1 = after_check(m, window, ak, global_limit, now);
    if !admits(m, window, ak, global_limit, now) {
        (false, m1)
    } else {
        match identity {
            None => (true, m1),
            Some((ik, limit)) => (
                admits(m1, window, ik, limit, now),
                after_check(m1, window, ik, limit, now),
            ),
        }
    }
}

/// Runs the rate gate for a request from `address`, carrying `identity`
/// if one resolved, at time `now`. A request turned away gets
/// `TooManyRequests`, whichever check refused it.
pub fn admit_request(
    limiter: &mut SimpleRateLimiter,
    address: &str,
    identity: Option<&AuthorizedToken>,
    global_limit: usize,
    now: u64,
) -> (r: Result<(), AppError>)
    ensures
        (r is Ok, final(limiter)@) == rate_gate(
            old(limiter)@,
            old(limiter).window_len(),
            address@,
            identity_limit(identity),
            global_limit,
            now,
        ),
        r matches Err(e) ==> e == AppError::TooManyRequests,
        final(limiter).window_len() == old(limiter).window_len(),
{
    if !limiter.check(address_key(address), global_limit, now) {
        return Err(AppError::TooManyRequests);
    }
    if let Some(t) = identity {
        if let Some(limit) = t.rate_limit_per_minute {
            if !limiter.check(identity_key(t.token_id.as_str()), limit, now) {
                return Err(AppError::TooManyRequests);
            }
        }
    }
    Ok(())
}

/// Distinct keys have independent windows: a check under one key leaves the
/// window of every other key as it was.
pub proof fn lemma_keys_independent(
    m: Map<Seq<char>, Seq<u64>>,
    window: u64,
    key: Seq<char>,
    other: Seq<char>,
    max: usize,
    now: u64,
)
    requires
        key != other,
    ensures
        queue_of(after_check(m, window, key, max, now), other) == queue_of(m, other),
{
}

} // verus!
