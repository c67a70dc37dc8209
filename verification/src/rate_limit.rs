//! Counting failed recipient lookups per client address, to slow down and then block
//! clients that probe for addresses.  Times are milliseconds on a monotonic clock that
//! the caller reads.
use vstd::prelude::*;
use crate::dns::IpAddress;

verus! {

// ------------------------------------------------------------------
// The concurrent map of failure counts
// ------------------------------------------------------------------

#[verifier::external_type_specification]
#[verifier::external_body]
#[verifier::reject_recursive_types(K)]
#[verifier::reject_recursive_types(V)]
#[verifier::reject_recursive_types(S)]
pub struct ExDashMap<K, V, S>(dashmap::DashMap<K, V, S>);

/// Failure counts by address key (family 4 or 6, and the address as a number): the
/// number of failures and when the last one was recorded.
pub type FailureMap = dashmap::DashMap<(u8, u128), (usize, u64)>;

/// The failure counts a `DashMap` holds: for each address key, the number of failures
/// and when the last one was recorded.
pub uninterp spec fn rate_entries(m: FailureMap) -> Map<(u8, u128), (usize, u64)>;

/// `DashMap::new`: an empty map.
#[verifier::external_body]
fn rate_map_new() -> (m: FailureMap)
    ensures
        rate_entries(m) == no_failures(),
{
    dashmap::DashMap::new()
}

/// `DashMap::get`, the value copied out.
#[verifier::external_body]
fn rate_map_get(m: &FailureMap, k: (u8, u128)) -> (r: Option<(usize, u64)>)
    ensures
        r == (if rate_entries(*m).dom().contains(k) {
            Some(rate_entries(*m)[k])
        } else {
            None
        }),
{
    m.get(&k).map(|e| *e)
}

/// `DashMap::insert`: `k` now holds `v`.
#[verifier::external_body]
fn rate_map_insert(m: &mut FailureMap, k: (u8, u128), v: (usize, u64))
    ensures
        rate_entries(*final(m)) == rate_entries(*old(m)).insert(k, v),
{
    m.insert(k, v);
}

/// `DashMap::retain`, keeping the entries that `is_recent` accepts.
#[verifier::external_body]
fn rate_map_retain_recent(m: &mut FailureMap, max_age_ms: u64, now_ms: u64)
    ensures
        rate_entries(*final(m)) == recent_entries(rate_entries(*old(m)), max_age_ms, now_ms),
{
    m.retain(|_, e| is_recent(now_ms, e.1, max_age_ms));
}

// ------------------------------------------------------------------
// Specification
// ------------------------------------------------------------------

/// No failures recorded.
pub open spec fn no_failures() -> Map<(u8, u128), (usize, u64)> {
    Map::empty()
}

/// The key of an address.
pub open spec fn ip_key(ip: IpAddress) -> (u8, u128) {
    match ip {
        IpAddress::V4(a) => (4u8, a as u128),
        IpAddress::V6(a) => (6u8, a),
    }
}

/// How long ago `last` was at `now` (no time has passed when the clock reads earlier).
pub open spec fn age(now: u64, last: u64) -> int {
    if now >= last {
        now - last
    } else {
        0
    }
}

/// The entries whose last failure is less than `max_age_ms` old at `now_ms`.
pub open spec fn recent_entries(m: Map<(u8, u128), (usize, u64)>, max_age_ms: u64, now_ms: u64) -> Map<
    (u8, u128),
    (usize, u64),
> {
    Map::new(|k: (u8, u128)| m.dom().contains(k) && age(now_ms, m[k].1) < max_age_ms, |k: (u8, u128)| m[k])
}

/// The failure count and last failure time of `ip`, if it has an entry.
pub open spec fn entry_of(m: Map<(u8, u128), (usize, u64)>, ip: IpAddress) -> Option<(usize, u64)> {
    if m.dom().contains(ip_key(ip)) {
        Some(m[ip_key(ip)])
    } else {
        None
    }
}

/// The recorded failures of `ip`: none when it has no entry.
pub open spec fn failures_of(m: Map<(u8, u128), (usize, u64)>, ip: IpAddress) -> nat {
    match entry_of(m, ip) {
        Some(e) => e.0 as nat,
        None => 0,
    }
}

/// The failure counts of the addresses seen lately.
pub struct RateLimiter {
    map: FailureMap,
}

impl View for RateLimiter {
    type V = Map<(u8, u128), (usize, u64)>;

    closed spec fn view(&self) -> Map<(u8, u128), (usize, u64)> {
        rate_entries(self.map)
    }
}

// ------------------------------------------------------------------
// Implementation
// ------------------------------------------------------------------

/// Two addresses share a key only when they are the same address.
proof fn lemma_ip_key_injective(a: IpAddress, b: IpAddress)
    ensures
        ip_key(a) == ip_key(b) ==> a == b,
{
}

fn key_of(ip: IpAddress) -> (k: (u8, u128))
    ensures
        k == ip_key(ip),
{
    match ip {
        IpAddress::V4(a) => (4u8, a as u128),
        IpAddress::V6(a) => (6u8, a),
    }
}

/// Whether a failure last seen at `last_ms` is less than `max_age_ms` old at `now_ms`.
pub fn is_recent(now_ms: u64, last_ms: u64, max_age_ms: u64) -> (b: bool)
    ensures
        b == (age(now_ms, last_ms) < max_age_ms),
{
    let a: u64 = if now_ms >= last_ms { now_ms - last_ms } else { 0 };
    a < max_age_ms
}

impl RateLimiter {
    pub fn new() -> (r: Self)
        ensures
            r@ == no_failures(),
    {
        RateLimiter { map: rate_map_new() }
    }

    /// Records a failure of `ip` at `now_ms` and returns its count of recent failures.
    pub fn record_failure(&mut self, ip: IpAddress, now_ms: u64) -> (n: usize)
        requires
            failures_of(old(self)@, ip) < usize::MAX,
        ensures
            n == failures_of(old(self)@, ip) + 1,
            entry_of(final(self)@, ip) == Some((n, now_ms)),
            forall|other: IpAddress| other != ip ==> entry_of(final(self)@, other) == entry_of(old(self)@, other),
    {
        let k = key_of(ip);
        let n = match rate_map_get(&self.map, k) {
            Some(e) => e.0 + 1,
            None => 1,
        };
        rate_map_insert(&mut self.map, k, (n, now_ms));
        proof {
            assert forall|other: IpAddress| other != ip implies entry_of(self@, other) == entry_of(old(self)@, other) by {
                lemma_ip_key_injective(other, ip);
            }
        }
        n
    }

    /// Forgets the addresses whose last failure is `max_age_ms` or more old at
    /// `now_ms`: every other address keeps its entry, count and all.
    pub fn cleanup(&mut self, max_age_ms: u64, now_ms: u64)
        ensures
            final(self)@ == recent_entries(old(self)@, max_age_ms, now_ms),
            forall|ip: IpAddress|
                #[trigger] entry_of(final(self)@, ip) == match entry_of(old(self)@, ip) {
                    Some(e) => if age(now_ms, e.1) < max_age_ms {
                        Some(e)
                    } else {
                        None
                    },
                    None => None,
                },
    {
        rate_map_retain_recent(&mut self.map, max_age_ms, now_ms);
    }

    /// The recorded failure count of `ip`.
    pub fn failures(&self, ip: IpAddress) -> (n: usize)
        ensures
            n == failures_of(self@, ip),
    {
        match rate_map_get(&self.map, key_of(ip)) {
            Some(e) => e.0,
            None => 0,
        }
    }
}

} // verus!
