//! Rate limiting with one token bucket per client address (the `governor`
//! crate).

use std::num::NonZeroU32;
use vstd::prelude::*;
use governor::{DefaultKeyedRateLimiter, Quota, RateLimiter};

use crate::config::RateLimitConfig;

verus! {

#[verifier::external_type_specification]
#[verifier::external_body]
pub struct ExQuota(Quota);

/// An in-memory rate limiter on the default clock, with one bucket per key
/// (a client address, as text).
///
/// The limiter's type is bounded by `governor`'s traits for its state store,
/// clock and middleware, so it is held in an opaque field; its quota is
/// described by `limiter_burst` and `limiter_replenish_nanos`, its buckets by
/// `limiter_keys`.
#[verifier::external_body]
pub struct KeyedLimiter {
    inner: DefaultKeyedRateLimiter<String>,
}

/// The burst size of a quota.
pub uninterp spec fn quota_burst(q: Quota) -> nat;

/// The time, in nanoseconds, in which a quota gives back one cell.
pub uninterp spec fn quota_replenish_nanos(q: Quota) -> nat;

/// The burst size of the quota a limiter was made with.
pub uninterp spec fn limiter_burst(l: KeyedLimiter) -> nat;

/// The replenish interval (ns) of the quota a limiter was made with.
pub uninterp spec fn limiter_replenish_nanos(l: KeyedLimiter) -> nat;

/// The keys that have a bucket in a limiter: every key it has been asked
/// about.
pub uninterp spec fn limiter_keys(l: KeyedLimiter) -> Set<Seq<char>>;

/// `Quota::per_second`: a burst of `n` cells, one cell back every 1/n second.
#[verifier::external_body]
fn quota_per_second(n: u32) -> (r: Quota)
    requires
        n > 0,
    ensures
        quota_burst(r) == n,
        quota_replenish_nanos(r) == 1_000_000_000nat / (n as nat),
{
    Quota::per_second(NonZeroU32::new(n).unwrap())
}

/// `Quota::allow_burst`: the same quota with another burst size.
#[verifier::external_body]
fn quota_allow_burst(q: Quota, burst: u32) -> (r: Quota)
    requires
        burst > 0,
    ensures
        quota_burst(r) == burst,
        quota_replenish_nanos(r) == quota_replenish_nanos(q),
{
    q.allow_burst(NonZeroU32::new(burst).unwrap())
}

/// `RateLimiter::keyed`: a limiter for the quota, with no bucket yet; every
/// key starts with a full burst.
#[verifier::external_body]
fn limiter_keyed(q: Quota) -> (r: KeyedLimiter)
    ensures
        limiter_burst(r) == quota_burst(q),
        limiter_replenish_nanos(r) == quota_replenish_nanos(q),
        limiter_keys(r) == Set::<Seq<char>>::empty(),
{
    KeyedLimiter { inner: RateLimiter::keyed(q) }
}

/// `RateLimiter::check_key`: whether one more cell is let through now from
/// the bucket of this key. The store makes the key's bucket when it has
/// none (`DashMapStateStore::measure_and_replace`) and keeps it; the quota
/// is unchanged. A key without a bucket always passes: `Gcra::test_and_update`
/// takes the current time as the theoretical arrival time of a fresh bucket
/// (`tat.unwrap_or(t0)`), and the earliest allowed time `tat - tau` is then
/// never later than now. For a key that already has a bucket the answer
/// depends on the clock and on earlier calls, and is left unstated.
#[verifier::external_body]
fn limiter_check_key(l: &mut KeyedLimiter, key: &str) -> (r: bool)
    ensures
        !limiter_keys(*old(l)).contains(key@) ==> r,
        limiter_keys(*final(l)) == limiter_keys(*old(l)).insert(key@),
        limiter_burst(*final(l)) == limiter_burst(*old(l)),
        limiter_replenish_nanos(*final(l)) == limiter_replenish_nanos(*old(l)),
{
    l.inner.check_key(&key.to_string()).is_ok()
}

/// The quota of `requests_per_second` cells a second with bursts of
/// `burst_size`.
pub fn quota_of(requests_per_second: u32, burst_size: u32) -> (r: Quota)
    requires
        requests_per_second > 0,
        burst_size > 0,
    ensures
        quota_burst(r) == burst_size,
        quota_replenish_nanos(r) == 1_000_000_000nat / (requests_per_second as nat),
{
    quota_allow_burst(quota_per_second(requests_per_second), burst_size)
}

/// Limits the rate of requests of each client with a token bucket.
pub struct RateLimitMiddleware {
    limiter: Option<KeyedLimiter>,
}

impl RateLimitMiddleware {
    /// Whether requests are limited at all.
    pub closed spec fn is_enabled(&self) -> bool {
        self.limiter is Some
    }

    /// The burst size of each bucket (when enabled).
    pub closed spec fn burst(&self) -> nat {
        match self.limiter {
            Some(l) => limiter_burst(l),
            None => 0,
        }
    }

    /// The interval, in nanoseconds, in which a bucket gains one token.
    pub closed spec fn replenish_nanos(&self) -> nat {
        match self.limiter {
            Some(l) => limiter_replenish_nanos(l),
            None => 0,
        }
    }

    /// The client addresses that have a bucket (none when disabled).
    pub closed spec fn buckets(&self) -> Set<Seq<char>> {
        match self.limiter {
            Some(l) => limiter_keys(l),
            None => Set::empty(),
        }
    }

    /// A limiter allowing each client `requests_per_second` on average and
    /// bursts of `burst_size`, or no limiter when disabled.
    pub fn new(config: &RateLimitConfig) -> (r: Self)
        requires
            config.enabled ==> config.requests_per_second > 0 && config.burst_size > 0,
        ensures
            r.is_enabled() == config.enabled,
            config.enabled ==> r.burst() == config.burst_size,
            config.enabled ==> r.replenish_nanos() == 1_000_000_000nat / (
            config.requests_per_second as nat),
            r.buckets() == Set::<Seq<char>>::empty(),
    {
        if !config.enabled {
            return Self { limiter: None };
        }
        let quota = quota_of(config.requests_per_second, config.burst_size);
        Self { limiter: Some(limiter_keyed(quota)) }
    }

    /// Whether a request from this client address may pass. Without a
    /// limiter every request passes; with one, the first request of an
    /// address passes and makes its bucket, which decides from then on.
    pub fn check(&mut self, client_ip: &str) -> (r: bool)
        ensures
            !old(self).is_enabled() ==> r,
            old(self).is_enabled() && !old(self).buckets().contains(client_ip@) ==> r,
            final(self).is_enabled() == old(self).is_enabled(),
            final(self).burst() == old(self).burst(),
            final(self).replenish_nanos() == old(self).replenish_nanos(),
            old(self).is_enabled() ==> final(self).buckets() == old(self).buckets().insert(
                client_ip@,
            ),
            !old(self).is_enabled() ==> final(self).buckets() == old(self).buckets(),
    {
        match self.limiter.take() {
            Some(mut limiter) => {
                let r = limiter_check_key(&mut limiter, client_ip);
                self.limiter = Some(limiter);
                r
            },
            None => true,
        }
    }
}

} // verus!
