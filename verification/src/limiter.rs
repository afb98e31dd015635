//! Token-bucket admission control, one bucket per client address.
//!
//! Amounts are fixed-point. Rates and capacities are given in millionths of a
//! token (a rate in millionths of a token per second), time in nanoseconds.
//! A bucket counts in the product of the two units, so that a refill is exact:
//! one token is [`ONE_TOKEN`] units, and `elapsed * rate` needs no division.
//!
//! No bucket is ever removed: the limiter grows with the number of distinct
//! addresses it has seen.

use std::collections::HashMap;
use std::time::Duration;
use std::time::Instant;
use vstd::prelude::*;

verus! {

broadcast use vstd::std_specs::hash::group_hash_axioms;

/// `std::time::Instant`: a reading of the monotonic clock, opaque to the proofs.
#[verifier::external_type_specification]
#[verifier::external_body]
pub struct ExInstant(std::time::Instant);

/// `Instant::now` reads the monotonic clock. Nothing is claimed of the reading.
pub assume_specification[ Instant::now ]() -> (now: Instant);

/// `Instant::saturating_duration_since` gives the time from `earlier` to
/// `later`, or zero if `earlier` is the later one. Nothing is claimed of the
/// duration.
pub assume_specification[ Instant::saturating_duration_since ](
    later: &Instant,
    earlier: Instant,
) -> (passed: Duration);

/// `Duration::as_nanos` gives the duration in whole nanoseconds. Nothing is
/// claimed of the number.
pub assume_specification[ Duration::as_nanos ](duration: &Duration) -> (nanos: u128);

/// Nanoseconds in one second.
pub const NANOS_PER_SEC: u64 = 1_000_000_000;

/// Millionths in one token: the unit of rates and capacities.
pub const MICROS_PER_TOKEN: u64 = 1_000_000;

/// Bucket units in one token.
pub const ONE_TOKEN: u128 = 1_000_000_000_000_000;

/// The network address a request came from.
#[derive(Clone, Copy, Debug, PartialEq, Eq, Structural)]
pub enum ClientAddr {
    /// The four bytes of an IPv4 address, most significant first.
    V4(u32),
    /// The sixteen bytes of an IPv6 address, most significant first.
    V6(u128),
}

/// The accounting state of one address: what a bucket is, mathematically.
pub struct Bucket {
    /// Tokens held, in bucket units.
    pub tokens: nat,
    /// Time of the last refill, in nanoseconds since the limiter was made.
    pub last_refill: nat,
}

/// A capacity given in millionths of a token, in bucket units.
pub open spec fn capacity_units(capacity: u64) -> nat {
    capacity as nat * NANOS_PER_SEC as nat
}

/// The bucket of an address that was never seen before: full, refilled now.
pub open spec fn full_bucket(now: u64, capacity: u64) -> Bucket {
    Bucket { tokens: capacity_units(capacity), last_refill: now as nat }
}

/// Time that has passed since the bucket's last refill; none if `now` is not later.
pub open spec fn elapsed_since(b: Bucket, now: u64) -> nat {
    if now as nat > b.last_refill {
        (now as nat - b.last_refill) as nat
    } else {
        0
    }
}

/// The bucket after the time-proportional refill: `elapsed * rate` is added and
/// the sum is clamped to the capacity.
pub open spec fn refilled(b: Bucket, now: u64, rate: u64, capacity: u64) -> Bucket {
    let sum = b.tokens + elapsed_since(b, now) * rate as nat;
    Bucket {
        tokens: if sum <= capacity_units(capacity) {
            sum
        } else {
            capacity_units(capacity)
        },
        last_refill: if now as nat > b.last_refill {
            now as nat
        } else {
            b.last_refill
        },
    }
}

/// A bucket admits a request when it holds at least one whole token.
pub open spec fn holds_token(b: Bucket) -> bool {
    b.tokens >= ONE_TOKEN as nat
}

/// The bucket after the admission decision: one token less if the request was
/// admitted, unchanged if it was denied.
pub open spec fn settled(b: Bucket) -> Bucket {
    if holds_token(b) {
        Bucket { tokens: (b.tokens - ONE_TOKEN as nat) as nat, last_refill: b.last_refill }
    } else {
        b
    }
}

/// The bucket of `address` at time `now`, refilled and not yet charged.
pub open spec fn bucket_at(
    buckets: Map<ClientAddr, Bucket>,
    address: ClientAddr,
    now: u64,
    rate: u64,
    capacity: u64,
) -> Bucket {
    let start = if buckets.contains_key(address) {
        buckets[address]
    } else {
        full_bucket(now, capacity)
    };
    refilled(start, now, rate, capacity)
}

/// Whether a request from `address` at time `now` is admitted.
pub open spec fn admits(
    buckets: Map<ClientAddr, Bucket>,
    address: ClientAddr,
    now: u64,
    rate: u64,
    capacity: u64,
) -> bool {
    holds_token(bucket_at(buckets, address, now, rate, capacity))
}

/// The buckets after a request from `address` at time `now` was decided.
pub open spec fn after_request(
    buckets: Map<ClientAddr, Bucket>,
    address: ClientAddr,
    now: u64,
    rate: u64,
    capacity: u64,
) -> Map<ClientAddr, Bucket> {
    buckets.insert(address, settled(bucket_at(buckets, address, now, rate, capacity)))
}

/// The buckets after `n` requests from `address`, all at time `now`.
pub open spec fn after_burst(
    buckets: Map<ClientAddr, Bucket>,
    address: ClientAddr,
    now: u64,
    rate: u64,
    capacity: u64,
    n: nat,
) -> Map<ClientAddr, Bucket>
    decreases n,
{
    if n == 0 {
        buckets
    } else {
        after_request(
            after_burst(buckets, address, now, rate, capacity, (n - 1) as nat),
            address,
            now,
            rate,
            capacity,
        )
    }
}

/// After a request was decided, the bucket of its address holds no more than
/// the capacity the request came with.
pub proof fn tokens_stay_within_capacity(
    buckets: Map<ClientAddr, Bucket>,
    address: ClientAddr,
    now: u64,
    rate: u64,
    capacity: u64,
)
    ensures
        after_request(buckets, address, now, rate, capacity).contains_key(address),
        after_request(buckets, address, now, rate, capacity)[address].tokens <= capacity_units(
            capacity,
        ),
{
}

/// A bucket gains tokens only by the refill, which adds the time passed times
/// the rate and stops at the capacity; it loses tokens only by an admitted
/// request, which costs exactly one token. A denied request costs nothing.
pub proof fn admission_costs_one_token(
    buckets: Map<ClientAddr, Bucket>,
    address: ClientAddr,
    now: u64,
    rate: u64,
    capacity: u64,
)
    ensures
        ({
            let before = bucket_at(buckets, address, now, rate, capacity);
            let after = after_request(buckets, address, now, rate, capacity)[address];
            if admits(buckets, address, now, rate, capacity) {
                after.tokens + ONE_TOKEN as nat == before.tokens
            } else {
                after.tokens == before.tokens
            }
        }),
        buckets.contains_key(address) ==> ({
            let before = bucket_at(buckets, address, now, rate, capacity);
            let gain = elapsed_since(buckets[address], now) * rate as nat;
            before.tokens <= buckets[address].tokens + gain
        }),
{
}

/// A request from one address leaves the bucket of every other address as it
/// was, and makes no bucket for it.
pub proof fn other_buckets_untouched(
    buckets: Map<ClientAddr, Bucket>,
    address: ClientAddr,
    other: ClientAddr,
    now: u64,
    rate: u64,
    capacity: u64,
)
    requires
        other != address,
    ensures
        after_request(buckets, address, now, rate, capacity).contains_key(other)
            == buckets.contains_key(other),
        buckets.contains_key(other) ==> after_request(buckets, address, now, rate, capacity)[other]
            == buckets[other],
        forall|t: u64, r: u64, c: u64|
            bucket_at(after_request(buckets, address, now, rate, capacity), other, t, r, c)
                == bucket_at(buckets, other, t, r, c),
{
}

/// Without time passed nothing is gained, whatever the rate.
proof fn no_time_gains_nothing(held: Bucket, now: u64, rate: u64)
    requires
        now as nat <= held.last_refill,
    ensures
        elapsed_since(held, now) * rate as nat == 0,
{
    assert(elapsed_since(held, now) * rate as nat == 0) by (nonlinear_arith)
        requires
            elapsed_since(held, now) == 0,
    ;
}

/// A capacity of `whole` tokens, in bucket units.
proof fn whole_tokens_in_units(whole: u64)
    requires
        whole as nat * MICROS_PER_TOKEN as nat <= u64::MAX as nat,
    ensures
        capacity_units((whole as nat * MICROS_PER_TOKEN as nat) as u64) == whole as nat
            * ONE_TOKEN as nat,
{
    let capacity = (whole as nat * MICROS_PER_TOKEN as nat) as u64;
    assert(capacity_units(capacity) == whole as nat * ONE_TOKEN as nat) by (nonlinear_arith)
        requires
            capacity as nat == whole as nat * 1_000_000,
            capacity_units(capacity) == capacity as nat * 1_000_000_000,
            ONE_TOKEN as nat == 1_000_000_000_000_000,
    ;
}

/// Counts of whole tokens compare as their bucket units do: a count is worth
/// a token when it is at least one, no more than any count above it, and one
/// token more than the count before it.
proof fn tokens_compare_as_counts(count: nat, bound: nat)
    ensures
        count * ONE_TOKEN as nat >= ONE_TOKEN as nat <==> count >= 1,
        count <= bound ==> count * ONE_TOKEN as nat <= bound * ONE_TOKEN as nat,
        count >= 1 ==> count * ONE_TOKEN as nat - ONE_TOKEN as nat == (count - 1) as nat
            * ONE_TOKEN as nat,
{
    assert(count * ONE_TOKEN as nat >= ONE_TOKEN as nat <==> count >= 1) by (nonlinear_arith)
        requires
            ONE_TOKEN as nat == 1_000_000_000_000_000,
    ;
    assert(count <= bound ==> count * ONE_TOKEN as nat <= bound * ONE_TOKEN as nat)
        by (nonlinear_arith);
    assert(count >= 1 ==> count * ONE_TOKEN as nat - ONE_TOKEN as nat == (count - 1) as nat
        * ONE_TOKEN as nat) by (nonlinear_arith);
}

/// Waiting refills: a bucket that is seen again at a later time admits the
/// request exactly when what it held, with the time passed times the rate
/// added, comes to a whole token, and the capacity allows one.
pub proof fn waiting_refills(
    buckets: Map<ClientAddr, Bucket>,
    address: ClientAddr,
    now: u64,
    rate: u64,
    capacity: u64,
)
    requires
        buckets.contains_key(address),
        buckets[address].last_refill <= now as nat,
    ensures
        admits(buckets, address, now, rate, capacity) <==> (buckets[address].tokens + (now as nat
            - buckets[address].last_refill) * rate as nat >= ONE_TOKEN as nat && capacity_units(
            capacity,
        ) >= ONE_TOKEN as nat),
        after_request(buckets, address, now, rate, capacity)[address].last_refill == now as nat,
{
    let held = buckets[address];
    assert(elapsed_since(held, now) == now as nat - held.last_refill);
}

/// A burst from an address never seen before, with a capacity of `whole`
/// tokens: the request that follows `sent` requests made at the same time is
/// admitted exactly when `sent < whole`, whatever the refill rate.
pub proof fn burst_admits_whole_capacity(
    buckets: Map<ClientAddr, Bucket>,
    address: ClientAddr,
    now: u64,
    rate: u64,
    whole: u64,
    sent: nat,
)
    requires
        !buckets.contains_key(address),
        whole as nat * MICROS_PER_TOKEN as nat <= u64::MAX as nat,
    ensures
        admits(
            after_burst(
                buckets,
                address,
                now,
                rate,
                (whole as nat * MICROS_PER_TOKEN as nat) as u64,
                sent,
            ),
            address,
            now,
            rate,
            (whole as nat * MICROS_PER_TOKEN as nat) as u64,
        ) <==> sent < whole as nat,
{
    let capacity = (whole as nat * MICROS_PER_TOKEN as nat) as u64;
    let after = after_burst(buckets, address, now, rate, capacity, sent);
    let left: nat = if sent < whole as nat {
        (whole as nat - sent) as nat
    } else {
        0
    };
    let start = if after.contains_key(address) {
        after[address]
    } else {
        full_bucket(now, capacity)
    };
    burst_leaves_the_rest(buckets, address, now, rate, whole, sent);
    whole_tokens_in_units(whole);
    tokens_compare_as_counts(left, whole as nat);
    no_time_gains_nothing(start, now, rate);
}

/// What a burst leaves in the bucket: the capacity less one token for each
/// request, as long as tokens were left.
proof fn burst_leaves_the_rest(
    buckets: Map<ClientAddr, Bucket>,
    address: ClientAddr,
    now: u64,
    rate: u64,
    whole: u64,
    sent: nat,
)
    requires
        !buckets.contains_key(address),
        whole as nat * MICROS_PER_TOKEN as nat <= u64::MAX as nat,
    ensures
        ({
            let capacity = (whole as nat * MICROS_PER_TOKEN as nat) as u64;
            let after = after_burst(buckets, address, now, rate, capacity, sent);
            let left: nat = if sent < whole as nat {
                (whole as nat - sent) as nat
            } else {
                0
            };
            if sent == 0 {
                after == buckets
            } else {
                after.contains_key(address) && after[address] == (Bucket {
                    tokens: left * ONE_TOKEN as nat,
                    last_refill: now as nat,
                })
            }
        }),
    decreases sent,
{
    let capacity = (whole as nat * MICROS_PER_TOKEN as nat) as u64;
    if sent > 0 {
        let earlier = (sent - 1) as nat;
        burst_leaves_the_rest(buckets, address, now, rate, whole, earlier);
        let before = after_burst(buckets, address, now, rate, capacity, earlier);
        let left_before: nat = if earlier < whole as nat {
            (whole as nat - earlier) as nat
        } else {
            0
        };
        let start = if before.contains_key(address) {
            before[address]
        } else {
            full_bucket(now, capacity)
        };
        whole_tokens_in_units(whole);
        tokens_compare_as_counts(left_before, whole as nat);
        no_time_gains_nothing(start, now, rate);
        assert(start == (Bucket { tokens: left_before * ONE_TOKEN as nat, last_refill: now as nat }));
        assert(refilled(start, now, rate, capacity) == start);
    }
}

#[derive(Clone, Copy)]
struct TokenBucket {
    tokens: u128,
    last_refill: u64,
}

impl View for TokenBucket {
    type V = Bucket;

    closed spec fn view(&self) -> Bucket {
        Bucket { tokens: self.tokens as nat, last_refill: self.last_refill as nat }
    }
}

impl TokenBucket {
    fn full(now: u64, capacity: u64) -> (b: TokenBucket)
        ensures
            b@ == full_bucket(now, capacity),
    {
        TokenBucket { tokens: to_units(capacity), last_refill: now }
    }

    fn refill(self, now: u64, rate: u64, capacity: u64) -> (b: TokenBucket)
        ensures
            b@ == refilled(self@, now, rate, capacity),
    {
        let cap: u128 = to_units(capacity);
        if now > self.last_refill {
            let elapsed: u64 = now - self.last_refill;
            assert(elapsed as nat * rate as nat <= u128::MAX as nat) by (nonlinear_arith)
                requires
                    elapsed as nat <= 0xffff_ffff_ffff_ffff,
                    rate as nat <= 0xffff_ffff_ffff_ffff,
                    u128::MAX as nat == 0xffff_ffff_ffff_ffff_ffff_ffff_ffff_ffff,
            ;
            let gained: u128 = (elapsed as u128) * (rate as u128);
            assert(elapsed_since(self@, now) == elapsed as nat);
            assert(gained as nat == elapsed_since(self@, now) * rate as nat);
            let tokens: u128 = if self.tokens >= cap || gained >= cap - self.tokens {
                cap
            } else {
                self.tokens + gained
            };
            TokenBucket { tokens, last_refill: now }
        } else {
            proof {
                no_time_gains_nothing(self@, now, rate);
            }
            let tokens: u128 = if self.tokens >= cap {
                cap
            } else {
                self.tokens
            };
            TokenBucket { tokens, last_refill: self.last_refill }
        }
    }

    fn settle(self) -> (r: (bool, TokenBucket))
        ensures
            r.0 == holds_token(self@),
            r.1@ == settled(self@),
    {
        if self.tokens >= ONE_TOKEN {
            (true, TokenBucket { tokens: self.tokens - ONE_TOKEN, last_refill: self.last_refill })
        } else {
            (false, self)
        }
    }
}

fn to_units(capacity: u64) -> (units: u128)
    ensures
        units as nat == capacity_units(capacity),
{
    assert(capacity as nat * NANOS_PER_SEC as nat <= u128::MAX as nat) by (nonlinear_arith)
        requires
            capacity as nat <= 0xffff_ffff_ffff_ffff,
            NANOS_PER_SEC as nat == 1_000_000_000,
            u128::MAX as nat == 0xffff_ffff_ffff_ffff_ffff_ffff_ffff_ffff,
    ;
    (capacity as u128) * (NANOS_PER_SEC as u128)
}

/// A rate limiter that keeps one token bucket per client address.
///
/// Its view maps each address seen so far to its bucket.
pub struct RateLimiter {
    origin: Instant,
    v4: HashMap<u32, TokenBucket>,
    v6: HashMap<u128, TokenBucket>,
}

impl View for RateLimiter {
    type V = Map<ClientAddr, Bucket>;

    closed spec fn view(&self) -> Map<ClientAddr, Bucket> {
        Map::new(
            |a: ClientAddr|
                match a {
                    ClientAddr::V4(k) => self.v4@.contains_key(k),
                    ClientAddr::V6(k) => self.v6@.contains_key(k),
                },
            |a: ClientAddr|
                match a {
                    ClientAddr::V4(k) => self.v4@[k]@,
                    ClientAddr::V6(k) => self.v6@[k]@,
                },
        )
    }
}

impl RateLimiter {
    /// A limiter that has seen no address. Its clock starts now.
    pub fn new() -> (limiter: RateLimiter)
        ensures
            limiter@ == Map::<ClientAddr, Bucket>::empty(),
    {
        let limiter = RateLimiter { origin: Instant::now(), v4: HashMap::new(), v6: HashMap::new() };
        assert(limiter@ =~= Map::<ClientAddr, Bucket>::empty());
        limiter
    }

    /// Decides a request from `address` at the present time, with a refill rate
    /// of `refill_per_sec` millionths of a token per second and a capacity of
    /// `capacity` millionths of a token.
    ///
    /// The decision is the one [`RateLimiter::allow_at`] makes for some reading
    /// of the clock.
    pub fn allow(&mut self, address: ClientAddr, refill_per_sec: u64, capacity: u64) -> (admitted:
        bool)
        ensures
            exists|now: u64|
                admitted == #[trigger] admits(old(self)@, address, now, refill_per_sec, capacity)
                    && final(self)@ == after_request(
                    old(self)@,
                    address,
                    now,
                    refill_per_sec,
                    capacity,
                ),
    {
        let now = self.clock();
        self.allow_at(address, now, refill_per_sec, capacity)
    }

    /// Decides a request from `address` at time `now`, in nanoseconds since the
    /// limiter was made.
    ///
    /// An address never seen before starts with a full bucket. The bucket is
    /// refilled in proportion to the time since its last refill, up to the
    /// capacity. The request is admitted if the bucket then holds a whole token,
    /// which it pays; a denied request takes nothing.
    pub fn allow_at(
        &mut self,
        address: ClientAddr,
        now: u64,
        refill_per_sec: u64,
        capacity: u64,
    ) -> (admitted: bool)
        ensures
            admitted == admits(old(self)@, address, now, refill_per_sec, capacity),
            final(self)@ == after_request(old(self)@, address, now, refill_per_sec, capacity),
    {
        match address {
            ClientAddr::V4(key) => {
                let start = match self.v4.get(&key) {
                    Some(bucket) => *bucket,
                    None => TokenBucket::full(now, capacity),
                };
                let (admitted, next) = start.refill(now, refill_per_sec, capacity).settle();
                self.v4.insert(key, next);
                assert(self@ =~= after_request(
                    old(self)@,
                    address,
                    now,
                    refill_per_sec,
                    capacity,
                ));
                admitted
            },
            ClientAddr::V6(key) => {
                let start = match self.v6.get(&key) {
                    Some(bucket) => *bucket,
                    None => TokenBucket::full(now, capacity),
                };
                let (admitted, next) = start.refill(now, refill_per_sec, capacity).settle();
                self.v6.insert(key, next);
                assert(self@ =~= after_request(
                    old(self)@,
                    address,
                    now,
                    refill_per_sec,
                    capacity,
                ));
                admitted
            },
        }
    }

    /// The token count of `address` in bucket units, if the address was seen.
    pub fn tokens(&self, address: ClientAddr) -> (tokens: Option<u128>)
        ensures
            match tokens {
                Some(t) => self@.contains_key(address) && self@[address].tokens == t as nat,
                None => !self@.contains_key(address),
            },
    {
        let found = match address {
            ClientAddr::V4(key) => self.v4.get(&key),
            ClientAddr::V6(key) => self.v6.get(&key),
        };
        match found {
            Some(bucket) => Some(bucket.tokens),
            None => None,
        }
    }

    fn clock(&self) -> u64 {
        let passed = Instant::now().saturating_duration_since(self.origin);
        clock_reading(passed.as_nanos())
    }
}

/// The clock reading for `nanos` nanoseconds since the limiter was made: the
/// count itself, or the largest reading where the count is beyond it.
pub open spec fn reading_of(nanos: u128) -> u64 {
    if nanos > u64::MAX as u128 {
        u64::MAX
    } else {
        nanos as u64
    }
}

/// Turns the nanoseconds that have passed since the limiter was made into a
/// clock reading, which stops at the largest reading.
pub fn clock_reading(nanos: u128) -> (now: u64)
    ensures
        now == reading_of(nanos),
{
    if nanos > u64::MAX as u128 {
        u64::MAX
    } else {
        nanos as u64
    }
}

} // verus!
