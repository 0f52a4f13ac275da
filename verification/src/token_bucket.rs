//! A token bucket refilled lazily by elapsed time, in fixed-point units.
//!
//! One whole token costs `UNIT_SCALE` units, so a refill rate of
//! `increment` tokens per `period_ns` nanoseconds is credited exactly as
//! `elapsed * increment_units / period_ns` without floating point: the
//! fractional remainder of one decision's refill carries forward to the
//! next. A request consumes exactly one whole token; the bucket starts
//! full, allowing a burst of `capacity` before the steady rate takes over.

use vstd::arithmetic::div_mod::lemma_div_is_ordered;
use vstd::arithmetic::div_mod::lemma_div_multiples_vanish;
use vstd::arithmetic::div_mod::lemma_div_pos_is_pos;
use vstd::arithmetic::div_mod::lemma_fundamental_div_mod;
use vstd::prelude::*;

use crate::clock::clock_new;
use crate::clock::clock_now;
use crate::clock::nanos_since;
use crate::Reason;
use crate::Strategy;

verus! {

/// Units per whole token.
pub const UNIT_SCALE: u64 = 1_000_000_000;

/// A bucket of fractional token units, refilled by elapsed time.
#[derive(Debug)]
pub struct TokenBucket {
    /// Bucket size in units: `capacity * UNIT_SCALE`.
    pub capacity_units: u64,
    /// Units credited per `period_ns`: `increment * UNIT_SCALE`.
    pub increment_units: u64,
    /// The refill period in nanoseconds.
    pub period_ns: u64,
    /// Units in the bucket, never above `capacity_units`.
    pub units: u64,
    /// The reading through which refill has already been credited.
    pub last_update_ns: u64,
    /// The clock this limiter reads.
    pub clock: quanta::Clock,
    /// The instant all times are measured from.
    pub anchor: quanta::Instant,
}

impl TokenBucket {
    /// Nanoseconds of refill a decision at `now` credits.
    pub open spec fn elapsed_at(&self, now: u64) -> int {
        if now > self.last_update_ns {
            now - self.last_update_ns
        } else {
            0
        }
    }

    /// Units added by the refill a decision at `now` performs.
    pub open spec fn refill_at(&self, now: u64) -> int {
        self.elapsed_at(now) * self.increment_units / self.period_ns as int
    }

    /// The bucket contents a decision at `now` works with, capped at the
    /// bucket size.
    pub open spec fn units_at(&self, now: u64) -> int {
        if self.units + self.refill_at(now) >= self.capacity_units {
            self.capacity_units as int
        } else {
            self.units + self.refill_at(now)
        }
    }

    /// Whether a decision at `now` admits: one whole token is available.
    pub open spec fn admits_at(&self, now: u64) -> bool {
        self.units_at(now) >= UNIT_SCALE
    }

    /// The retry hint a rejection at `now` carries: the time to refill the
    /// missing units, rounded up, saturated at `u64::MAX`.
    pub open spec fn retry_at(&self, now: u64) -> int {
        let w = ((UNIT_SCALE - self.units_at(now)) * self.period_ns + self.increment_units - 1)
            / self.increment_units as int;
        if w > u64::MAX {
            u64::MAX as int
        } else {
            w
        }
    }

    /// The state a decision at `now` leaves behind: an admission credits
    /// the refill, takes one token and marks the time; a rejection is a
    /// pure read.
    pub open spec fn stepped(&self, now: u64) -> TokenBucket {
        if self.admits_at(now) {
            TokenBucket {
                units: (self.units_at(now) - UNIT_SCALE) as u64,
                last_update_ns: now,
                ..*self
            }
        } else {
            *self
        }
    }

    /// How many of `n` consecutive decisions, all at the frozen reading
    /// `now`, admit.
    pub open spec fn admit_count(&self, now: u64, n: nat) -> nat
        decreases n,
    {
        if n == 0 {
            0
        } else {
            (if self.admits_at(now) {
                1 as nat
            } else {
                0 as nat
            }) + self.stepped(now).admit_count(now, (n - 1) as nat)
        }
    }

    /// Builds a bucket holding `capacity` tokens, refilled at `increment`
    /// tokens per `period_ns` nanoseconds, over the given clock. The bucket
    /// starts full.
    pub fn with_clock(capacity: u64, increment: u64, period_ns: u64, clock: quanta::Clock) -> (s:
        Self)
        requires
            1 <= capacity,
            capacity * UNIT_SCALE <= u64::MAX,
            1 <= increment,
            increment * UNIT_SCALE <= u64::MAX,
            1 <= period_ns,
        ensures
            s.wf(),
            s.capacity_units == capacity * UNIT_SCALE,
            s.increment_units == increment * UNIT_SCALE,
            s.period_ns == period_ns,
            s.units == s.capacity_units,
            s.last_update_ns == 0,
    {
        let anchor = clock_now(&clock);
        proof {
            assert(capacity * UNIT_SCALE >= 1 * UNIT_SCALE && increment * UNIT_SCALE >= 1
                * UNIT_SCALE) by (nonlinear_arith)
                requires
                    capacity >= 1,
                    increment >= 1,
            ;
            vstd::arithmetic::div_mod::lemma_mod_multiples_basic(
                capacity as int,
                UNIT_SCALE as int,
            );
        }
        TokenBucket {
            capacity_units: capacity * UNIT_SCALE,
            increment_units: increment * UNIT_SCALE,
            period_ns,
            units: capacity * UNIT_SCALE,
            last_update_ns: 0,
            clock,
            anchor,
        }
    }

    /// Builds a bucket over a fresh monotonic clock.
    pub fn new(capacity: u64, increment: u64, period_ns: u64) -> (s: Self)
        requires
            1 <= capacity,
            capacity * UNIT_SCALE <= u64::MAX,
            1 <= increment,
            increment * UNIT_SCALE <= u64::MAX,
            1 <= period_ns,
        ensures
            s.wf(),
            s.capacity_units == capacity * UNIT_SCALE,
            s.increment_units == increment * UNIT_SCALE,
            s.period_ns == period_ns,
            s.units == s.capacity_units,
            s.last_update_ns == 0,
    {
        Self::with_clock(capacity, increment, period_ns, clock_new())
    }

    /// One admission decision at the clock reading `now`: credit the lazy
    /// refill, then either take one whole token and mark the time, or
    /// reject with the time until a whole token will be there.
    pub fn process_at(&mut self, now: u64) -> (r: Result<(), Reason>)
        requires
            old(self).wf(),
        ensures
            final(self).wf(),
            *final(self) == old(self).stepped(now),
            r is Ok <==> old(self).admits_at(now),
            r is Err ==> (r matches Err(Reason::Overloaded { retry_after_ns })
                && retry_after_ns == old(self).retry_at(now)),
    {
        let last = self.last_update_ns;
        let elapsed = if now > last {
            now - last
        } else {
            0
        };
        proof {
            assert(elapsed * self.increment_units <= u64::MAX * u64::MAX) by (nonlinear_arith)
                requires
                    elapsed <= u64::MAX,
                    self.increment_units <= u64::MAX,
            ;
        }
        let refill_wide = elapsed as u128 * self.increment_units as u128
            / self.period_ns as u128;
        let new_wide = self.units as u128 + refill_wide;
        let new_units = if new_wide >= self.capacity_units as u128 {
            self.capacity_units
        } else {
            new_wide as u64
        };
        if new_units < UNIT_SCALE {
            let missing = UNIT_SCALE - new_units;
            proof {
                assert(missing * self.period_ns <= u64::MAX * u64::MAX) by (nonlinear_arith)
                    requires
                        missing <= u64::MAX,
                        self.period_ns <= u64::MAX,
                ;
            }
            let num = missing as u128 * self.period_ns as u128;
            let wait_wide = (num + self.increment_units as u128 - 1)
                / self.increment_units as u128;
            let wait = if wait_wide > u64::MAX as u128 {
                u64::MAX
            } else {
                wait_wide as u64
            };
            Err(Reason::Overloaded { retry_after_ns: wait })
        } else {
            self.last_update_ns = now;
            self.units = new_units - UNIT_SCALE;
            Ok(())
        }
    }
}

/// With refill already credited through `now` and exactly `k` whole tokens
/// in the bucket, consecutive decisions at the frozen reading `now` admit
/// exactly as long as tokens remain.
proof fn lemma_whole_tokens_admits(s: TokenBucket, now: u64, n: nat, k: nat)
    requires
        s.wf(),
        s.last_update_ns == now,
        s.units == k * UNIT_SCALE,
    ensures
        s.admit_count(now, n) == if n <= k {
            n as int
        } else {
            k as int
        },
    decreases n,
{
    let scale = UNIT_SCALE as int;
    assert(s.elapsed_at(now) == 0);
    vstd::arithmetic::div_mod::lemma_div_of0(s.period_ns as int);
    assert(0 * s.increment_units == 0) by (nonlinear_arith);
    assert(s.refill_at(now) == 0);
    if n > 0 {
        if k >= 1 {
            assert(k * scale >= 1 * scale) by (nonlinear_arith)
                requires
                    k >= 1,
                    scale >= 1,
            ;
            assert(s.admits_at(now));
            let s2 = s.stepped(now);
            assert(k * scale - scale == (k - 1) * scale) by (nonlinear_arith);
            lemma_whole_tokens_admits(s2, now, (n - 1) as nat, (k - 1) as nat);
        } else {
            assert(!s.admits_at(now));
            lemma_whole_tokens_admits(s.stepped(now), now, (n - 1) as nat, k);
        }
    }
}

/// Admission cap: starting from construction — a full bucket — a burst of
/// `n` sequential decisions under a frozen clock admits exactly
/// `min(n, capacity)` requests, the first of them crediting at most a full
/// bucket of refill and every later one finding nothing more to credit.
pub proof fn lemma_token_bucket_burst_cap(s: TokenBucket, now: u64, n: nat)
    requires
        s.wf(),
        s.units == s.capacity_units,
    ensures
        s.admit_count(now, n) == ({
            let capacity = s.capacity_units as int / UNIT_SCALE as int;
            if n <= capacity {
                n as int
            } else {
                capacity
            }
        }),
{
    let scale = UNIT_SCALE as int;
    let capacity = s.capacity_units as int / scale;
    lemma_fundamental_div_mod(s.capacity_units as int, scale);
    assert(s.capacity_units == scale * capacity);
    assert(capacity >= 1) by (nonlinear_arith)
        requires
            s.capacity_units == scale * capacity,
            s.capacity_units >= scale,
            scale >= 1,
    ;
    if n > 0 {
        assert(s.elapsed_at(now) >= 0);
        assert(s.elapsed_at(now) * s.increment_units >= 0) by (nonlinear_arith)
            requires
                s.elapsed_at(now) >= 0,
                s.increment_units >= 0,
        ;
        lemma_div_pos_is_pos(s.elapsed_at(now) * s.increment_units, s.period_ns as int);
        assert(s.units_at(now) == s.capacity_units);
        assert(s.admits_at(now));
        let s2 = s.stepped(now);
        assert(s2.units == scale * capacity - scale);
        assert(scale * capacity - scale == (capacity - 1) * scale) by (nonlinear_arith);
        lemma_whole_tokens_admits(s2, now, (n - 1) as nat, (capacity - 1) as nat);
    }
}

/// Recovery: a full period after the last credited reading, at least one
/// whole increment — one whole token and more — has refilled, so the next
/// decision admits.
pub proof fn lemma_token_bucket_recovery(s: TokenBucket, now: u64)
    requires
        s.wf(),
        now >= s.last_update_ns + s.period_ns,
    ensures
        s.admits_at(now),
{
    let e = s.elapsed_at(now);
    let inc = s.increment_units as int;
    let p = s.period_ns as int;
    assert(e >= p);
    assert(e * inc >= p * inc) by (nonlinear_arith)
        requires
            e >= p,
            inc >= 0,
    ;
    lemma_div_is_ordered(p * inc, e * inc, p);
    lemma_div_multiples_vanish(inc, p);
    assert(p * inc / p == inc);
    assert(s.refill_at(now) >= inc);
}

impl Strategy for TokenBucket {
    open spec fn wf(&self) -> bool {
        &&& UNIT_SCALE <= self.capacity_units
        &&& self.capacity_units % UNIT_SCALE == 0
        &&& UNIT_SCALE <= self.increment_units
        &&& 1 <= self.period_ns
        &&& self.units <= self.capacity_units
    }

    open spec fn decision_admits(&self, now: u64) -> bool {
        self.admits_at(now)
    }

    open spec fn after_decision(&self, now: u64) -> Self {
        self.stepped(now)
    }

    /// Reads the clock and decides.
    fn process(&mut self) -> (r: Result<(), Reason>) {
        let t = clock_now(&self.clock);
        let now = nanos_since(&t, &self.anchor);
        let r = self.process_at(now);
        proof {
            assert(*self == old(self).after_decision(now));
            assert(r is Ok <==> old(self).decision_admits(now));
        }
        r
    }
}

} // verus!
