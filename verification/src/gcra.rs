//! The generic cell rate algorithm: one scalar of state, the theoretical
//! arrival time (TAT) of the next conforming request.
//!
//! A limiter built for `limit` requests per `period` stores an emission
//! interval of `period / limit` nanoseconds and a delay tolerance of one
//! whole period. A request is admitted exactly when pushing the TAT one
//! emission interval forward would not leave it more than the tolerance
//! ahead of now; that strict test caps a burst at `limit` back-to-back
//! admissions, after which permits return one per emission interval.

use vstd::arithmetic::div_mod::lemma_fundamental_div_mod;
use vstd::arithmetic::div_mod::lemma_multiply_divide_lt;
use vstd::prelude::*;

use crate::clock::clock_new;
use crate::clock::clock_now;
use crate::clock::nanos_since;
use crate::sat_add_u64;
use crate::Reason;
use crate::Strategy;

verus! {

/// Spaces admissions by an emission interval, with a period of tolerance.
#[derive(Debug)]
pub struct Gcra {
    /// Theoretical arrival time of the next conforming request, in
    /// nanoseconds since the anchor. Never decreases.
    pub tat_ns: u64,
    /// Nanoseconds between conforming requests: `period / limit`.
    pub emission_interval_ns: u64,
    /// How far the TAT may lead now: a whole period, so a full burst of
    /// `limit` fits.
    pub delay_tolerance_ns: u64,
    /// The clock this limiter reads.
    pub clock: quanta::Clock,
    /// The instant all times are measured from.
    pub anchor: quanta::Instant,
}

impl Gcra {
    /// The arrival time a decision at `now` works with.
    pub open spec fn arrival_at(&self, now: u64) -> int {
        if now > self.tat_ns {
            now as int
        } else {
            self.tat_ns as int
        }
    }

    /// The TAT that admitting at `now` would store.
    pub open spec fn next_tat_at(&self, now: u64) -> int {
        sat_add_u64(self.arrival_at(now), self.emission_interval_ns as int)
    }

    /// Whether a decision at `now` admits: the strict conformance test.
    pub open spec fn admits_at(&self, now: u64) -> bool {
        self.next_tat_at(now) <= sat_add_u64(now as int, self.delay_tolerance_ns as int)
    }

    /// The retry hint a rejection at `now` carries: how far the would-be
    /// TAT overshoots the tolerance horizon.
    pub open spec fn retry_at(&self, now: u64) -> int {
        self.next_tat_at(now) - sat_add_u64(now as int, self.delay_tolerance_ns as int)
    }

    /// The state a decision at `now` leaves behind.
    pub open spec fn stepped(&self, now: u64) -> Gcra {
        Gcra {
            tat_ns: if self.admits_at(now) {
                self.next_tat_at(now) as u64
            } else {
                self.tat_ns
            },
            ..*self
        }
    }

    /// How many of `n` consecutive decisions, all at the frozen reading
    /// `now`, admit.
    pub open spec fn admit_count(&self, now: u64, n: nat) -> nat
        decreases n,
    {
        if n == 0 {
            0
        } else {
            (if self.admits_at(now) {
                1 as nat
            } else {
                0 as nat
            }) + self.stepped(now).admit_count(now, (n - 1) as nat)
        }
    }

    /// The whole slots free at `now`: the burst budget minus one slot per
    /// started emission interval by which the TAT leads now.
    pub open spec fn slots_at(&self, now: u64) -> int
        recommends
            self.emission_interval_ns >= 1,
    {
        let total = self.delay_tolerance_ns as int / self.emission_interval_ns as int;
        if self.tat_ns <= now {
            total
        } else {
            let used = (self.tat_ns - now + self.emission_interval_ns - 1)
                / self.emission_interval_ns as int;
            if used >= total {
                0
            } else {
                total - used
            }
        }
    }

    /// Builds a limiter for `limit` requests per `period_ns` nanoseconds
    /// over the given clock, anchored at the instant of construction.
    pub fn with_clock(limit: u64, period_ns: u64, clock: quanta::Clock) -> (s: Self)
        requires
            1 <= limit,
            1 <= period_ns,
        ensures
            s.wf(),
            s.tat_ns == 0,
            s.emission_interval_ns == period_ns / limit,
            s.delay_tolerance_ns == period_ns,
    {
        let anchor = clock_now(&clock);
        Gcra {
            tat_ns: 0,
            emission_interval_ns: period_ns / limit,
            delay_tolerance_ns: period_ns,
            clock,
            anchor,
        }
    }

    /// Builds a limiter over a fresh monotonic clock.
    pub fn new(limit: u64, period_ns: u64) -> (s: Self)
        requires
            1 <= limit,
            1 <= period_ns,
        ensures
            s.wf(),
            s.tat_ns == 0,
            s.emission_interval_ns == period_ns / limit,
            s.delay_tolerance_ns == period_ns,
    {
        Self::with_clock(limit, period_ns, clock_new())
    }

    /// One admission decision at the clock reading `now`: admit and push
    /// the TAT one emission interval past `max(now, tat)` if the result
    /// stays within the tolerance horizon, else reject with the overshoot
    /// as the retry hint.
    pub fn process_at(&mut self, now: u64) -> (r: Result<(), Reason>)
        requires
            old(self).wf(),
        ensures
            final(self).wf(),
            *final(self) == old(self).stepped(now),
            final(self).tat_ns >= old(self).tat_ns,
            r is Ok <==> old(self).admits_at(now),
            r is Err ==> (r matches Err(Reason::Overloaded { retry_after_ns })
                && retry_after_ns == old(self).retry_at(now)),
    {
        let tat = self.tat_ns;
        let arrival = if now > tat {
            now
        } else {
            tat
        };
        let next_tat = if arrival > u64::MAX - self.emission_interval_ns {
            u64::MAX
        } else {
            arrival + self.emission_interval_ns
        };
        let horizon = if now > u64::MAX - self.delay_tolerance_ns {
            u64::MAX
        } else {
            now + self.delay_tolerance_ns
        };
        if next_tat > horizon {
            Err(Reason::Overloaded { retry_after_ns: next_tat - horizon })
        } else {
            self.tat_ns = next_tat;
            Ok(())
        }
    }

    /// The whole request slots free at the reading `now`: the full budget
    /// when the TAT does not lead now, else the budget less one per started
    /// emission interval of lead.
    pub fn remaining_capacity_at(&self, now: u64) -> (r: u64)
        requires
            self.wf(),
            self.emission_interval_ns >= 1,
        ensures
            r == self.slots_at(now),
    {
        let total = self.delay_tolerance_ns / self.emission_interval_ns;
        if self.tat_ns <= now {
            total
        } else {
            let diff = self.tat_ns - now;
            let used_wide = (diff as u128 + self.emission_interval_ns as u128 - 1)
                / self.emission_interval_ns as u128;
            if used_wide >= total as u128 {
                0
            } else {
                total - used_wide as u64
            }
        }
    }

    /// How many whole request slots are free at the current clock reading.
    pub fn remaining_capacity(&self) -> (r: u64)
        requires
            self.wf(),
            self.emission_interval_ns >= 1,
        ensures
            exists|now: u64| r == self.slots_at(now),
    {
        let t = clock_now(&self.clock);
        let now = nanos_since(&t, &self.anchor);
        let r = self.remaining_capacity_at(now);
        proof {
            assert(r == self.slots_at(now));
        }
        r
    }
}

/// In a state whose TAT leads `now` by exactly `k` emission intervals,
/// consecutive decisions at the frozen reading `now` admit exactly as long
/// as whole intervals of tolerance remain.
proof fn lemma_paced_admits(s: Gcra, now: u64, n: nat, k: nat)
    requires
        s.wf(),
        s.emission_interval_ns >= 1,
        now + s.delay_tolerance_ns + s.emission_interval_ns <= u64::MAX,
        s.tat_ns == now + k * s.emission_interval_ns,
        k <= s.delay_tolerance_ns as int / s.emission_interval_ns as int,
    ensures
        s.admit_count(now, n) == ({
            let free = s.delay_tolerance_ns as int / s.emission_interval_ns as int - k;
            if n <= free {
                n as int
            } else {
                free
            }
        }),
    decreases n,
{
    let t = s.emission_interval_ns as int;
    let tol = s.delay_tolerance_ns as int;
    let total = tol / t;
    lemma_fundamental_div_mod(tol, t);
    vstd::arithmetic::div_mod::lemma_mod_division_less_than_divisor(tol, t);
    assert((k + 1) * t == k * t + t) by (nonlinear_arith);
    assert(k * t <= total * t && total * t == t * total) by (nonlinear_arith)
        requires
            k <= total,
            t >= 1,
    ;
    if n > 0 {
        if k + 1 <= total {
            assert((k + 1) * t <= total * t) by (nonlinear_arith)
                requires
                    k + 1 <= total,
                    t >= 1,
            ;
            assert(s.admits_at(now));
            lemma_paced_admits(s.stepped(now), now, (n - 1) as nat, k + 1);
        } else {
            assert(!s.admits_at(now));
            lemma_paced_admits(s.stepped(now), now, (n - 1) as nat, k);
        }
    }
}

/// Admission cap, burst then rate: from a state whose TAT does not lead the
/// clock — construction is one — a burst of `n` decisions under a frozen
/// clock admits exactly `min(n, slots)`, where `slots` is the burst budget
/// `tolerance / emission_interval` (the configured limit when the period
/// divides evenly).
pub proof fn lemma_gcra_burst_cap(s: Gcra, now: u64, n: nat)
    requires
        s.wf(),
        s.emission_interval_ns >= 1,
        s.tat_ns <= now,
        now + s.delay_tolerance_ns + s.emission_interval_ns <= u64::MAX,
    ensures
        s.admit_count(now, n) == if n <= s.slots_at(now) {
            n as int
        } else {
            s.slots_at(now)
        },
{
    let t = s.emission_interval_ns as int;
    let tol = s.delay_tolerance_ns as int;
    let total = tol / t;
    lemma_fundamental_div_mod(tol, t);
    vstd::arithmetic::div_mod::lemma_mod_division_less_than_divisor(tol, t);
    vstd::arithmetic::div_mod::lemma_div_pos_is_pos(tol, t);
    assert(t * 0 == 0) by (nonlinear_arith);
    assert(total >= 1);
    if n > 0 {
        assert(s.admits_at(now));
        let s2 = s.stepped(now);
        assert(s2.tat_ns == now + 1 * t) by {
            assert(1 * t == t) by (nonlinear_arith);
        }
        lemma_paced_admits(s2, now, (n - 1) as nat, 1);
    }
}

/// The slot gauge is sound, and exact when the period divides evenly:
/// whenever `slots_at` shows a free slot the next decision admits, and
/// with `tolerance` a whole multiple of the emission interval a decision
/// admits exactly when a slot is free.
pub proof fn lemma_gcra_slots_sound(s: Gcra, now: u64)
    requires
        s.wf(),
        s.emission_interval_ns >= 1,
        now + s.delay_tolerance_ns + s.emission_interval_ns <= u64::MAX,
    ensures
        s.slots_at(now) >= 1 ==> s.admits_at(now),
        s.delay_tolerance_ns as int % s.emission_interval_ns as int == 0 ==> (s.admits_at(now)
            <==> s.slots_at(now) >= 1),
{
    let t = s.emission_interval_ns as int;
    let tol = s.delay_tolerance_ns as int;
    let q = tol / t;
    lemma_fundamental_div_mod(tol, t);
    vstd::arithmetic::div_mod::lemma_mod_division_less_than_divisor(tol, t);
    vstd::arithmetic::div_mod::lemma_div_pos_is_pos(tol, t);
    assert(t * (q + 1) == t * q + t) by (nonlinear_arith);
    assert(t * q <= tol && tol < t * (q + 1));
    if s.tat_ns <= now {
        assert(t * 0 == 0) by (nonlinear_arith);
        assert(q >= 1);
    } else {
        let d = s.tat_ns - now;
        let used = (d + t - 1) / t;
        lemma_fundamental_div_mod(d + t - 1, t);
        vstd::arithmetic::div_mod::lemma_mod_division_less_than_divisor(d + t - 1, t);
        vstd::arithmetic::div_mod::lemma_div_pos_is_pos(d + t - 1, t);
        if used <= q - 1 {
            // A free slot: d + t - 1 < t * used + t <= t * q, so the next
            // TAT stays within the tolerance horizon.
            assert(t * used <= t * (q - 1)) by (nonlinear_arith)
                requires
                    used <= q - 1,
                    t >= 1,
            ;
            assert(d + t - 1 < t * (q - 1) + t) by (nonlinear_arith)
                requires
                    d + t - 1 == t * used + (d + t - 1) % t,
                    (d + t - 1) % t < t,
                    t * used <= t * (q - 1),
            ;
            assert(t * (q - 1) + t == t * q) by (nonlinear_arith);
            assert(d <= t * q - t);
            assert(s.admits_at(now));
        }
        if tol % t == 0 && s.admits_at(now) {
            // Exactness: an admission means d <= tol - t, so fewer than q
            // started intervals are in use and a slot is free.
            assert(tol == t * q);
            assert(d + t - 1 <= t * q - 1);
            lemma_multiply_divide_lt(d + t - 1, t, q);
            assert(used <= q - 1);
        }
    }
}

/// Recovery: once the TAT no longer leads the clock — as after a full
/// period of idleness following exhaustion — the next decision admits.
pub proof fn lemma_gcra_recovery(s: Gcra, now: u64)
    requires
        s.wf(),
        s.tat_ns <= now,
    ensures
        s.admits_at(now),
{
}

impl Strategy for Gcra {
    open spec fn wf(&self) -> bool {
        &&& 1 <= self.delay_tolerance_ns
        &&& self.emission_interval_ns <= self.delay_tolerance_ns
    }

    open spec fn decision_admits(&self, now: u64) -> bool {
        self.admits_at(now)
    }

    open spec fn after_decision(&self, now: u64) -> Self {
        self.stepped(now)
    }

    /// Reads the clock and decides.
    fn process(&mut self) -> (r: Result<(), Reason>) {
        let t = clock_now(&self.clock);
        let now = nanos_since(&t, &self.anchor);
        let r = self.process_at(now);
        proof {
            assert(*self == old(self).after_decision(now));
            assert(r is Ok <==> old(self).decision_admits(now));
        }
        r
    }
}

} // verus!
