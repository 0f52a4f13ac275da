//! A fixed-window limiter: count admissions in a fixed-length bucket and
//! reset at window boundaries.
//!
//! Time is divided into aligned windows of `interval_ns` nanoseconds, each
//! holding a budget of `capacity` permits; when a decision finds the
//! stored window expired, the state rotates to the aligned window containing
//! the current time, so a long idle period re-anchors cleanly instead of
//! drifting. Up to `2 * capacity` admissions may land inside one interval
//! span that straddles a boundary; that burst is by design.

use vstd::arithmetic::div_mod::lemma_fundamental_div_mod;
use vstd::prelude::*;

use crate::clock::clock_new;
use crate::clock::clock_now;
use crate::clock::nanos_since;
use crate::Reason;
use crate::Strategy;

verus! {

/// The end of the aligned window of length `interval` that contains `now`.
pub open spec fn aligned_window_end(now: int, interval: int) -> int
    recommends
        interval > 0,
{
    (now / interval + 1) * interval
}

proof fn lemma_aligned_window_end_bounds(now: int, interval: int)
    requires
        0 <= now,
        0 < interval,
    ensures
        now < aligned_window_end(now, interval) <= now + interval,
        aligned_window_end(now, interval) % interval == 0,
{
    lemma_fundamental_div_mod(now, interval);
    assert((now / interval + 1) * interval == (now / interval) * interval + interval)
        by (nonlinear_arith);
    assert((now / interval) * interval == interval * (now / interval)) by (nonlinear_arith);
    assert(((now / interval + 1) * interval) % interval == 0) by (nonlinear_arith)
        requires
            interval > 0,
    ;
}

/// Counts admissions in the aligned window that contains the current time.
#[derive(Debug)]
pub struct FixedWindow {
    /// Permits per window; at least one.
    pub capacity: u64,
    /// Permits still available in the window that `expires_ns` closes.
    pub remaining: u64,
    /// Window length in nanoseconds; at least one.
    pub interval_ns: u64,
    /// End of the current window, in nanoseconds since the anchor.
    pub expires_ns: u64,
    /// The clock this limiter reads.
    pub clock: quanta::Clock,
    /// The instant all times are measured from.
    pub anchor: quanta::Instant,
}

impl FixedWindow {
    /// Whether a decision at `now` first rotates to a fresh window.
    pub open spec fn rotates_at(&self, now: u64) -> bool {
        now > self.expires_ns
    }

    /// The window end a decision at `now` works against.
    pub open spec fn window_end_at(&self, now: u64) -> int {
        if self.rotates_at(now) {
            aligned_window_end(now as int, self.interval_ns as int)
        } else {
            self.expires_ns as int
        }
    }

    /// The permits available to a decision at `now`, after any rotation.
    pub open spec fn budget_at(&self, now: u64) -> int {
        if self.rotates_at(now) {
            self.capacity as int
        } else {
            self.remaining as int
        }
    }

    /// Whether a decision at `now` admits.
    pub open spec fn admits_at(&self, now: u64) -> bool {
        self.budget_at(now) > 0
    }

    /// The state a decision at `now` leaves behind.
    pub open spec fn stepped(&self, now: u64) -> FixedWindow {
        FixedWindow {
            remaining: (if self.admits_at(now) {
                self.budget_at(now) - 1
            } else {
                self.budget_at(now)
            }) as u64,
            expires_ns: self.window_end_at(now) as u64,
            ..*self
        }
    }

    /// How many of `n` consecutive decisions, all at the frozen reading
    /// `now`, admit.
    pub open spec fn admit_count(&self, now: u64, n: nat) -> nat
        decreases n,
    {
        if n == 0 {
            0
        } else {
            (if self.admits_at(now) {
                1 as nat
            } else {
                0 as nat
            }) + self.stepped(now).admit_count(now, (n - 1) as nat)
        }
    }

    /// The state after `n` consecutive decisions at the frozen reading
    /// `now`.
    pub open spec fn after_burst(&self, now: u64, n: nat) -> FixedWindow
        decreases n,
    {
        if n == 0 {
            *self
        } else {
            self.stepped(now).after_burst(now, (n - 1) as nat)
        }
    }

    /// Builds a limiter over the given clock, anchored at the instant of
    /// construction, with a full first window `[0, interval_ns)`.
    pub fn with_clock(capacity: u64, interval_ns: u64, clock: quanta::Clock) -> (s: Self)
        requires
            1 <= capacity,
            1 <= interval_ns,
        ensures
            s.wf(),
            s.capacity == capacity,
            s.interval_ns == interval_ns,
            s.remaining == capacity,
            s.expires_ns == interval_ns,
    {
        proof {
            vstd::arithmetic::div_mod::lemma_mod_self_0(interval_ns as int);
        }
        let anchor = clock_now(&clock);
        FixedWindow {
            capacity,
            remaining: capacity,
            interval_ns,
            expires_ns: interval_ns,
            clock,
            anchor,
        }
    }

    /// Builds a limiter over a fresh monotonic clock.
    pub fn new(capacity: u64, interval_ns: u64) -> (s: Self)
        requires
            1 <= capacity,
            1 <= interval_ns,
        ensures
            s.wf(),
            s.capacity == capacity,
            s.interval_ns == interval_ns,
            s.remaining == capacity,
            s.expires_ns == interval_ns,
    {
        Self::with_clock(capacity, interval_ns, clock_new())
    }

    /// One admission decision at the clock reading `now` (nanoseconds since
    /// the anchor): rotate to the aligned current window if the stored one
    /// has expired, then take one permit if any is available, else reject
    /// with the time left until the window closes.
    pub fn process_at(&mut self, now: u64) -> (r: Result<(), Reason>)
        requires
            old(self).wf(),
            now + old(self).interval_ns <= u64::MAX,
        ensures
            final(self).wf(),
            *final(self) == old(self).stepped(now),
            final(self).expires_ns == old(self).window_end_at(now),
            r is Ok <==> old(self).admits_at(now),
            r is Ok ==> final(self).remaining == old(self).budget_at(now) - 1,
            r is Err ==> final(self).remaining == old(self).budget_at(now),
            r is Err ==> (r matches Err(Reason::Overloaded { retry_after_ns })
                && retry_after_ns == old(self).expires_ns - now),
    {
        let mut expires = self.expires_ns;
        if now > expires {
            let window_count = now / self.interval_ns;
            proof {
                lemma_aligned_window_end_bounds(now as int, self.interval_ns as int);
                assert((window_count + 1) * self.interval_ns
                    == aligned_window_end(now as int, self.interval_ns as int));
            }
            let next_expires = (window_count + 1) * self.interval_ns;
            self.expires_ns = next_expires;
            self.remaining = self.capacity;
            expires = next_expires;
        }
        if self.remaining > 0 {
            self.remaining = self.remaining - 1;
            Ok(())
        } else {
            Err(Reason::Overloaded { retry_after_ns: expires - now })
        }
    }
}

/// In a window that is not yet over, consecutive decisions at a frozen
/// reading admit exactly as long as permits remain, and only the permit
/// count changes.
proof fn lemma_admit_count_within_window(s: FixedWindow, now: u64, n: nat)
    requires
        s.wf(),
        now <= s.expires_ns,
    ensures
        s.admit_count(now, n) == if n <= s.remaining {
            n as int
        } else {
            s.remaining as int
        },
        s.after_burst(now, n) == (FixedWindow {
            remaining: (if n <= s.remaining {
                s.remaining - n
            } else {
                0
            }) as u64,
            ..s
        }),
    decreases n,
{
    if n > 0 {
        let s2 = s.stepped(now);
        assert(s2.expires_ns == s.expires_ns);
        lemma_admit_count_within_window(s2, now, (n - 1) as nat);
    } else {
        assert(s.after_burst(now, n) == (FixedWindow {
            remaining: s.remaining,
            ..s
        }));
    }
}

/// Admission cap: starting from construction — a full budget — a burst of
/// `n` sequential decisions under a frozen clock admits exactly
/// `min(n, capacity)` requests: exactly `capacity` once `n` reaches it,
/// however much larger `n` grows.
pub proof fn lemma_fixed_window_admission_cap(s: FixedWindow, now: u64, n: nat)
    requires
        s.wf(),
        s.remaining == s.capacity,
        now + s.interval_ns <= u64::MAX,
    ensures
        s.admit_count(now, n) == if n <= s.capacity {
            n as int
        } else {
            s.capacity as int
        },
{
    if now <= s.expires_ns {
        lemma_admit_count_within_window(s, now, n);
    } else {
        lemma_aligned_window_end_bounds(now as int, s.interval_ns as int);
        if n > 0 {
            let s2 = s.stepped(now);
            assert(now <= s2.expires_ns);
            lemma_admit_count_within_window(s2, now, (n - 1) as nat);
        }
    }
}

/// A burst that begins past the stored window end first rotates, then
/// draws on a full budget: exactly `min(n, capacity)` of its `n` decisions
/// admit, whatever was left in the old window, and the state it leaves is
/// the fresh aligned window less what the burst took.
proof fn lemma_burst_from_rotation(s: FixedWindow, now: u64, n: nat)
    requires
        s.wf(),
        now > s.expires_ns,
        now + s.interval_ns <= u64::MAX,
        n >= 1,
    ensures
        s.admit_count(now, n) == if n <= s.capacity {
            n as int
        } else {
            s.capacity as int
        },
        s.after_burst(now, n) == (FixedWindow {
            remaining: (if n <= s.capacity {
                s.capacity - n
            } else {
                0
            }) as u64,
            expires_ns: aligned_window_end(now as int, s.interval_ns as int) as u64,
            ..s
        }),
        s.after_burst(now, n).wf(),
        s.after_burst(now, n).expires_ns > now,
{
    lemma_aligned_window_end_bounds(now as int, s.interval_ns as int);
    let s2 = s.stepped(now);
    assert(now <= s2.expires_ns);
    lemma_admit_count_within_window(s2, now, (n - 1) as nat);
}

/// One sustained round of offered load: at each reading, which lies past
/// the window the previous round left behind, at least `capacity` calls
/// arrive.
pub open spec fn sustained_load(s: FixedWindow, bursts: Seq<(u64, nat)>) -> bool
    decreases bursts.len(),
{
    bursts.len() == 0 || {
        let (now, n) = bursts.first();
        &&& now > s.expires_ns
        &&& now + s.interval_ns <= u64::MAX
        &&& n >= s.capacity
        &&& sustained_load(s.after_burst(now, n), bursts.drop_first())
    }
}

/// The admissions over a sequence of bursts, each at its own frozen
/// reading.
pub open spec fn multi_burst_admits(s: FixedWindow, bursts: Seq<(u64, nat)>) -> nat
    decreases bursts.len(),
{
    if bursts.len() == 0 {
        0
    } else {
        let (now, n) = bursts.first();
        s.admit_count(now, n) + multi_burst_admits(s.after_burst(now, n), bursts.drop_first())
    }
}

/// Throughput under sustained offered load: when every window's burst
/// offers at least `capacity` calls and each burst lands past the window
/// the one before it filled, every window yields exactly `capacity`
/// admissions — over `k` windows, `k * capacity` successes.
pub proof fn lemma_fixed_window_sustained_throughput(s: FixedWindow, bursts: Seq<(u64, nat)>)
    requires
        s.wf(),
        sustained_load(s, bursts),
    ensures
        multi_burst_admits(s, bursts) == bursts.len() * s.capacity,
    decreases bursts.len(),
{
    if bursts.len() == 0 {
        assert(0 * s.capacity == 0) by (nonlinear_arith);
    } else {
        let (now, n) = bursts.first();
        lemma_burst_from_rotation(s, now, n);
        let s2 = s.after_burst(now, n);
        lemma_fixed_window_sustained_throughput(s2, bursts.drop_first());
        assert(bursts.len() * s.capacity == s.capacity + (bursts.len() - 1) * s.capacity)
            by (nonlinear_arith)
            requires
                bursts.len() >= 1,
        ;
    }
}

/// Recovery and idle re-anchoring: once the clock is past the stored window
/// end — whether by one period or after an arbitrarily long idle stretch —
/// the next decision admits, and it leaves a window boundary strictly in
/// the future (no drift into the past).
pub proof fn lemma_fixed_window_recovery(s: FixedWindow, now: u64)
    requires
        s.wf(),
        now + s.interval_ns <= u64::MAX,
        now > s.expires_ns,
    ensures
        s.admits_at(now),
        now < s.stepped(now).expires_ns <= now + s.interval_ns,
{
    lemma_aligned_window_end_bounds(now as int, s.interval_ns as int);
}

impl Strategy for FixedWindow {
    open spec fn wf(&self) -> bool {
        &&& 1 <= self.capacity
        &&& 1 <= self.interval_ns
        &&& self.remaining <= self.capacity
        &&& self.interval_ns <= self.expires_ns
        &&& self.expires_ns % self.interval_ns == 0
    }

    open spec fn decision_admits(&self, now: u64) -> bool {
        self.admits_at(now)
    }

    open spec fn after_decision(&self, now: u64) -> Self {
        self.stepped(now)
    }

    /// Reads the clock and decides. Readings so late that window arithmetic
    /// would leave `u64` (about 584 years past the anchor) are clamped.
    fn process(&mut self) -> (r: Result<(), Reason>) {
        let t = clock_now(&self.clock);
        let raw = nanos_since(&t, &self.anchor);
        let now = if raw > u64::MAX - self.interval_ns {
            u64::MAX - self.interval_ns
        } else {
            raw
        };
        let r = self.process_at(now);
        proof {
            assert(*self == old(self).after_decision(now));
            assert(r is Ok <==> old(self).decision_admits(now));
        }
        r
    }
}

} // verus!
