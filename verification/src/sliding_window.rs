//! A sliding window counter: the admission estimate blends the previous
//! fixed window's count into the current one.
//!
//! Time is divided into aligned windows of `period_ns` nanoseconds, each
//! with a request count. A decision weighs the previous window's count by
//! the fraction of it still "in view" — `(period - elapsed) / period`,
//! computed in integer arithmetic with the floor taken once — adds the
//! current count, and admits exactly when that estimate stays strictly
//! under the capacity. Rotation is aligned to the clock, so a long idle
//! stretch re-anchors the window to the present instead of drifting.

use vstd::arithmetic::div_mod::lemma_div_is_ordered;
use vstd::arithmetic::div_mod::lemma_div_multiples_vanish;
use vstd::arithmetic::div_mod::lemma_div_pos_is_pos;
use vstd::arithmetic::div_mod::lemma_fundamental_div_mod;
use vstd::arithmetic::div_mod::lemma_mod_division_less_than_divisor;
use vstd::arithmetic::div_mod::lemma_mod_multiples_basic;
use vstd::arithmetic::div_mod::lemma_multiply_divide_lt;
use vstd::prelude::*;

use crate::clock::clock_new;
use crate::clock::clock_now;
use crate::clock::nanos_since;
use crate::Reason;
use crate::Strategy;

verus! {

/// The buffer added to a weighted retry hint so that a caller sleeping the
/// hint does not wake on the exact instant of a tie: one millisecond.
pub const RETRY_BUFFER_NS: u64 = 1_000_000;

/// Blends the previous window's count into the current window's budget.
#[derive(Debug)]
pub struct SlidingWindow {
    /// Admissions allowed per period; at least one.
    pub capacity: u64,
    /// Window length in nanoseconds; at least one.
    pub period_ns: u64,
    /// Admissions counted in the current window.
    pub current_count: u64,
    /// Admissions counted in the window before it.
    pub previous_count: u64,
    /// Start of the current window, in nanoseconds since the anchor;
    /// always a multiple of the period.
    pub window_start_ns: u64,
    /// The clock this limiter reads.
    pub clock: quanta::Clock,
    /// The instant all times are measured from.
    pub anchor: quanta::Instant,
}

/// Facts about the aligned window start `(now / p) * p`.
proof fn lemma_aligned_start(now: int, p: int)
    requires
        0 <= now,
        0 < p,
    ensures
        0 <= (now / p) * p <= now,
        now - (now / p) * p < p,
        ((now / p) * p) % p == 0,
{
    lemma_fundamental_div_mod(now, p);
    lemma_mod_division_less_than_divisor(now, p);
    assert((now / p) * p == p * (now / p)) by (nonlinear_arith);
    lemma_mod_multiples_basic(now / p, p);
}

impl SlidingWindow {
    /// Whether a decision at `now` first rotates to a fresh window.
    pub open spec fn rotates_at(&self, now: u64) -> bool {
        now >= self.window_start_ns + self.period_ns
    }

    /// The window start a decision at `now` works against.
    pub open spec fn start_at(&self, now: u64) -> int {
        if self.rotates_at(now) {
            (now as int / self.period_ns as int) * self.period_ns as int
        } else {
            self.window_start_ns as int
        }
    }

    /// The previous window's count after any rotation: the old current
    /// count when exactly one interval elapsed, zero when two or more did.
    pub open spec fn prev_at(&self, now: u64) -> int {
        if !self.rotates_at(now) {
            self.previous_count as int
        } else if now - self.window_start_ns >= 2 * self.period_ns {
            0
        } else {
            self.current_count as int
        }
    }

    /// The current window's count after any rotation.
    pub open spec fn cur_at(&self, now: u64) -> int {
        if self.rotates_at(now) {
            0
        } else {
            self.current_count as int
        }
    }

    /// How far `now` lies into the window a decision works against.
    pub open spec fn elapsed_at(&self, now: u64) -> int {
        if now > self.start_at(now) {
            now - self.start_at(now)
        } else {
            0
        }
    }

    /// The previous window's weighted contribution: its count scaled by
    /// the fraction of the period still in view, floored.
    pub open spec fn weighted_at(&self, now: u64) -> int {
        self.prev_at(now) * (self.period_ns - self.elapsed_at(now)) / self.period_ns as int
    }

    /// The admission estimate a decision at `now` tests.
    pub open spec fn estimate_at(&self, now: u64) -> int {
        self.weighted_at(now) + self.cur_at(now)
    }

    /// Whether a decision at `now` admits: the estimate stays strictly
    /// under the capacity.
    pub open spec fn admits_at(&self, now: u64) -> bool {
        self.estimate_at(now) < self.capacity
    }

    /// The retry hint a rejection at `now` carries. With no previous-window
    /// contribution the estimate can only fall when the current window
    /// ends; otherwise the weighted excess decays at `previous / period`
    /// per nanosecond, and a millisecond of buffer avoids waking on a tie.
    pub open spec fn retry_at(&self, now: u64) -> int {
        if self.prev_at(now) == 0 {
            self.start_at(now) + self.period_ns - now
        } else {
            let w = (self.estimate_at(now) - self.capacity) * self.period_ns / self.prev_at(now)
                + RETRY_BUFFER_NS;
            if w > u64::MAX {
                u64::MAX as int
            } else {
                w
            }
        }
    }

    /// The state a decision at `now` leaves behind.
    pub open spec fn stepped(&self, now: u64) -> SlidingWindow {
        SlidingWindow {
            window_start_ns: self.start_at(now) as u64,
            previous_count: self.prev_at(now) as u64,
            current_count: if self.admits_at(now) {
                (self.cur_at(now) + 1) as u64
            } else {
                self.cur_at(now) as u64
            },
            ..*self
        }
    }

    /// How many of `n` consecutive decisions, all at the frozen reading
    /// `now`, admit.
    pub open spec fn admit_count(&self, now: u64, n: nat) -> nat
        decreases n,
    {
        if n == 0 {
            0
        } else {
            (if self.admits_at(now) {
                1 as nat
            } else {
                0 as nat
            }) + self.stepped(now).admit_count(now, (n - 1) as nat)
        }
    }

    /// Builds a limiter over the given clock, anchored at the instant of
    /// construction, with both counts empty and the first window starting
    /// at the anchor.
    pub fn with_clock(capacity: u64, period_ns: u64, clock: quanta::Clock) -> (s: Self)
        requires
            1 <= capacity,
            1 <= period_ns,
        ensures
            s.wf(),
            s.capacity == capacity,
            s.period_ns == period_ns,
            s.current_count == 0,
            s.previous_count == 0,
            s.window_start_ns == 0,
    {
        proof {
            vstd::arithmetic::div_mod::lemma_mod_self_0(period_ns as int);
            assert(0int % period_ns as int == 0) by {
                vstd::arithmetic::div_mod::lemma_small_mod(0, period_ns as nat);
            }
        }
        let anchor = clock_now(&clock);
        SlidingWindow {
            capacity,
            period_ns,
            current_count: 0,
            previous_count: 0,
            window_start_ns: 0,
            clock,
            anchor,
        }
    }

    /// Builds a limiter over a fresh monotonic clock.
    pub fn new(capacity: u64, period_ns: u64) -> (s: Self)
        requires
            1 <= capacity,
            1 <= period_ns,
        ensures
            s.wf(),
            s.capacity == capacity,
            s.period_ns == period_ns,
            s.current_count == 0,
            s.previous_count == 0,
            s.window_start_ns == 0,
    {
        Self::with_clock(capacity, period_ns, clock_new())
    }

    /// One admission decision at the clock reading `now`: rotate to the
    /// aligned window containing `now` if the stored one is over, weigh
    /// the previous count by the unexpired share of the period, and admit
    /// exactly when the weighted estimate is strictly under capacity.
    pub fn process_at(&mut self, now: u64) -> (r: Result<(), Reason>)
        requires
            old(self).wf(),
            now + old(self).period_ns <= u64::MAX,
        ensures
            final(self).wf(),
            *final(self) == old(self).stepped(now),
            r is Ok <==> old(self).admits_at(now),
            r is Err ==> (r matches Err(Reason::Overloaded { retry_after_ns })
                && retry_after_ns == old(self).retry_at(now)),
    {
        if now >= self.window_start_ns + self.period_ns {
            proof {
                lemma_aligned_start(now as int, self.period_ns as int);
            }
            let new_start = (now / self.period_ns) * self.period_ns;
            let prev = if (now - self.window_start_ns) - self.period_ns >= self.period_ns {
                0
            } else {
                self.current_count
            };
            self.previous_count = prev;
            self.current_count = 0;
            self.window_start_ns = new_start;
        }
        let start = self.window_start_ns;
        let elapsed = if now > start {
            now - start
        } else {
            0
        };
        proof {
            assert(elapsed < self.period_ns);
            assert(self.previous_count * (self.period_ns - elapsed) <= u64::MAX * u64::MAX)
                by (nonlinear_arith)
                requires
                    self.previous_count <= u64::MAX,
                    0 <= self.period_ns - elapsed <= u64::MAX,
            ;
        }
        let weighted_wide = self.previous_count as u128 * (self.period_ns - elapsed) as u128
            / self.period_ns as u128;
        let est = weighted_wide + self.current_count as u128;
        if est < self.capacity as u128 {
            proof {
                let p = self.period_ns as int;
                let rem = p - elapsed;
                lemma_div_pos_is_pos(self.previous_count * rem, p);
            }
            self.current_count = self.current_count + 1;
            Ok(())
        } else {
            let prev = self.previous_count;
            if prev == 0 {
                proof {
                    assert(0int * (self.period_ns - elapsed) == 0) by (nonlinear_arith);
                    vstd::arithmetic::div_mod::lemma_div_of0(self.period_ns as int);
                }
                Err(Reason::Overloaded { retry_after_ns: (start + self.period_ns) - now })
            } else {
                proof {
                    let p = self.period_ns as int;
                    let rem = p - elapsed;
                    assert(prev * rem <= prev * p) by (nonlinear_arith)
                        requires
                            0 <= rem <= p,
                            0 <= prev,
                    ;
                    lemma_div_is_ordered(prev * rem, prev * p, p);
                    assert(prev * p == p * prev) by (nonlinear_arith);
                    lemma_div_multiples_vanish(prev as int, p);
                    assert((prev * p) / p == prev as int);
                }
                let excess = est - self.capacity as u128;
                proof {
                    assert(excess <= prev);
                    assert(excess * self.period_ns <= u64::MAX * u64::MAX) by (nonlinear_arith)
                        requires
                            0 <= excess <= u64::MAX,
                            self.period_ns <= u64::MAX,
                    ;
                }
                let num = excess * self.period_ns as u128;
                proof {
                    vstd::arithmetic::div_mod::lemma_div_nonincreasing(num as int, prev as int);
                }
                let w = num / prev as u128 + RETRY_BUFFER_NS as u128;
                let wait = if w > u64::MAX as u128 {
                    u64::MAX
                } else {
                    w as u64
                };
                Err(Reason::Overloaded { retry_after_ns: wait })
            }
        }
    }
}

/// Weighted admission cap, the anti-double-burst rule: inside a window
/// that needs no rotation, a burst of `n` decisions under a frozen clock
/// admits exactly the room the weighted estimate leaves — never a full
/// fresh burst while the previous window still weighs in.
pub proof fn lemma_sliding_window_weighted_cap(s: SlidingWindow, now: u64, n: nat)
    requires
        s.wf(),
        !s.rotates_at(now),
    ensures
        s.admit_count(now, n) == ({
            let room = s.capacity - s.estimate_at(now);
            if room <= 0 {
                0
            } else if n <= room {
                n as int
            } else {
                room
            }
        }),
    decreases n,
{
    let p = s.period_ns as int;
    let rem = p - s.elapsed_at(now);
    assert(s.prev_at(now) * rem >= 0) by (nonlinear_arith)
        requires
            s.prev_at(now) >= 0,
            rem >= 0,
    ;
    lemma_div_pos_is_pos(s.prev_at(now) * rem, p);
    if n > 0 {
        let s2 = s.stepped(now);
        assert(s2.window_start_ns == s.window_start_ns);
        lemma_sliding_window_weighted_cap(s2, now, (n - 1) as nat);
    }
}

/// Admission cap: starting from construction — both counts empty — a burst
/// of `n` sequential decisions under a frozen clock admits exactly
/// `min(n, capacity)` requests, whether or not the first decision rotates.
pub proof fn lemma_sliding_window_admission_cap(s: SlidingWindow, now: u64, n: nat)
    requires
        s.wf(),
        s.current_count == 0,
        s.previous_count == 0,
        s.window_start_ns == 0,
        now + s.period_ns <= u64::MAX,
    ensures
        s.admit_count(now, n) == if n <= s.capacity {
            n as int
        } else {
            s.capacity as int
        },
{
    let p = s.period_ns as int;
    assert(0int * (p - s.elapsed_at(now)) == 0) by (nonlinear_arith);
    vstd::arithmetic::div_mod::lemma_div_of0(p);
    if !s.rotates_at(now) {
        lemma_sliding_window_weighted_cap(s, now, n);
    } else {
        lemma_aligned_start(now as int, p);
        assert(s.prev_at(now) == 0);
        assert(s.weighted_at(now) == 0);
        assert(s.admits_at(now));
        if n > 0 {
            let s2 = s.stepped(now);
            assert(!s2.rotates_at(now));
            assert(s2.prev_at(now) == 0);
            assert(0int * (p - s2.elapsed_at(now)) == 0) by (nonlinear_arith);
            assert(s2.estimate_at(now) == 1);
            lemma_sliding_window_weighted_cap(s2, now, (n - 1) as nat);
        }
    }
}

/// Recovery and idle re-anchoring: a decision strictly inside a later
/// window — the reading is past the stored window and not exactly on a
/// boundary — always admits, because at least one nanosecond of weight has
/// decayed from a previous count that capacity bounds. The rotation lands
/// the window around `now` (no drift into the past), and a gap of two or
/// more periods clears the previous count entirely.
pub proof fn lemma_sliding_window_recovery(s: SlidingWindow, now: u64)
    requires
        s.wf(),
        s.rotates_at(now),
        now % s.period_ns != 0,
    ensures
        s.admits_at(now),
        s.stepped(now).window_start_ns <= now < s.stepped(now).window_start_ns + s.period_ns,
        now - s.window_start_ns >= 2 * s.period_ns ==> s.stepped(now).previous_count == 0,
{
    let p = s.period_ns as int;
    lemma_aligned_start(now as int, p);
    lemma_fundamental_div_mod(now as int, p);
    let e = s.elapsed_at(now);
    assert(e >= 1);
    let prev = s.prev_at(now);
    if prev == 0 {
        assert(0int * (p - e) == 0) by (nonlinear_arith);
        vstd::arithmetic::div_mod::lemma_div_of0(p);
    } else {
        assert(prev * (p - e) < p * prev) by (nonlinear_arith)
            requires
                1 <= prev,
                1 <= e,
                p - e < p,
        ;
        lemma_multiply_divide_lt(prev * (p - e), p, prev);
    }
}

impl Strategy for SlidingWindow {
    open spec fn wf(&self) -> bool {
        &&& 1 <= self.capacity
        &&& 1 <= self.period_ns
        &&& self.current_count <= self.capacity
        &&& self.previous_count <= self.capacity
        &&& self.window_start_ns % self.period_ns == 0
        &&& self.window_start_ns + self.period_ns <= u64::MAX
    }

    open spec fn decision_admits(&self, now: u64) -> bool {
        self.admits_at(now)
    }

    open spec fn after_decision(&self, now: u64) -> Self {
        self.stepped(now)
    }

    /// Reads the clock and decides. Readings so late that window arithmetic
    /// would leave `u64` (about 584 years past the anchor) are clamped.
    fn process(&mut self) -> (r: Result<(), Reason>) {
        let t = clock_now(&self.clock);
        let raw = nanos_since(&t, &self.anchor);
        let now = if raw > u64::MAX - self.period_ns {
            u64::MAX - self.period_ns
        } else {
            raw
        };
        let r = self.process_at(now);
        proof {
            assert(*self == old(self).after_decision(now));
            assert(r is Ok <==> old(self).decision_admits(now));
        }
        r
    }
}

} // verus!
