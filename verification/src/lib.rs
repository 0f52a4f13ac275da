//! Lock-free-style rate limiting strategies and the decision core of a
//! rate-limiting middleware stack.
//!
//! Four admission algorithms are provided, each recomputing its state lazily
//! at the instant of a decision: a fixed window, a sliding window counter, a
//! token bucket with fractional refill, and the generic cell rate algorithm.
//! All times are nanoseconds relative to an anchor captured at construction
//! from a [`quanta`] clock; every decision rule is stated as a contract and
//! verified.
//!
//! The middleware half turns a single admission decision into the two request
//! disciplines the library promises: a throughput discipline (wait and retry
//! until a deadline) and a latency discipline (fail fast, shed load). The
//! asynchronous plumbing around those decisions lives outside this crate; the
//! decision functions here are driven with explicit clock readings and
//! readiness flags.

use vstd::prelude::*;

pub mod clock;
pub mod error;
pub mod fixed_window;
pub mod gcra;
pub mod layer;
pub mod managed;
pub mod service;
pub mod sliding_window;
pub mod token_bucket;

pub use error::ShotError;
pub use error::StageError;
pub use fixed_window::FixedWindow;
pub use gcra::Gcra;
pub use layer::RateLimitLayer;
pub use managed::BufferedRateLimitLayer;
pub use managed::ManagedLatencyLayer;
pub use managed::ManagedRateLimitLayer;
pub use managed::ManagedThroughputLayer;
pub use service::PollOutcome;
pub use service::RateLimitService;
pub use service::RequestState;
pub use sliding_window::SlidingWindow;
pub use token_bucket::TokenBucket;
pub use token_bucket::UNIT_SCALE;

verus! {

/// What `u64::saturating_add` computes, for use in contracts.
pub open spec fn sat_add_u64(a: int, b: int) -> int {
    if a + b > u64::MAX {
        u64::MAX as int
    } else {
        a + b
    }
}

/// Why a strategy refused a request.
///
/// `retry_after_ns` is a hint: a lower bound on how long the same caller,
/// making no other calls, would have to wait before being admitted. Callers
/// may retry earlier or later and must tolerate being rejected again.
#[derive(Clone, Copy, Debug, PartialEq, Eq, Structural)]
pub enum Reason {
    Overloaded { retry_after_ns: u64 },
}

/// The common interface of the admission strategies.
///
/// `process` attempts to admit one request: `Ok(())` grants a permit,
/// `Err(Reason::Overloaded { .. })` refuses it with a retry hint. It never
/// blocks and never panics, and it behaves as one pure decision step of
/// its algorithm at the clock reading it took — only the reading itself
/// is outside the contract.
pub trait Strategy: Sized {
    /// The strategy's internal invariant, established by its constructors
    /// and preserved by every call.
    spec fn wf(&self) -> bool;

    /// Whether one decision at the reading `now` admits.
    spec fn decision_admits(&self, now: u64) -> bool;

    /// The state one decision at the reading `now` leaves behind.
    spec fn after_decision(&self, now: u64) -> Self;

    fn process(&mut self) -> (r: Result<(), Reason>)
        requires
            old(self).wf(),
        ensures
            final(self).wf(),
            exists|now: u64|
                {
                    &&& *final(self) == old(self).after_decision(now)
                    &&& (r is Ok <==> old(self).decision_admits(now))
                },
    ;
}

/// Any of the four strategies behind one tag, for callers that pick the
/// algorithm at run time; the hot path can still hold a concrete type.
#[derive(Debug)]
pub enum AnyStrategy {
    Fixed(fixed_window::FixedWindow),
    Sliding(sliding_window::SlidingWindow),
    Bucket(token_bucket::TokenBucket),
    Cells(gcra::Gcra),
}

impl Strategy for AnyStrategy {
    open spec fn wf(&self) -> bool {
        match self {
            AnyStrategy::Fixed(s) => s.wf(),
            AnyStrategy::Sliding(s) => s.wf(),
            AnyStrategy::Bucket(s) => s.wf(),
            AnyStrategy::Cells(s) => s.wf(),
        }
    }

    open spec fn decision_admits(&self, now: u64) -> bool {
        match self {
            AnyStrategy::Fixed(s) => s.decision_admits(now),
            AnyStrategy::Sliding(s) => s.decision_admits(now),
            AnyStrategy::Bucket(s) => s.decision_admits(now),
            AnyStrategy::Cells(s) => s.decision_admits(now),
        }
    }

    open spec fn after_decision(&self, now: u64) -> Self {
        match self {
            AnyStrategy::Fixed(s) => AnyStrategy::Fixed(s.after_decision(now)),
            AnyStrategy::Sliding(s) => AnyStrategy::Sliding(s.after_decision(now)),
            AnyStrategy::Bucket(s) => AnyStrategy::Bucket(s.after_decision(now)),
            AnyStrategy::Cells(s) => AnyStrategy::Cells(s.after_decision(now)),
        }
    }

    fn process(&mut self) -> (r: Result<(), Reason>) {
        match self {
            AnyStrategy::Fixed(s) => {
                let ghost pre = *s;
                let r = s.process();
                proof {
                    let now = choose|now: u64|
                        *s == pre.after_decision(now) && (r is Ok <==> pre.decision_admits(now));
                    assert(*self == old(self).after_decision(now));
                }
                r
            },
            AnyStrategy::Sliding(s) => {
                let ghost pre = *s;
                let r = s.process();
                proof {
                    let now = choose|now: u64|
                        *s == pre.after_decision(now) && (r is Ok <==> pre.decision_admits(now));
                    assert(*self == old(self).after_decision(now));
                }
                r
            },
            AnyStrategy::Bucket(s) => {
                let ghost pre = *s;
                let r = s.process();
                proof {
                    let now = choose|now: u64|
                        *s == pre.after_decision(now) && (r is Ok <==> pre.decision_admits(now));
                    assert(*self == old(self).after_decision(now));
                }
                r
            },
            AnyStrategy::Cells(s) => {
                let ghost pre = *s;
                let r = s.process();
                proof {
                    let now = choose|now: u64|
                        *s == pre.after_decision(now) && (r is Ok <==> pre.decision_admits(now));
                    assert(*self == old(self).after_decision(now));
                }
                r
            },
        }
    }
}

} // verus!
