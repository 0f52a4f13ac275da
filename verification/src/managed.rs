//! The managed discipline layers: ready-made compositions of the
//! middleware with a retry or load-shed policy and a hard deadline.
//!
//! The throughput discipline maximizes successes: its middleware fails
//! fast, and a retry adapter sleeps each `RateLimited` hint away until a
//! hard deadline of `max_wait_ns` cuts the wait off as `Timeout`. The
//! latency discipline sheds load: its middleware waits, and a load-shed
//! adapter turns "not ready right now" into `Overloaded` so requests never
//! queue in memory. The decision rules of both stand here, verified; the
//! asynchronous adapters that run them live outside this crate, folding
//! their boundary errors through `unify_throughput_error` and
//! `unify_latency_error`.

use vstd::prelude::*;

use crate::error::ShotError;
use crate::service::RateLimitService;
use crate::service::RequestState;
use crate::Strategy;

verus! {

/// What the throughput discipline's retry loop does after one readiness
/// attempt of its fail-fast middleware.
#[derive(Clone, Debug)]
pub enum RetryStep {
    /// Ready: forward the request now.
    Attempt,
    /// Rate limited: sleep the hint away, then try again.
    SleepThenRetry { retry_after_ns: u64 },
    /// Any other error ends the request.
    GiveUp(ShotError),
}

/// The retry rule of the throughput discipline: a readiness result that
/// failed with `RateLimited` becomes a sleep of the hinted duration and
/// another attempt; success attempts at once; every other error is final.
pub open spec fn spec_retry_step(r: Result<(), ShotError>) -> RetryStep {
    match r {
        Result::Ok(()) => RetryStep::Attempt,
        Result::Err(e) => match e {
            ShotError::RateLimited { retry_after_ns } => RetryStep::SleepThenRetry {
                retry_after_ns,
            },
            _ => RetryStep::GiveUp(e),
        },
    }
}

/// Decides the retry loop's next move from one readiness result.
pub fn retry_step(r: Result<(), ShotError>) -> (out: RetryStep)
    ensures
        out == spec_retry_step(r),
{
    match r {
        Result::Ok(()) => RetryStep::Attempt,
        Result::Err(e) => match e {
            ShotError::RateLimited { retry_after_ns } => RetryStep::SleepThenRetry {
                retry_after_ns,
            },
            _ => RetryStep::GiveUp(e),
        },
    }
}

/// The readiness report of the retry adapter: a `RateLimited` readiness
/// failure is reported as ready, so that the call itself can run the
/// sleep-and-retry loop; everything else passes through. After a
/// successful report the call may still rate-limit once — it then sleeps
/// and retries rather than failing.
pub fn retry_poll_ready(r: Result<(), ShotError>) -> (out: Result<(), ShotError>)
    ensures
        out == match r {
            Result::Ok(()) => Result::<(), ShotError>::Ok(()),
            Result::Err(e) => match e {
                ShotError::RateLimited { .. } => Result::<(), ShotError>::Ok(()),
                _ => Result::<(), ShotError>::Err(e),
            },
        },
{
    match r {
        Result::Ok(()) => Result::Ok(()),
        Result::Err(e) => match e {
            ShotError::RateLimited { .. } => Result::Ok(()),
            _ => Result::Err(e),
        },
    }
}

/// The throughput discipline: wait and retry within a hard deadline.
pub struct ManagedThroughputLayer<L> {
    /// The shared strategy.
    pub limiter: L,
    /// The hard deadline on one request, waiting and execution together.
    pub max_wait_ns: u64,
}

impl<L: Strategy> ManagedThroughputLayer<L> {
    /// A throughput discipline over the given strategy and deadline.
    pub fn new(limiter: L, max_wait_ns: u64) -> (s: Self)
        requires
            limiter.wf(),
        ensures
            s.limiter.wf(),
            s.limiter == limiter,
            s.max_wait_ns == max_wait_ns,
    {
        ManagedThroughputLayer { limiter, max_wait_ns }
    }

    /// The middleware under this discipline: fail-fast, so the retry
    /// adapter sees each `RateLimited` and sleeps it away; the deadline is
    /// enforced outside the retry loop, not here.
    pub fn into_service(self) -> (s: RateLimitService<L>)
        requires
            self.limiter.wf(),
        ensures
            s.wf(),
            s.limiter == self.limiter,
            s.fail_fast,
            s.timeout_ns is None,
            s.request == RequestState::init(),
    {
        RateLimitService::new(self.limiter).with_fail_fast(true)
    }
}

/// The latency discipline: fail fast at the boundary, shed load, never
/// queue in memory.
pub struct ManagedLatencyLayer<L> {
    /// The shared strategy.
    pub limiter: L,
    /// The hard deadline on one request, waiting and execution together.
    pub max_wait_ns: u64,
}

impl<L: Strategy> ManagedLatencyLayer<L> {
    /// A latency discipline over the given strategy and deadline.
    pub fn new(limiter: L, max_wait_ns: u64) -> (s: Self)
        requires
            limiter.wf(),
        ensures
            s.limiter.wf(),
            s.limiter == limiter,
            s.max_wait_ns == max_wait_ns,
    {
        ManagedLatencyLayer { limiter, max_wait_ns }
    }

    /// The middleware under this discipline: waiting mode, so a rejection
    /// parks the handle as "not ready" and the load-shed adapter above it
    /// turns that into `Overloaded` instead of queueing the request.
    pub fn into_service(self) -> (s: RateLimitService<L>)
        requires
            self.limiter.wf(),
        ensures
            s.wf(),
            s.limiter == self.limiter,
            !s.fail_fast,
            s.timeout_ns is None,
            s.request == RequestState::init(),
    {
        RateLimitService::new(self.limiter)
    }
}

/// The size of the buffer placed in front of a buffered middleware stack:
/// the capacity plus a quarter of it, but at least ten spare slots.
pub open spec fn spec_buffer_size(capacity: usize) -> int {
    capacity + if capacity as int / 4 > 10 {
        capacity as int / 4
    } else {
        10
    }
}

/// A middleware layer that queues requests in a bounded buffer in front
/// of the limiter instead of exerting backpressure on each caller.
pub struct BufferedRateLimitLayer<L> {
    /// The shared strategy.
    pub limiter: L,
    /// How many requests the buffer holds.
    pub buffer_size: usize,
}

impl<L: Strategy> BufferedRateLimitLayer<L> {
    /// A buffered layer over the given strategy, sized for `capacity`
    /// in-flight requests plus headroom.
    pub fn new(limiter: L, capacity: usize) -> (s: Self)
        requires
            limiter.wf(),
            spec_buffer_size(capacity) <= usize::MAX,
        ensures
            s.limiter.wf(),
            s.limiter == limiter,
            s.buffer_size == spec_buffer_size(capacity),
    {
        let headroom = capacity / 4;
        let buffer_size = capacity + if headroom > 10 {
            headroom
        } else {
            10
        };
        BufferedRateLimitLayer { limiter, buffer_size }
    }

    /// The middleware the buffer feeds: waiting mode, no deadline.
    pub fn into_service(self) -> (s: RateLimitService<L>)
        requires
            self.limiter.wf(),
        ensures
            s.wf(),
            s.limiter == self.limiter,
            !s.fail_fast,
            s.timeout_ns is None,
            s.request == RequestState::init(),
    {
        RateLimitService::new(self.limiter)
    }
}

/// The batteries-included stack: a buffer, load shedding and a hard
/// deadline around the waiting middleware.
pub struct ManagedRateLimitLayer<L> {
    /// The shared strategy.
    pub limiter: L,
    /// How many requests the buffer holds.
    pub buffer_size: usize,
    /// The hard deadline on one request.
    pub max_wait_ns: u64,
}

impl<L: Strategy> ManagedRateLimitLayer<L> {
    /// A managed stack over the given strategy, sized for `capacity`
    /// in-flight requests plus headroom, with a hard deadline.
    pub fn new(limiter: L, capacity: usize, max_wait_ns: u64) -> (s: Self)
        requires
            limiter.wf(),
            spec_buffer_size(capacity) <= usize::MAX,
        ensures
            s.limiter.wf(),
            s.limiter == limiter,
            s.buffer_size == spec_buffer_size(capacity),
            s.max_wait_ns == max_wait_ns,
    {
        let headroom = capacity / 4;
        let buffer_size = capacity + if headroom > 10 {
            headroom
        } else {
            10
        };
        ManagedRateLimitLayer { limiter, buffer_size, max_wait_ns }
    }

    /// The middleware at the heart of the stack: waiting mode, no inner
    /// deadline — the outer adapter enforces `max_wait_ns`.
    pub fn into_service(self) -> (s: RateLimitService<L>)
        requires
            self.limiter.wf(),
        ensures
            s.wf(),
            s.limiter == self.limiter,
            !s.fail_fast,
            s.timeout_ns is None,
            s.request == RequestState::init(),
    {
        RateLimitService::new(self.limiter)
    }
}

} // verus!
