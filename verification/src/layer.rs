//! The plain middleware layer: a strategy with the two options the
//! middleware takes, ready to wrap a downstream handler.
//!
//! A layer holds what every service made from it shares — the strategy and
//! the options — and `into_service` produces the middleware instance. The
//! adapter that pairs the instance with an actual asynchronous downstream
//! lives outside this crate.

use vstd::prelude::*;

use crate::service::RateLimitService;
use crate::Strategy;

verus! {

/// Applies rate limiting to requests.
pub struct RateLimitLayer<L> {
    /// The strategy every service made from this layer consults.
    pub limiter: L,
    /// Reject immediately with `RateLimited` instead of waiting.
    pub fail_fast: bool,
    /// Unified deadline over waiting for a permit and request execution.
    pub timeout_ns: Option<u64>,
}

impl<L: Strategy> RateLimitLayer<L> {
    /// A layer over the given strategy, in waiting mode with no deadline.
    pub fn new(limiter: L) -> (s: Self)
        requires
            limiter.wf(),
        ensures
            s.limiter.wf(),
            s.limiter == limiter,
            !s.fail_fast,
            s.timeout_ns is None,
    {
        RateLimitLayer { limiter, fail_fast: false, timeout_ns: None }
    }

    /// Sets whether the service fails immediately when overloaded: if
    /// true, a rejection returns `RateLimited` at once instead of waiting
    /// for the rate limit to reset.
    pub fn with_fail_fast(self, fail_fast: bool) -> (s: Self)
        ensures
            s == (RateLimitLayer { fail_fast, ..self }),
    {
        RateLimitLayer { fail_fast, ..self }
    }

    /// Sets the unified deadline for waiting and execution together: past
    /// it, the service returns `Timeout`.
    pub fn with_timeout(self, timeout_ns: u64) -> (s: Self)
        ensures
            s == (RateLimitLayer { timeout_ns: Some(timeout_ns), ..self }),
    {
        RateLimitLayer { timeout_ns: Some(timeout_ns), ..self }
    }

    /// The middleware instance this layer wraps around a downstream: the
    /// strategy and options carry over, the request bookkeeping starts
    /// fresh.
    pub fn into_service(self) -> (s: RateLimitService<L>)
        requires
            self.limiter.wf(),
        ensures
            s.wf(),
            s.limiter == self.limiter,
            s.fail_fast == self.fail_fast,
            s.timeout_ns == self.timeout_ns,
            s.request == crate::service::RequestState::init(),
    {
        let fail_fast = self.fail_fast;
        let service = RateLimitService::new(self.limiter).with_fail_fast(fail_fast);
        match self.timeout_ns {
            Some(t) => service.with_timeout(t),
            None => service,
        }
    }
}

} // verus!
