//! The unified rejection taxonomy of the middleware stack, and the exact
//! rules that fold every stage's failure into it.
//!
//! Exactly one of four kinds reaches a caller: `Timeout` for an exceeded
//! deadline, `Overloaded` for a request shed without queuing, `RateLimited`
//! for a fail-fast strategy rejection with its retry hint, and `Inner` for
//! a downstream handler error carried as text. `Inner` is never
//! re-classified.

use vstd::prelude::*;

verus! {

/// Nanoseconds per second, for the HTTP retry header.
pub const SECOND_NS: u64 = 1_000_000_000;

/// An error of the rate-limiting middleware stack.
#[derive(Clone, Debug)]
pub enum ShotError {
    /// The deadline passed, while waiting for a permit or during the
    /// downstream call.
    Timeout,
    /// The request was shed immediately rather than queued.
    Overloaded,
    /// The strategy rejected in fail-fast mode; retry after the hint.
    RateLimited { retry_after_ns: u64 },
    /// The downstream handler failed; its message is carried as text.
    Inner(String),
}

/// What an adapter around a discipline stack observed at its boundary,
/// before unification: the platform's deadline expiry, its load-shed
/// rejection, an error of this crate's own taxonomy, or a downstream
/// error already rendered as text.
#[derive(Debug)]
pub enum StageError {
    DeadlineElapsed,
    Shed,
    Limit(ShotError),
    Other(String),
}

impl ShotError {
    /// The HTTP status the error maps to.
    pub open spec fn spec_http_status(&self) -> u16 {
        match self {
            ShotError::Timeout => 408,
            ShotError::Overloaded => 503,
            ShotError::RateLimited { .. } => 429,
            ShotError::Inner(_) => 500,
        }
    }

    /// The `Retry-After` value for a `RateLimited` response: the hint in
    /// whole seconds, rounded up, and at least one.
    pub open spec fn spec_retry_after_secs(&self) -> int
        recommends
            self matches ShotError::RateLimited { .. },
    {
        match self {
            ShotError::RateLimited { retry_after_ns } => {
                let ceil = retry_after_ns as int / SECOND_NS as int + if retry_after_ns as int
                    % SECOND_NS as int == 0 {
                    0int
                } else {
                    1int
                };
                if ceil < 1 {
                    1
                } else {
                    ceil
                }
            },
            _ => 1,
        }
    }

    /// The HTTP status this error maps to: 408 for a timeout, 503 for a
    /// shed request, 429 for a rate limit, 500 for a downstream error.
    pub fn http_status(&self) -> (code: u16)
        ensures
            code == self.spec_http_status(),
    {
        match self {
            ShotError::Timeout => 408,
            ShotError::Overloaded => 503,
            ShotError::RateLimited { .. } => 429,
            ShotError::Inner(_) => 500,
        }
    }

    /// The `Retry-After` header value in seconds: the hint rounded up to
    /// whole seconds, and at least one. Meaningful for `RateLimited`; one
    /// for the other kinds.
    pub fn retry_after_secs(&self) -> (secs: u64)
        ensures
            secs == self.spec_retry_after_secs(),
    {
        match self {
            ShotError::RateLimited { retry_after_ns } => {
                let whole = *retry_after_ns / SECOND_NS;
                let secs = if *retry_after_ns % SECOND_NS == 0 {
                    whole
                } else {
                    whole + 1
                };
                if secs < 1 {
                    1
                } else {
                    secs
                }
            },
            _ => 1,
        }
    }
}

/// The unified error the throughput discipline reports: deadline expiry
/// becomes `Timeout`, this crate's own errors pass through unchanged, and
/// any other downstream error is wrapped as `Inner`.
pub open spec fn spec_unify_throughput(e: StageError) -> ShotError {
    match e {
        StageError::DeadlineElapsed => ShotError::Timeout,
        StageError::Shed => ShotError::Overloaded,
        StageError::Limit(se) => se,
        StageError::Other(msg) => ShotError::Inner(msg),
    }
}

/// The unified error the latency discipline reports: deadline expiry
/// becomes `Timeout`, a shed request `Overloaded`; a `RateLimited` that
/// reaches this boundary should not occur and is re-wrapped as
/// `Overloaded`; everything else of this crate passes through, and any
/// other downstream error is wrapped as `Inner`. `Inner` is preserved.
pub open spec fn spec_unify_latency(e: StageError) -> ShotError {
    match e {
        StageError::DeadlineElapsed => ShotError::Timeout,
        StageError::Shed => ShotError::Overloaded,
        StageError::Limit(se) => match se {
            ShotError::RateLimited { .. } => ShotError::Overloaded,
            _ => se,
        },
        StageError::Other(msg) => ShotError::Inner(msg),
    }
}

/// Folds a throughput-discipline boundary observation into the taxonomy.
pub fn unify_throughput_error(e: StageError) -> (r: ShotError)
    ensures
        r == spec_unify_throughput(e),
{
    match e {
        StageError::DeadlineElapsed => ShotError::Timeout,
        StageError::Shed => ShotError::Overloaded,
        StageError::Limit(se) => se,
        StageError::Other(msg) => ShotError::Inner(msg),
    }
}

/// Folds a latency-discipline boundary observation into the taxonomy.
pub fn unify_latency_error(e: StageError) -> (r: ShotError)
    ensures
        r == spec_unify_latency(e),
{
    match e {
        StageError::DeadlineElapsed => ShotError::Timeout,
        StageError::Shed => ShotError::Overloaded,
        StageError::Limit(se) => match se {
            ShotError::RateLimited { retry_after_ns } => ShotError::Overloaded,
            _ => se,
        },
        StageError::Other(msg) => ShotError::Inner(msg),
    }
}

} // verus!
