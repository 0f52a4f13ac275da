//! The middleware's per-request decision core: a state machine from clock
//! readings, downstream readiness and strategy decisions to readiness
//! outcomes.
//!
//! A request handle moves through readiness polls. Each poll first settles
//! a pending sleep, then checks the downstream's readiness, then — and only
//! then — consults the strategy, so a permit is never drawn for a
//! downstream that cannot take the request. An admission grants a permit;
//! a rejection either fails fast with `RateLimited`, or schedules a wakeup
//! after the retry hint capped by what is left of the deadline. A permit
//! is consumed by exactly one forwarded call.
//!
//! The functions here are synchronous and total: the caller — an
//! asynchronous adapter outside this crate — supplies the clock reading
//! and the readiness flag, performs the scheduled sleep, and forwards the
//! request when told so. A scheduled wakeup at or before the current
//! reading means "yield and poll again", never "retry inline": a zero
//! retry hint therefore cannot busy-spin the caller.

use vstd::prelude::*;

use crate::error::ShotError;
use crate::sat_add_u64;
use crate::Reason;
use crate::Strategy;

verus! {

/// Nanoseconds from `start` to `now`, zero if `now` is not past it.
pub open spec fn spec_elapsed_ns(start: u64, now: u64) -> int {
    if now > start {
        now - start
    } else {
        0
    }
}

/// `a - b`, floored at zero.
pub open spec fn sub_or_zero(a: int, b: int) -> int {
    if a > b {
        a - b
    } else {
        0
    }
}

/// Whether a deadline of `timeout_ns` measured from `wait_start_ns` has
/// passed at `now`. Without a deadline or a recorded start, it has not.
pub open spec fn spec_timed_out(timeout_ns: Option<u64>, wait_start_ns: Option<u64>, now: u64) -> bool {
    match (timeout_ns, wait_start_ns) {
        (Some(t), Some(s)) => spec_elapsed_ns(s, now) >= t,
        _ => false,
    }
}

/// What one readiness poll tells the caller.
#[derive(Clone, Debug)]
pub enum PollOutcome {
    /// A permit is held; the request may be forwarded.
    Ready,
    /// Not ready and nothing to schedule: still sleeping, or the
    /// downstream is not ready. Poll again when woken.
    NotReady,
    /// Not ready; schedule a wakeup at `wake_at_ns` and poll again then.
    /// A value at or before the current reading means yield and re-poll.
    SleepFor { wake_at_ns: u64 },
    /// The request failed without reaching the downstream.
    Failed(ShotError),
}

/// Where a readiness poll stopped before any strategy consultation.
#[derive(Clone, Copy, Debug)]
pub enum Gate {
    /// A scheduled wakeup is still in the future.
    StillSleeping,
    /// Woke from a sleep to find the deadline already passed.
    WokeTimeout,
    /// The downstream handler is not ready; the strategy is not consulted.
    InnerPending,
    /// A permit is already held from an earlier poll.
    HavePermit,
    /// The deadline passed before the strategy could be consulted.
    TimedOutWaiting,
    /// The strategy must now be consulted.
    Consult,
}

/// The per-request bookkeeping of the middleware. Fresh for each request
/// and for each clone of the middleware; never shared.
#[derive(Clone, Copy, Debug)]
pub struct RequestState {
    /// Whether a permit from the strategy is held and not yet consumed.
    pub permit_acquired: bool,
    /// The scheduled wakeup, in the middleware's clock reading, if a
    /// rejection put this request to sleep.
    pub sleep_until_ns: Option<u64>,
    /// The reading of the first poll that started waiting, from which the
    /// deadline is measured.
    pub wait_start_ns: Option<u64>,
}

impl RequestState {
    /// The state of a request before its first poll.
    pub open spec fn init() -> RequestState {
        RequestState { permit_acquired: false, sleep_until_ns: None, wait_start_ns: None }
    }

    /// Fresh bookkeeping for a new request.
    pub fn new() -> (s: Self)
        ensures
            s == RequestState::init(),
    {
        RequestState { permit_acquired: false, sleep_until_ns: None, wait_start_ns: None }
    }
}

/// What a readiness poll does before any strategy consultation: settle a
/// pending sleep (checking the deadline on waking), require downstream
/// readiness, hand back an already-held permit, and start or check the
/// deadline clock. Returns the updated bookkeeping and where it stopped.
pub open spec fn pre_check_spec(
    req: RequestState,
    timeout_ns: Option<u64>,
    now: u64,
    inner_ready: bool,
) -> (RequestState, Gate) {
    if req.sleep_until_ns is Some && now < req.sleep_until_ns->0 {
        (req, Gate::StillSleeping)
    } else {
        let woke = req.sleep_until_ns is Some;
        let req1 = RequestState { sleep_until_ns: None, ..req };
        if woke && spec_timed_out(timeout_ns, req1.wait_start_ns, now) {
            (RequestState { wait_start_ns: None, ..req1 }, Gate::WokeTimeout)
        } else if !inner_ready {
            (req1, Gate::InnerPending)
        } else if req1.permit_acquired {
            (req1, Gate::HavePermit)
        } else if timeout_ns is Some {
            let started = if req1.wait_start_ns is Some {
                req1.wait_start_ns->0
            } else {
                now
            };
            let req2 = RequestState { wait_start_ns: Some(started), ..req1 };
            if spec_elapsed_ns(started, now) >= timeout_ns->0 {
                (RequestState { wait_start_ns: None, ..req2 }, Gate::TimedOutWaiting)
            } else {
                (req2, Gate::Consult)
            }
        } else {
            (req1, Gate::Consult)
        }
    }
}

/// What a readiness poll does with the strategy's decision: an admission
/// grants the permit; a rejection fails fast with the hint, or — in
/// waiting mode — schedules a wakeup after the hint capped by the
/// remaining deadline, failing with `Timeout` when nothing remains.
pub open spec fn apply_decision_spec(
    req: RequestState,
    fail_fast: bool,
    timeout_ns: Option<u64>,
    now: u64,
    decision: Result<(), Reason>,
) -> (RequestState, PollOutcome) {
    match decision {
        Result::Ok(()) => (
            RequestState { permit_acquired: true, ..req },
            PollOutcome::Ready,
        ),
        Result::Err(Reason::Overloaded { retry_after_ns }) => {
            if fail_fast {
                (req, PollOutcome::Failed(ShotError::RateLimited { retry_after_ns }))
            } else {
                let started = if req.wait_start_ns is Some {
                    req.wait_start_ns->0
                } else {
                    now
                };
                let req1 = RequestState { wait_start_ns: Some(started), ..req };
                if timeout_ns is Some {
                    let remaining = sub_or_zero(
                        timeout_ns->0 as int,
                        spec_elapsed_ns(started, now),
                    );
                    if remaining == 0 {
                        (
                            RequestState { wait_start_ns: None, ..req1 },
                            PollOutcome::Failed(ShotError::Timeout),
                        )
                    } else {
                        let dur = if retry_after_ns <= remaining {
                            retry_after_ns as int
                        } else {
                            remaining
                        };
                        let wake = sat_add_u64(now as int, dur) as u64;
                        (
                            RequestState { sleep_until_ns: Some(wake), ..req1 },
                            PollOutcome::SleepFor { wake_at_ns: wake },
                        )
                    }
                } else {
                    let wake = sat_add_u64(now as int, retry_after_ns as int) as u64;
                    (
                        RequestState { sleep_until_ns: Some(wake), ..req1 },
                        PollOutcome::SleepFor { wake_at_ns: wake },
                    )
                }
            }
        },
    }
}

/// One whole readiness poll, as a pure transition: the pre-check, then —
/// only at the `Consult` gate — the decision `decision` applied.
pub open spec fn poll_spec(
    req: RequestState,
    fail_fast: bool,
    timeout_ns: Option<u64>,
    now: u64,
    inner_ready: bool,
    decision: Result<(), Reason>,
) -> (RequestState, PollOutcome) {
    let (req1, gate) = pre_check_spec(req, timeout_ns, now, inner_ready);
    match gate {
        Gate::StillSleeping => (req1, PollOutcome::NotReady),
        Gate::WokeTimeout => (req1, PollOutcome::Failed(ShotError::Timeout)),
        Gate::InnerPending => (req1, PollOutcome::NotReady),
        Gate::HavePermit => (req1, PollOutcome::Ready),
        Gate::TimedOutWaiting => (req1, PollOutcome::Failed(ShotError::Timeout)),
        Gate::Consult => apply_decision_spec(req1, fail_fast, timeout_ns, now, decision),
    }
}

/// The downstream call budget: what is left of the deadline measured from
/// the recorded wait start, the whole deadline if waiting never started,
/// and no bound without a deadline.
pub open spec fn call_budget_spec(
    timeout_ns: Option<u64>,
    wait_start_ns: Option<u64>,
    now: u64,
) -> Option<u64> {
    match (timeout_ns, wait_start_ns) {
        (Some(t), Some(s)) => Some(sub_or_zero(t as int, spec_elapsed_ns(s, now)) as u64),
        (Some(t), None) => Some(t),
        (None, _) => None,
    }
}

/// The pre-check of one readiness poll, exactly as `pre_check_spec` says.
fn pre_check(
    request: &mut RequestState,
    timeout_ns: Option<u64>,
    now_ns: u64,
    inner_ready: bool,
) -> (g: Gate)
    ensures
        (*final(request), g) == pre_check_spec(*old(request), timeout_ns, now_ns, inner_ready),
{
    if let Some(until) = request.sleep_until_ns {
        if now_ns < until {
            return Gate::StillSleeping;
        }
        request.sleep_until_ns = None;
        if let Some(t) = timeout_ns {
            if let Some(start) = request.wait_start_ns {
                let elapsed = if now_ns > start {
                    now_ns - start
                } else {
                    0
                };
                if elapsed >= t {
                    request.wait_start_ns = None;
                    return Gate::WokeTimeout;
                }
            }
        }
    }
    if !inner_ready {
        return Gate::InnerPending;
    }
    if request.permit_acquired {
        return Gate::HavePermit;
    }
    if let Some(t) = timeout_ns {
        let started = match request.wait_start_ns {
            Some(s) => s,
            None => now_ns,
        };
        request.wait_start_ns = Some(started);
        let elapsed = if now_ns > started {
            now_ns - started
        } else {
            0
        };
        if elapsed >= t {
            request.wait_start_ns = None;
            return Gate::TimedOutWaiting;
        }
    }
    Gate::Consult
}

/// Applies a strategy decision to the request, exactly as
/// `apply_decision_spec` says.
fn apply_decision(
    request: &mut RequestState,
    fail_fast: bool,
    timeout_ns: Option<u64>,
    now_ns: u64,
    decision: Result<(), Reason>,
) -> (out: PollOutcome)
    ensures
        (*final(request), out) == apply_decision_spec(
            *old(request),
            fail_fast,
            timeout_ns,
            now_ns,
            decision,
        ),
{
    match decision {
        Result::Ok(()) => {
            request.permit_acquired = true;
            PollOutcome::Ready
        },
        Result::Err(Reason::Overloaded { retry_after_ns }) => {
            if fail_fast {
                PollOutcome::Failed(ShotError::RateLimited { retry_after_ns })
            } else {
                let started = match request.wait_start_ns {
                    Some(s) => s,
                    None => now_ns,
                };
                request.wait_start_ns = Some(started);
                let dur: u64 = if let Some(t) = timeout_ns {
                    let elapsed = if now_ns > started {
                        now_ns - started
                    } else {
                        0
                    };
                    let remaining = if t > elapsed {
                        t - elapsed
                    } else {
                        0
                    };
                    if remaining == 0 {
                        request.wait_start_ns = None;
                        return PollOutcome::Failed(ShotError::Timeout);
                    }
                    if retry_after_ns <= remaining {
                        retry_after_ns
                    } else {
                        remaining
                    }
                } else {
                    retry_after_ns
                };
                let wake = if now_ns > u64::MAX - dur {
                    u64::MAX
                } else {
                    now_ns + dur
                };
                request.sleep_until_ns = Some(wake);
                PollOutcome::SleepFor { wake_at_ns: wake }
            }
        },
    }
}

/// One readiness poll of a request against a strategy that may be shared
/// by any number of request handles. Consults the strategy only at the
/// `Consult` gate, and then behaves, for whatever the strategy decided,
/// exactly as the pure transition `poll_spec` says. In waiting mode a
/// rejection never surfaces as `RateLimited` and never retries inline: it
/// schedules a wakeup, even one of zero delay.
pub fn poll_permit<L: Strategy>(
    limiter: &mut L,
    request: &mut RequestState,
    fail_fast: bool,
    timeout_ns: Option<u64>,
    now_ns: u64,
    inner_ready: bool,
) -> (out: PollOutcome)
    requires
        old(limiter).wf(),
    ensures
        final(limiter).wf(),
        exists|d: Result<(), Reason>|
            (*final(request), out) == poll_spec(
                *old(request),
                fail_fast,
                timeout_ns,
                now_ns,
                inner_ready,
                d,
            ),
        !(pre_check_spec(*old(request), timeout_ns, now_ns, inner_ready).1 is Consult)
            ==> *final(limiter) == *old(limiter),
        pre_check_spec(*old(request), timeout_ns, now_ns, inner_ready).1 is Consult
            ==> exists|reading: u64, d: Result<(), Reason>|
                {
                    &&& *final(limiter) == old(limiter).after_decision(reading)
                    &&& (d is Ok <==> old(limiter).decision_admits(reading))
                    &&& (*final(request), out) == apply_decision_spec(
                        pre_check_spec(*old(request), timeout_ns, now_ns, inner_ready).0,
                        fail_fast,
                        timeout_ns,
                        now_ns,
                        d,
                    )
                },
        out is Ready ==> final(request).permit_acquired,
        !fail_fast ==> !(out matches PollOutcome::Failed(ShotError::RateLimited { .. })),
{
    let ghost req0 = *request;
    let ghost limiter0 = *limiter;
    let gate = pre_check(request, timeout_ns, now_ns, inner_ready);
    match gate {
        Gate::StillSleeping | Gate::InnerPending => {
            proof {
                assert((*request, PollOutcome::NotReady) == poll_spec(
                    req0,
                    fail_fast,
                    timeout_ns,
                    now_ns,
                    inner_ready,
                    Result::<(), Reason>::Ok(()),
                ));
            }
            PollOutcome::NotReady
        },
        Gate::WokeTimeout | Gate::TimedOutWaiting => {
            proof {
                assert((*request, PollOutcome::Failed(ShotError::Timeout)) == poll_spec(
                    req0,
                    fail_fast,
                    timeout_ns,
                    now_ns,
                    inner_ready,
                    Result::<(), Reason>::Ok(()),
                ));
            }
            PollOutcome::Failed(ShotError::Timeout)
        },
        Gate::HavePermit => {
            proof {
                assert((*request, PollOutcome::Ready) == poll_spec(
                    req0,
                    fail_fast,
                    timeout_ns,
                    now_ns,
                    inner_ready,
                    Result::<(), Reason>::Ok(()),
                ));
            }
            PollOutcome::Ready
        },
        Gate::Consult => {
            let decision = limiter.process();
            let out = apply_decision(request, fail_fast, timeout_ns, now_ns, decision);
            proof {
                assert((*request, out) == poll_spec(
                    req0,
                    fail_fast,
                    timeout_ns,
                    now_ns,
                    inner_ready,
                    decision,
                ));
                let reading = choose|reading: u64|
                    *limiter == limiter0.after_decision(reading) && (decision is Ok
                        <==> limiter0.decision_admits(reading));
                assert(*limiter == limiter0.after_decision(reading) && (decision is Ok
                    <==> limiter0.decision_admits(reading)) && (*request, out)
                    == apply_decision_spec(
                    pre_check_spec(req0, timeout_ns, now_ns, inner_ready).0,
                    fail_fast,
                    timeout_ns,
                    now_ns,
                    decision,
                ));
            }
            out
        },
    }
}

/// Consumes the held permit for one downstream call and returns the
/// call's deadline budget. The permit is gone whatever happens next: a
/// request cancelled after this point forfeits it.
pub fn take_permit(request: &mut RequestState, timeout_ns: Option<u64>, now_ns: u64) -> (budget:
    Option<u64>)
    requires
        old(request).permit_acquired,
    ensures
        !final(request).permit_acquired,
        final(request).wait_start_ns is None,
        final(request).sleep_until_ns == old(request).sleep_until_ns,
        budget == call_budget_spec(timeout_ns, old(request).wait_start_ns, now_ns),
{
    request.permit_acquired = false;
    let start = request.wait_start_ns;
    request.wait_start_ns = None;
    match (timeout_ns, start) {
        (Some(t), Some(s)) => {
            let elapsed = if now_ns > s {
                now_ns - s
            } else {
                0
            };
            Some(
                if t > elapsed {
                    t - elapsed
                } else {
                    0
                },
            )
        },
        (Some(t), None) => Some(t),
        (None, _) => None,
    }
}

/// One thing that can happen to a request handle: a readiness poll — with
/// the clock reading, the downstream's readiness, and the decision the
/// strategy would give if consulted — or the forwarding of the request.
pub enum MiddlewareEvent {
    Poll { now_ns: u64, inner_ready: bool, decision: Result<(), Reason> },
    Call { now_ns: u64 },
}

/// The bookkeeping after one event.
pub open spec fn event_step(
    req: RequestState,
    fail_fast: bool,
    timeout_ns: Option<u64>,
    e: MiddlewareEvent,
) -> RequestState {
    match e {
        MiddlewareEvent::Poll { now_ns, inner_ready, decision } => poll_spec(
            req,
            fail_fast,
            timeout_ns,
            now_ns,
            inner_ready,
            decision,
        ).0,
        MiddlewareEvent::Call { now_ns } => RequestState {
            permit_acquired: false,
            wait_start_ns: None,
            ..req
        },
    }
}

/// Whether a sequence of events respects the calling discipline: a
/// request is forwarded only while a permit is held.
pub open spec fn trace_valid(
    req: RequestState,
    fail_fast: bool,
    timeout_ns: Option<u64>,
    events: Seq<MiddlewareEvent>,
) -> bool
    decreases events.len(),
{
    events.len() == 0 || {
        &&& (events.first() matches MiddlewareEvent::Call { .. } ==> req.permit_acquired)
        &&& trace_valid(
            event_step(req, fail_fast, timeout_ns, events.first()),
            fail_fast,
            timeout_ns,
            events.drop_first(),
        )
    }
}

/// The bookkeeping after a sequence of events.
pub open spec fn run_trace(
    req: RequestState,
    fail_fast: bool,
    timeout_ns: Option<u64>,
    events: Seq<MiddlewareEvent>,
) -> RequestState
    decreases events.len(),
{
    if events.len() == 0 {
        req
    } else {
        run_trace(
            event_step(req, fail_fast, timeout_ns, events.first()),
            fail_fast,
            timeout_ns,
            events.drop_first(),
        )
    }
}

/// How many events of a sequence grant a permit: polls that turn
/// `permit_acquired` from false to true.
pub open spec fn grants_in(
    req: RequestState,
    fail_fast: bool,
    timeout_ns: Option<u64>,
    events: Seq<MiddlewareEvent>,
) -> nat
    decreases events.len(),
{
    if events.len() == 0 {
        0
    } else {
        let req2 = event_step(req, fail_fast, timeout_ns, events.first());
        (if req2.permit_acquired && !req.permit_acquired {
            1 as nat
        } else {
            0 as nat
        }) + grants_in(req2, fail_fast, timeout_ns, events.drop_first())
    }
}

/// How many events of a sequence forward the request downstream.
pub open spec fn forwards_in(events: Seq<MiddlewareEvent>) -> nat
    decreases events.len(),
{
    if events.len() == 0 {
        0
    } else {
        (if events.first() matches MiddlewareEvent::Call { .. } {
            1 as nat
        } else {
            0 as nat
        }) + forwards_in(events.drop_first())
    }
}

/// One if a permit is held, else zero.
pub open spec fn permit_held(req: RequestState) -> nat {
    if req.permit_acquired {
        1
    } else {
        0
    }
}

/// A permit is consumed by exactly one downstream call: over any valid
/// sequence of polls and calls, the number of requests forwarded equals
/// the number of permits granted, less the one permit still held at the
/// end if any. In particular the downstream sees at most one request per
/// granted permit, and a granted permit not yet forwarded is exactly the
/// one the handle holds.
pub proof fn lemma_permit_consumed_exactly_once(
    req: RequestState,
    fail_fast: bool,
    timeout_ns: Option<u64>,
    events: Seq<MiddlewareEvent>,
)
    requires
        trace_valid(req, fail_fast, timeout_ns, events),
    ensures
        forwards_in(events) + permit_held(run_trace(req, fail_fast, timeout_ns, events))
            == grants_in(req, fail_fast, timeout_ns, events) + permit_held(req),
    decreases events.len(),
{
    if events.len() > 0 {
        let e = events.first();
        let req2 = event_step(req, fail_fast, timeout_ns, e);
        if e matches MiddlewareEvent::Poll { now_ns, inner_ready, decision } {
            assert(req.permit_acquired ==> req2.permit_acquired);
        }
        lemma_permit_consumed_exactly_once(req2, fail_fast, timeout_ns, events.drop_first());
    }
}

/// Capacity under a shared strategy: two middleware instances over one
/// strategy respect the combined cap. For a limit-one fixed window inside
/// its window, the instance that polls first is admitted and becomes
/// ready; the strategy then rejects, so the other instance's poll — in
/// waiting mode, whatever hint the rejection carries — is not ready.
pub proof fn lemma_shared_strategy_capacity(
    fw: crate::fixed_window::FixedWindow,
    ra: RequestState,
    rb: RequestState,
    now: u64,
)
    requires
        fw.wf(),
        fw.capacity == 1,
        fw.remaining == 1,
        now <= fw.expires_ns,
        ra == RequestState::init(),
        rb == RequestState::init(),
    ensures
        fw.admits_at(now),
        poll_spec(ra, false, None, now, true, Result::Ok(())).1 is Ready,
        !fw.stepped(now).admits_at(now),
        forall|hint: u64|
            !(#[trigger] poll_spec(
                rb,
                false,
                None,
                now,
                true,
                Result::Err(Reason::Overloaded { retry_after_ns: hint }),
            ).1 is Ready),
{
}

/// A rate-limiting middleware instance: a strategy, its options, and the
/// bookkeeping of the one request in flight. An asynchronous adapter
/// drives it: it supplies clock readings and downstream readiness to
/// `poll_ready_step`, sleeps when told to, and forwards the request under
/// the budget `call_budget` returns.
pub struct RateLimitService<L> {
    /// The admission strategy consulted before each downstream call.
    pub limiter: L,
    /// Reject immediately with `RateLimited` instead of waiting.
    pub fail_fast: bool,
    /// Hard bound on the total time from the first poll of a request
    /// through the completion of its downstream call.
    pub timeout_ns: Option<u64>,
    /// Bookkeeping of the request in flight.
    pub request: RequestState,
}

impl<L: Strategy> RateLimitService<L> {
    /// The service's invariant: its strategy's.
    pub open spec fn wf(&self) -> bool {
        self.limiter.wf()
    }

    /// Wraps a strategy in a waiting-mode service with no deadline.
    pub fn new(limiter: L) -> (s: Self)
        requires
            limiter.wf(),
        ensures
            s.wf(),
            s.limiter == limiter,
            !s.fail_fast,
            s.timeout_ns is None,
            s.request == RequestState::init(),
    {
        RateLimitService { limiter, fail_fast: false, timeout_ns: None, request: RequestState::new() }
    }

    /// Sets whether a rejection fails immediately with `RateLimited`
    /// rather than scheduling a wait.
    pub fn with_fail_fast(self, fail_fast: bool) -> (s: Self)
        ensures
            s == (RateLimitService { fail_fast, ..self }),
    {
        RateLimitService { fail_fast, ..self }
    }

    /// Sets the unified deadline over waiting and the downstream call.
    pub fn with_timeout(self, timeout_ns: u64) -> (s: Self)
        ensures
            s == (RateLimitService { timeout_ns: Some(timeout_ns), ..self }),
    {
        RateLimitService { timeout_ns: Some(timeout_ns), ..self }
    }

    /// One readiness poll; see `poll_permit`.
    pub fn poll_ready_step(&mut self, now_ns: u64, inner_ready: bool) -> (out: PollOutcome)
        requires
            old(self).wf(),
        ensures
            final(self).wf(),
            final(self).fail_fast == old(self).fail_fast,
            final(self).timeout_ns == old(self).timeout_ns,
            exists|d: Result<(), Reason>|
                (final(self).request, out) == poll_spec(
                    old(self).request,
                    old(self).fail_fast,
                    old(self).timeout_ns,
                    now_ns,
                    inner_ready,
                    d,
                ),
            pre_check_spec(old(self).request, old(self).timeout_ns, now_ns, inner_ready).1
                is Consult ==> exists|reading: u64, d: Result<(), Reason>|
                {
                    &&& final(self).limiter == old(self).limiter.after_decision(reading)
                    &&& (d is Ok <==> old(self).limiter.decision_admits(reading))
                    &&& (final(self).request, out) == apply_decision_spec(
                        pre_check_spec(
                            old(self).request,
                            old(self).timeout_ns,
                            now_ns,
                            inner_ready,
                        ).0,
                        old(self).fail_fast,
                        old(self).timeout_ns,
                        now_ns,
                        d,
                    )
                },
            out is Ready ==> final(self).request.permit_acquired,
            !old(self).fail_fast ==> !(out matches PollOutcome::Failed(
                ShotError::RateLimited { .. },
            )),
    {
        poll_permit(
            &mut self.limiter,
            &mut self.request,
            self.fail_fast,
            self.timeout_ns,
            now_ns,
            inner_ready,
        )
    }

    /// Consumes the permit for the downstream call; see `take_permit`.
    pub fn call_budget(&mut self, now_ns: u64) -> (budget: Option<u64>)
        requires
            old(self).wf(),
            old(self).request.permit_acquired,
        ensures
            final(self).wf(),
            final(self).limiter == old(self).limiter,
            final(self).fail_fast == old(self).fail_fast,
            final(self).timeout_ns == old(self).timeout_ns,
            !final(self).request.permit_acquired,
            final(self).request.wait_start_ns is None,
            budget == call_budget_spec(old(self).timeout_ns, old(self).request.wait_start_ns, now_ns),
    {
        take_permit(&mut self.request, self.timeout_ns, now_ns)
    }

    /// Resets the per-request bookkeeping, as a clone of the middleware
    /// starts with: the strategy and options carry over, sleep handles and
    /// permits do not.
    pub fn reset_request(&mut self)
        requires
            old(self).wf(),
        ensures
            final(self).wf(),
            final(self).limiter == old(self).limiter,
            final(self).fail_fast == old(self).fail_fast,
            final(self).timeout_ns == old(self).timeout_ns,
            final(self).request == RequestState::init(),
    {
        self.request = RequestState::new();
    }
}

} // verus!
