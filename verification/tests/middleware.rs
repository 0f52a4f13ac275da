use shot_limit::managed::retry_poll_ready;
use shot_limit::managed::retry_step;
use shot_limit::managed::ManagedLatencyLayer;
use shot_limit::managed::ManagedThroughputLayer;
use shot_limit::managed::RetryStep;
use shot_limit::service::poll_permit;
use shot_limit::service::take_permit;
use shot_limit::BufferedRateLimitLayer;
use shot_limit::FixedWindow;
use shot_limit::ManagedRateLimitLayer;
use shot_limit::PollOutcome;
use shot_limit::RateLimitLayer;
use shot_limit::RateLimitService;
use shot_limit::RequestState;
use shot_limit::ShotError;

const MS: u64 = 1_000_000;

#[test]
fn permit_granted_then_consumed_once() {
    let fw = FixedWindow::new(1, 60_000 * MS);
    let mut svc = RateLimitService::new(fw);
    let out = svc.poll_ready_step(0, true);
    assert!(matches!(out, PollOutcome::Ready));
    assert!(svc.request.permit_acquired);

    let budget = svc.call_budget(5);
    assert_eq!(budget, None);
    assert!(!svc.request.permit_acquired);
}

#[test]
fn downstream_not_ready_keeps_permit_undrawn() {
    let fw = FixedWindow::new(1, 60_000 * MS);
    let mut svc = RateLimitService::new(fw);
    // The downstream is not ready: the strategy must not be consulted, so
    // the single permit is still there for the next poll.
    let out = svc.poll_ready_step(0, false);
    assert!(matches!(out, PollOutcome::NotReady));
    assert!(!svc.request.permit_acquired);
    let out = svc.poll_ready_step(1, true);
    assert!(matches!(out, PollOutcome::Ready));
}

#[test]
fn waiting_mode_schedules_sleep_not_rate_limited() {
    // The strategy and the middleware share one mocked timeline.
    let (clock, mock) = quanta::Clock::mock();
    let fw = FixedWindow::with_clock(1, 10 * MS, clock);
    let mut svc = RateLimitService::new(fw);
    assert!(matches!(svc.poll_ready_step(0, true), PollOutcome::Ready));
    let _ = svc.call_budget(0);
    // Second request: rejected at reading 4 ms; the window ends at 10 ms,
    // so the handle sleeps until then rather than failing.
    mock.increment(std::time::Duration::from_millis(4));
    let out = svc.poll_ready_step(4 * MS, true);
    match out {
        PollOutcome::SleepFor { wake_at_ns } => assert_eq!(wake_at_ns, 10 * MS),
        _ => panic!("waiting mode must sleep on rejection"),
    }
    assert_eq!(svc.request.sleep_until_ns, Some(10 * MS));
    // Polls before the wakeup stay pending; at the wakeup the rotation has
    // a fresh window and the poll succeeds.
    assert!(matches!(svc.poll_ready_step(6 * MS, true), PollOutcome::NotReady));
    mock.increment(std::time::Duration::from_nanos(6 * MS + 1));
    assert!(matches!(
        svc.poll_ready_step(10 * MS + 1, true),
        PollOutcome::Ready
    ));
}

#[test]
fn zero_retry_hint_yields_instead_of_spinning() {
    // A strategy reporting retry_after = 0: the poll schedules a wakeup at
    // the current reading — a yield to the scheduler — and never an
    // inline retry or a busy spin.
    let (clock, mock) = quanta::Clock::mock();
    let fw = FixedWindow::with_clock(1, 10 * MS, clock);
    let mut svc = RateLimitService::new(fw);
    assert!(matches!(svc.poll_ready_step(0, true), PollOutcome::Ready));
    let _ = svc.call_budget(0);
    // At the exact window end the hint is expires - now = 0.
    mock.increment(std::time::Duration::from_millis(10));
    let out = svc.poll_ready_step(10 * MS, true);
    match out {
        PollOutcome::SleepFor { wake_at_ns } => assert_eq!(wake_at_ns, 10 * MS),
        _ => panic!("a zero hint must still yield"),
    }
}

#[test]
fn fail_fast_surfaces_rate_limited_with_hint() {
    let (clock, mock) = quanta::Clock::mock();
    let fw = FixedWindow::with_clock(1, 10 * MS, clock);
    let mut svc = RateLimitService::new(fw).with_fail_fast(true);
    assert!(matches!(svc.poll_ready_step(0, true), PollOutcome::Ready));
    let _ = svc.call_budget(0);
    mock.increment(std::time::Duration::from_millis(4));
    let out = svc.poll_ready_step(4 * MS, true);
    match out {
        PollOutcome::Failed(ShotError::RateLimited { retry_after_ns }) => {
            assert_eq!(retry_after_ns, 6 * MS)
        },
        _ => panic!("fail-fast mode must surface RateLimited"),
    }
}

#[test]
fn deadline_of_zero_times_out_before_consulting() {
    let fw = FixedWindow::new(1, 10 * MS);
    let mut svc = RateLimitService::new(fw).with_timeout(0);
    let out = svc.poll_ready_step(7, true);
    assert!(matches!(out, PollOutcome::Failed(ShotError::Timeout)));
    // The untouched permit is still there once the deadline bookkeeping
    // is reset for a new request.
    assert!(!svc.request.permit_acquired);
}

#[test]
fn sleep_capped_by_remaining_deadline_then_timeout() {
    let (clock, mock) = quanta::Clock::mock();
    let fw = FixedWindow::with_clock(1, 100 * MS, clock);
    let mut svc = RateLimitService::new(fw).with_timeout(10 * MS);
    assert!(matches!(svc.poll_ready_step(0, true), PollOutcome::Ready));
    let _ = svc.call_budget(0);
    // The second request starts its deadline at reading 2 ms and is
    // rejected with a 98 ms hint, but only 10 ms of deadline exist: the
    // sleep is capped at reading 12 ms.
    mock.increment(std::time::Duration::from_millis(2));
    let out = svc.poll_ready_step(2 * MS, true);
    match out {
        PollOutcome::SleepFor { wake_at_ns } => assert_eq!(wake_at_ns, 12 * MS),
        _ => panic!("expected a capped sleep"),
    }
    // Waking at the deadline finds it spent.
    mock.increment(std::time::Duration::from_millis(10));
    let out = svc.poll_ready_step(12 * MS, true);
    assert!(matches!(out, PollOutcome::Failed(ShotError::Timeout)));
}

#[test]
fn call_budget_subtracts_waited_time() {
    let fw = FixedWindow::new(2, 100 * MS);
    let mut svc = RateLimitService::new(fw).with_timeout(50 * MS);
    assert!(matches!(svc.poll_ready_step(0, true), PollOutcome::Ready));
    // The first poll started the deadline at reading 0; by the time the
    // call is made at 20 ms, 30 ms of budget remain.
    let budget = svc.call_budget(20 * MS);
    assert_eq!(budget, Some(30 * MS));
}

#[test]
fn shared_strategy_capacity_across_instances() {
    // Two middleware instances over one shared limit-1 strategy: the
    // first to poll is admitted, the second is parked.
    let mut fw = FixedWindow::new(1, 60_000 * MS);
    let mut a = RequestState::new();
    let mut b = RequestState::new();
    let out_a = poll_permit(&mut fw, &mut a, false, None, 0, true);
    assert!(matches!(out_a, PollOutcome::Ready));
    let out_b = poll_permit(&mut fw, &mut b, false, None, 1, true);
    assert!(matches!(out_b, PollOutcome::SleepFor { .. }));
    // Only one downstream call happens.
    let _ = take_permit(&mut a, None, 2);
    assert!(!a.permit_acquired);
    assert!(!b.permit_acquired);
}

#[test]
fn latency_discipline_sheds_fifteen_of_twenty() {
    // Twenty concurrent requests against FixedWindow(5, 60 s) under the
    // latency discipline: exactly five reach the downstream; the other
    // fifteen are parked, which the load-shed boundary reports as
    // Overloaded.
    let layer = ManagedLatencyLayer::new(FixedWindow::new(5, 60_000 * MS), 100 * MS);
    let mut svc = layer.into_service();
    let mut handles: Vec<RequestState> = (0..20).map(|_| RequestState::new()).collect();
    let mut forwarded = 0;
    let mut shed = 0;
    for (i, h) in handles.iter_mut().enumerate() {
        let out = poll_permit(&mut svc.limiter, h, svc.fail_fast, svc.timeout_ns, i as u64, true);
        match out {
            PollOutcome::Ready => {
                let _ = take_permit(h, svc.timeout_ns, i as u64);
                forwarded += 1;
            },
            PollOutcome::SleepFor { .. } | PollOutcome::NotReady => {
                let e = shot_limit::error::unify_latency_error(shot_limit::StageError::Shed);
                assert!(matches!(e, ShotError::Overloaded));
                shed += 1;
            },
            PollOutcome::Failed(_) => panic!("waiting mode must not fail here"),
        }
    }
    assert_eq!(forwarded, 5, "Should have exactly 5 successes");
    assert_eq!(shed, 15, "Remaining 15 should have been shed");
}

#[test]
fn throughput_discipline_times_out_fifteen_of_twenty() {
    // The same twenty requests under the throughput discipline: the
    // fail-fast middleware rejects fifteen with a hint near the window
    // length, far past the 100 ms deadline, so the retry loop's outer
    // deadline reports Timeout for them.
    let layer = ManagedThroughputLayer::new(FixedWindow::new(5, 60_000 * MS), 100 * MS);
    let max_wait = layer.max_wait_ns;
    let mut svc = layer.into_service();
    let mut handles: Vec<RequestState> = (0..20).map(|_| RequestState::new()).collect();
    let mut forwarded = 0;
    let mut timed_out = 0;
    for (i, h) in handles.iter_mut().enumerate() {
        let out = poll_permit(&mut svc.limiter, h, svc.fail_fast, svc.timeout_ns, i as u64, true);
        match out {
            PollOutcome::Ready => {
                let _ = take_permit(h, svc.timeout_ns, i as u64);
                forwarded += 1;
            },
            PollOutcome::Failed(e) => {
                match retry_step(Err(e)) {
                    RetryStep::SleepThenRetry { retry_after_ns } => {
                        assert!(retry_after_ns > max_wait);
                        let unified = shot_limit::error::unify_throughput_error(
                            shot_limit::StageError::DeadlineElapsed,
                        );
                        assert!(matches!(unified, ShotError::Timeout));
                        timed_out += 1;
                    },
                    _ => panic!("a fail-fast rejection must ask for a retry"),
                }
            },
            _ => panic!("fail-fast mode must not park"),
        }
    }
    assert_eq!(forwarded, 5, "Inner service should only see 5 hits");
    assert_eq!(timed_out, 15);
}

#[test]
fn retry_adapter_reports_rate_limited_as_ready() {
    let r = retry_poll_ready(Err(ShotError::RateLimited { retry_after_ns: 7 }));
    assert!(r.is_ok());
    let r = retry_poll_ready(Err(ShotError::Overloaded));
    assert!(matches!(r, Err(ShotError::Overloaded)));
    let r = retry_poll_ready(Ok(()));
    assert!(r.is_ok());
}

#[test]
fn retry_step_decides_sleep_or_giveup() {
    assert!(matches!(retry_step(Ok(())), RetryStep::Attempt));
    match retry_step(Err(ShotError::RateLimited { retry_after_ns: 9 })) {
        RetryStep::SleepThenRetry { retry_after_ns } => assert_eq!(retry_after_ns, 9),
        _ => panic!("rate limited must sleep and retry"),
    }
    assert!(matches!(
        retry_step(Err(ShotError::Timeout)),
        RetryStep::GiveUp(ShotError::Timeout)
    ));
}

#[test]
fn layer_builders_carry_options() {
    let layer = RateLimitLayer::new(FixedWindow::new(2, 10 * MS))
        .with_fail_fast(true)
        .with_timeout(5 * MS);
    let svc = layer.into_service();
    assert!(svc.fail_fast);
    assert_eq!(svc.timeout_ns, Some(5 * MS));
    assert!(!svc.request.permit_acquired);
}

#[test]
fn buffered_layer_sizes_buffer_with_headroom() {
    let layer = BufferedRateLimitLayer::new(FixedWindow::new(100, 10 * MS), 100);
    assert_eq!(layer.buffer_size, 125);
    let layer = BufferedRateLimitLayer::new(FixedWindow::new(8, 10 * MS), 8);
    assert_eq!(layer.buffer_size, 18);
}

#[test]
fn managed_layer_holds_buffer_and_deadline() {
    let layer = ManagedRateLimitLayer::new(FixedWindow::new(40, 10 * MS), 40, 250 * MS);
    assert_eq!(layer.buffer_size, 50);
    assert_eq!(layer.max_wait_ns, 250 * MS);
    let svc = layer.into_service();
    assert!(!svc.fail_fast);
    assert_eq!(svc.timeout_ns, None);
}

#[test]
fn clone_semantics_reset_request_state() {
    let fw = FixedWindow::new(1, 10 * MS);
    let mut svc = RateLimitService::new(fw).with_timeout(50 * MS);
    let _ = svc.poll_ready_step(0, true);
    let _ = svc.call_budget(1);
    let out = svc.poll_ready_step(2, true);
    assert!(matches!(out, PollOutcome::SleepFor { .. }));
    assert!(svc.request.sleep_until_ns.is_some());
    // A clone of the middleware starts with clean per-request state.
    svc.reset_request();
    assert_eq!(svc.request.sleep_until_ns, None);
    assert!(!svc.request.permit_acquired);
    assert_eq!(svc.request.wait_start_ns, None);
}

#[test]
fn any_strategy_dispatches_by_tag() {
    let mut s = shot_limit::AnyStrategy::Fixed(FixedWindow::new(1, 10 * MS));
    let mut svc = RateLimitService::new(s);
    assert!(matches!(svc.poll_ready_step(0, true), PollOutcome::Ready));
    s = shot_limit::AnyStrategy::Cells(shot_limit::Gcra::new(2, 100 * MS));
    let mut svc2 = RateLimitService::new(s).with_fail_fast(true);
    assert!(matches!(svc2.poll_ready_step(0, true), PollOutcome::Ready));
    let _ = svc2.call_budget(0);
    assert!(matches!(svc2.poll_ready_step(0, true), PollOutcome::Ready));
    let _ = svc2.call_budget(0);
    assert!(matches!(
        svc2.poll_ready_step(0, true),
        PollOutcome::Failed(ShotError::RateLimited { .. })
    ));
}
