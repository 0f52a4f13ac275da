use std::time::Duration;

use shot_limit::gcra::Gcra;
use shot_limit::sliding_window::SlidingWindow;
use shot_limit::token_bucket::TokenBucket;
use shot_limit::FixedWindow;
use shot_limit::Reason;
use shot_limit::Strategy;

const MS: u64 = 1_000_000;

#[test]
fn it_loosely_enforces_limits_without_sleep() {
    let mut rl = SlidingWindow::new(100, 10 * MS);

    let mut count = 0;
    for _i in 0..500 {
        let outcome = rl.process();
        if outcome.is_ok() {
            count += 1;
        }
    }
    assert_eq!(count, 100);
}

#[test]
fn test_gcra_flow_with_capacity_check() {
    let mut rl = Gcra::new(5, 500 * MS);

    assert_eq!(rl.remaining_capacity(), 5);

    for _ in 0..3 {
        let _ = rl.process();
    }
    // If it returns 3, it means the 3rd request hasn't "aged" into a full
    // interval yet.
    let rem = rl.remaining_capacity();
    assert!(
        rem == 2 || rem == 3,
        "Expected 2 or 3 slots remaining, got {}",
        rem
    );

    for _ in 0..2 {
        let _ = rl.process();
    }
    assert_eq!(rl.remaining_capacity(), 0);
}

#[test]
fn fixed_window_single_permit_cycle() {
    // One permit per 10 ms window: admit, reject, admit after the window.
    let mut rl = FixedWindow::new(1, 10 * MS);
    assert_eq!(rl.process_at(0), Ok(()));
    assert!(matches!(rl.process_at(1), Err(Reason::Overloaded { .. })));
    assert_eq!(rl.process_at(10 * MS + 1), Ok(()));
}

#[test]
fn fixed_window_burst_cap_frozen_clock() {
    let mut rl = FixedWindow::new(100, 1_000 * MS);
    let mut admitted = 0;
    for _ in 0..500 {
        if rl.process_at(5).is_ok() {
            admitted += 1;
        }
    }
    assert_eq!(admitted, 100);
}

#[test]
fn fixed_window_reject_hints_window_end() {
    let mut rl = FixedWindow::new(1, 10 * MS);
    let _ = rl.process_at(2 * MS);
    let r = rl.process_at(4 * MS);
    assert_eq!(
        r,
        Err(Reason::Overloaded {
            retry_after_ns: 6 * MS
        })
    );
}

#[test]
fn fixed_window_recovery_after_interval() {
    let mut rl = FixedWindow::new(3, 10 * MS);
    for _ in 0..3 {
        assert_eq!(rl.process_at(1 * MS), Ok(()));
    }
    assert!(rl.process_at(2 * MS).is_err());
    assert_eq!(rl.process_at(12 * MS), Ok(()));
}

#[test]
fn fixed_window_idle_reanchor_leaves_future_boundary() {
    let mut rl = FixedWindow::new(1, 10 * MS);
    let _ = rl.process_at(0);
    // Ten intervals idle; the next decision must admit and re-anchor the
    // window so its end is strictly in the future.
    let now = 100 * MS + 3;
    assert_eq!(rl.process_at(now), Ok(()));
    assert!(now < rl.expires_ns, "Expiry should have jumped to the future");
    assert!(rl.expires_ns % rl.interval_ns == 0);
}

#[test]
fn fixed_window_boundary_burst_is_by_design() {
    // Up to two full capacities may land inside one interval span that
    // straddles a window boundary.
    let mut rl = FixedWindow::new(3, 100);
    let mut admitted = 0;
    for _ in 0..3 {
        if rl.process_at(90).is_ok() {
            admitted += 1;
        }
    }
    for _ in 0..3 {
        if rl.process_at(101).is_ok() {
            admitted += 1;
        }
    }
    // Six admissions between readings 90 and 101, a span well under one
    // interval.
    assert_eq!(admitted, 6);
}

#[test]
fn fixed_window_mock_clock_cycle() {
    let (clock, mock) = quanta::Clock::mock();
    let mut rl = FixedWindow::with_clock(1, 10 * MS, clock);
    assert_eq!(rl.process(), Ok(()));
    assert!(rl.process().is_err());
    mock.increment(Duration::from_millis(11));
    assert_eq!(rl.process(), Ok(()));
}

#[test]
fn sliding_window_partial_recovery() {
    // Capacity 2, period 100 ms. Fill window A; 110 ms in, the rotation
    // sees previous = 2 and weight 0.9: the first call passes (estimate
    // 1.8 floored to 1), the second is blocked (estimate 2).
    let mut rl = SlidingWindow::new(2, 100 * MS);
    assert_eq!(rl.process_at(0), Ok(()));
    assert_eq!(rl.process_at(1), Ok(()));
    assert!(
        rl.process_at(110 * MS).is_ok(),
        "First call in new window should pass if weight dropped slightly"
    );
    assert!(rl.process_at(110 * MS).is_err(), "Second call should block");
}

#[test]
fn sliding_window_partial_recovery_retry_hint() {
    let mut rl = SlidingWindow::new(2, 100 * MS);
    let _ = rl.process_at(0);
    let _ = rl.process_at(1);
    let _ = rl.process_at(110 * MS);
    // Estimate 2 against capacity 2 with previous 2: the weighted excess
    // is zero, so the hint is the bare one-millisecond buffer.
    let r = rl.process_at(110 * MS);
    assert_eq!(r, Err(Reason::Overloaded { retry_after_ns: MS }));
}

#[test]
fn sliding_window_prevents_double_burst() {
    // Fill window A (capacity 100, period 100 ms), then step 20 ms into
    // window B: weight 0.8 leaves room for 20 admissions, far below a
    // full second burst.
    let mut rl = SlidingWindow::new(100, 100 * MS);
    for _ in 0..100 {
        assert_eq!(rl.process_at(0), Ok(()));
    }
    let mut extra = 0;
    while rl.process_at(120 * MS).is_ok() {
        extra += 1;
    }
    assert!(extra < 50, "Should not allow a full second burst immediately");
    assert_eq!(extra, 20);
}

#[test]
fn sliding_window_long_idle_reanchors() {
    let mut rl = SlidingWindow::new(10, 10 * MS);
    let _ = rl.process_at(0);
    // Ten periods idle: the next decision admits, the window is around
    // the present, and the previous count is cleared.
    let now = 100 * MS + 7;
    assert!(rl.process_at(now).is_ok());
    assert!(
        rl.window_start_ns <= now,
        "Window start should not be in the future"
    );
    assert!(
        now < rl.window_start_ns + rl.period_ns,
        "Now must fall within the current window"
    );
    assert_eq!(
        rl.previous_count, 0,
        "Previous count should be cleared after long idle"
    );
}

#[test]
fn sliding_window_reject_without_previous_hints_window_end() {
    let mut rl = SlidingWindow::new(1, 100 * MS);
    assert_eq!(rl.process_at(30 * MS), Ok(()));
    // No previous-window contribution: the only relief is the end of the
    // current window, 70 ms away.
    let r = rl.process_at(30 * MS);
    assert_eq!(
        r,
        Err(Reason::Overloaded {
            retry_after_ns: 70 * MS
        })
    );
}

#[test]
fn token_bucket_burst_refill_cycle() {
    // Capacity 2, one token per 100 ms: admit, admit, reject; one period
    // later one token is back: admit, reject.
    let mut rl = TokenBucket::new(2, 1, 100 * MS);
    assert_eq!(rl.process_at(0), Ok(()));
    assert_eq!(rl.process_at(0), Ok(()));
    assert!(matches!(rl.process_at(0), Err(Reason::Overloaded { .. })));
    assert_eq!(rl.process_at(110 * MS), Ok(()));
    assert!(rl.process_at(110 * MS).is_err());
}

#[test]
fn token_bucket_fractional_refill_carries_forward() {
    // Capacity 10, refill 1 per 100 ms. After exhaustion, 250 ms yield
    // exactly two whole tokens; the half token stays behind.
    let mut rl = TokenBucket::new(10, 1, 100 * MS);
    for _ in 0..10 {
        assert_eq!(rl.process_at(0), Ok(()));
    }
    assert!(rl.process_at(0).is_err());
    assert_eq!(rl.process_at(250 * MS), Ok(()));
    assert_eq!(rl.process_at(250 * MS), Ok(()));
    assert!(rl.process_at(250 * MS).is_err());
    assert_eq!(rl.units, 500_000_000);
}

#[test]
fn token_bucket_reject_hints_refill_time() {
    let mut rl = TokenBucket::new(1, 1, 100 * MS);
    assert_eq!(rl.process_at(0), Ok(()));
    // The bucket is empty; one whole token takes a full period.
    let r = rl.process_at(0);
    assert_eq!(
        r,
        Err(Reason::Overloaded {
            retry_after_ns: 100 * MS
        })
    );
}

#[test]
fn token_bucket_mock_clock_accumulates() {
    let (clock, mock) = quanta::Clock::mock();
    let mut rl = TokenBucket::with_clock(10, 1, 100 * MS, clock);
    for _ in 0..10 {
        assert_eq!(rl.process(), Ok(()));
    }
    assert!(rl.process().is_err());
    for _ in 0..3 {
        mock.increment(Duration::from_millis(30));
        let _ = rl.process();
    }
    mock.increment(Duration::from_millis(11));
    assert_eq!(
        rl.process(),
        Ok(()),
        "Token should have accumulated at 101ms"
    );
}

#[test]
fn gcra_burst_then_rate() {
    // Limit 10 per second: ten back-to-back admissions, the eleventh
    // rejects; 250 ms later exactly two slots are back.
    let (clock, mock) = quanta::Clock::mock();
    let mut rl = Gcra::with_clock(10, 1_000 * MS, clock);
    for _ in 0..10 {
        assert_eq!(rl.process(), Ok(()));
    }
    assert_eq!(rl.remaining_capacity(), 0);
    assert!(rl.process().is_err());

    mock.increment(Duration::from_millis(250));
    let rem = rl.remaining_capacity();
    assert_eq!(rem, 2, "Expected exactly 2 slots, found {}", rem);

    assert_eq!(rl.process(), Ok(()));
    assert_eq!(rl.remaining_capacity(), 1);
    assert_eq!(rl.process(), Ok(()));
    assert!(rl.process().is_err());
}

#[test]
fn gcra_burst_cap_frozen_clock() {
    let mut rl = Gcra::new(10, 1_000 * MS);
    let mut admitted = 0;
    for _ in 0..40 {
        if rl.process_at(0).is_ok() {
            admitted += 1;
        }
    }
    assert_eq!(admitted, 10);
}

#[test]
fn gcra_reject_hints_overshoot() {
    let mut rl = Gcra::new(1, 100 * MS);
    assert_eq!(rl.process_at(0), Ok(()));
    // The TAT sits one emission interval (one whole period) ahead: the
    // next conforming slot is a full period away.
    let r = rl.process_at(0);
    assert_eq!(
        r,
        Err(Reason::Overloaded {
            retry_after_ns: 100 * MS
        })
    );
    // A quarter period later the overshoot has shrunk by as much.
    let r = rl.process_at(25 * MS);
    assert_eq!(
        r,
        Err(Reason::Overloaded {
            retry_after_ns: 75 * MS
        })
    );
}

#[test]
fn gcra_tat_never_retreats() {
    let mut rl = Gcra::new(2, 100 * MS);
    let mut last_tat = rl.tat_ns;
    let readings = [0, 10, 10, 5, 200 * MS, 200 * MS, 190 * MS];
    for &now in readings.iter() {
        let _ = rl.process_at(now);
        assert!(rl.tat_ns >= last_tat);
        last_tat = rl.tat_ns;
    }
}

#[test]
fn sliding_window_burst_cap_frozen_clock() {
    let mut rl = SlidingWindow::new(100, 500 * MS);
    let mut admitted = 0;
    for _ in 0..500 {
        if rl.process_at(3).is_ok() {
            admitted += 1;
        }
    }
    assert_eq!(admitted, 100);
}

#[test]
fn token_bucket_burst_cap_frozen_clock() {
    let mut rl = TokenBucket::new(100, 7, 250 * MS);
    let mut admitted = 0;
    for _ in 0..500 {
        if rl.process_at(40).is_ok() {
            admitted += 1;
        }
    }
    assert_eq!(admitted, 100);
}

#[test]
fn fixed_window_sustained_throughput_over_windows() {
    // Three windows of 100 ns, each offered more than the capacity of 3:
    // every window yields exactly its capacity, nine admissions in all.
    let mut rl = FixedWindow::new(3, 100);
    let mut admitted = 0;
    for w in 0..3u64 {
        let now = w * 100 + 50;
        for _ in 0..5 {
            if rl.process_at(now).is_ok() {
                admitted += 1;
            }
        }
    }
    assert_eq!(admitted, 9);
}

#[test]
fn gcra_gauge_matches_admissions_when_divisible() {
    // Emission interval 100 ns, tolerance 400 ns: the gauge is exact.
    let mut rl = Gcra::new(4, 400);
    for _ in 0..4 {
        assert!(rl.remaining_capacity_at(0) >= 1);
        assert_eq!(rl.process_at(0), Ok(()));
    }
    assert_eq!(rl.remaining_capacity_at(0), 0);
    assert!(rl.process_at(0).is_err());
    assert_eq!(rl.remaining_capacity_at(150), 1);
    assert_eq!(rl.process_at(150), Ok(()));
    assert_eq!(rl.remaining_capacity_at(150), 0);
}
