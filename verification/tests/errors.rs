use shot_limit::error::unify_latency_error;
use shot_limit::error::unify_throughput_error;
use shot_limit::ShotError;
use shot_limit::StageError;

#[test]
fn http_status_per_kind() {
    assert_eq!(ShotError::Timeout.http_status(), 408);
    assert_eq!(ShotError::Overloaded.http_status(), 503);
    assert_eq!(
        ShotError::RateLimited { retry_after_ns: 5 }.http_status(),
        429
    );
    assert_eq!(ShotError::Inner(String::from("boom")).http_status(), 500);
}

#[test]
fn retry_after_seconds_round_up_with_floor_of_one() {
    let e = ShotError::RateLimited { retry_after_ns: 0 };
    assert_eq!(e.retry_after_secs(), 1);
    let e = ShotError::RateLimited { retry_after_ns: 1 };
    assert_eq!(e.retry_after_secs(), 1);
    let e = ShotError::RateLimited {
        retry_after_ns: 1_000_000_000,
    };
    assert_eq!(e.retry_after_secs(), 1);
    let e = ShotError::RateLimited {
        retry_after_ns: 1_500_000_000,
    };
    assert_eq!(e.retry_after_secs(), 2);
    let e = ShotError::RateLimited {
        retry_after_ns: 59_000_000_001,
    };
    assert_eq!(e.retry_after_secs(), 60);
}

#[test]
fn throughput_boundary_unification() {
    assert!(matches!(
        unify_throughput_error(StageError::DeadlineElapsed),
        ShotError::Timeout
    ));
    match unify_throughput_error(StageError::Limit(ShotError::RateLimited {
        retry_after_ns: 3,
    })) {
        ShotError::RateLimited { retry_after_ns } => assert_eq!(retry_after_ns, 3),
        _ => panic!("this crate's errors pass through unchanged"),
    }
    match unify_throughput_error(StageError::Other(String::from("db down"))) {
        ShotError::Inner(msg) => assert_eq!(msg, "db down"),
        _ => panic!("downstream errors become Inner"),
    }
}

#[test]
fn latency_boundary_unification() {
    assert!(matches!(
        unify_latency_error(StageError::Shed),
        ShotError::Overloaded
    ));
    assert!(matches!(
        unify_latency_error(StageError::DeadlineElapsed),
        ShotError::Timeout
    ));
    // A RateLimited at the latency boundary should not occur; it is
    // re-wrapped as Overloaded.
    assert!(matches!(
        unify_latency_error(StageError::Limit(ShotError::RateLimited { retry_after_ns: 9 })),
        ShotError::Overloaded
    ));
    assert!(matches!(
        unify_latency_error(StageError::Limit(ShotError::Timeout)),
        ShotError::Timeout
    ));
    // Inner is preserved, never re-classified.
    match unify_latency_error(StageError::Limit(ShotError::Inner(String::from("oops")))) {
        ShotError::Inner(msg) => assert_eq!(msg, "oops"),
        _ => panic!("Inner must be preserved"),
    }
    match unify_latency_error(StageError::Other(String::from("io"))) {
        ShotError::Inner(msg) => assert_eq!(msg, "io"),
        _ => panic!("downstream errors become Inner"),
    }
}
