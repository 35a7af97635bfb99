use lanai_infrastructure::resilience::{
    clock_reading, CircuitBreaker, CircuitBreakerError, CircuitBreakerOutcome,
    CircuitBreakerResult, CircuitState,
};

#[test]
fn test_circuit_breaker_stays_closed_on_success() {
    let mut cb = CircuitBreaker::new(3, 5_000);

    let result: CircuitBreakerResult<i32, &str> = cb.call(|| Ok(42));
    assert!(result.is_ok());
    assert_eq!(cb.state(), CircuitState::Closed);
}

#[test]
fn test_circuit_breaker_opens_after_threshold() {
    let mut cb = CircuitBreaker::new(2, 5_000);

    // First failure
    let _: CircuitBreakerResult<i32, &str> = cb.call(|| Err("fail1"));
    assert_eq!(cb.state(), CircuitState::Closed);

    // Second failure - should open
    let _: CircuitBreakerResult<i32, &str> = cb.call(|| Err("fail2"));
    assert_eq!(cb.state(), CircuitState::Open);
}

#[test]
fn test_circuit_breaker_rejects_when_open() {
    let mut cb = CircuitBreaker::new(1, 60_000);

    // Trigger opening
    let _: CircuitBreakerResult<i32, &str> = cb.call(|| Err("fail"));
    assert_eq!(cb.state(), CircuitState::Open);

    // Next call should be rejected
    let result: CircuitBreakerResult<i32, &str> = cb.call(|| Ok(42));
    assert!(matches!(result, Err(CircuitBreakerOutcome::CircuitOpen)));
}

#[test]
fn new_breaker_is_closed_with_two_probes_needed() {
    let cb = CircuitBreaker::new(5, 30_000);
    assert_eq!(cb.state(), CircuitState::Closed);
    assert_eq!(cb.failure_count(), 0);
    assert_eq!(cb.success_count(), 0);
    assert_eq!(cb.last_failure_time(), None);
    assert_eq!(cb.failure_threshold(), 5);
    assert_eq!(cb.success_threshold(), 2);
    assert_eq!(cb.reset_timeout(), 30_000);
    let cb = cb.with_success_threshold(7);
    assert_eq!(cb.success_threshold(), 7);
    assert_eq!(cb.failure_threshold(), 5);
}

#[test]
fn threshold_failures_open_the_circuit() {
    for threshold in 1u32..6 {
        let mut cb = CircuitBreaker::new(threshold, 1_000);
        for n in 1..=threshold {
            let result: CircuitBreakerResult<(), u32> = cb.call_at(u64::from(n), || Err(n));
            assert!(matches!(result, Err(CircuitBreakerOutcome::OperationError(e)) if e == n));
            if n < threshold {
                assert_eq!(cb.state(), CircuitState::Closed);
                assert_eq!(cb.failure_count(), n);
            }
        }
        assert_eq!(cb.state(), CircuitState::Open);
        assert_eq!(cb.failure_count(), threshold);
        assert_eq!(cb.last_failure_time(), Some(u64::from(threshold)));
    }
}

#[test]
fn success_clears_the_failure_streak() {
    let mut cb = CircuitBreaker::new(3, 1_000);
    let _: CircuitBreakerResult<(), ()> = cb.call_at(0, || Err(()));
    let _: CircuitBreakerResult<(), ()> = cb.call_at(1, || Err(()));
    assert_eq!(cb.failure_count(), 2);
    let _: CircuitBreakerResult<(), ()> = cb.call_at(2, || Ok(()));
    assert_eq!(cb.failure_count(), 0);
    assert_eq!(cb.state(), CircuitState::Closed);
    let _: CircuitBreakerResult<(), ()> = cb.call_at(3, || Err(()));
    let _: CircuitBreakerResult<(), ()> = cb.call_at(4, || Err(()));
    assert_eq!(cb.state(), CircuitState::Closed);
}

#[test]
fn open_circuit_never_invokes_the_operation() {
    let mut cb = CircuitBreaker::new(1, 1_000);
    let _: CircuitBreakerResult<(), ()> = cb.call_at(100, || Err(()));
    assert_eq!(cb.state(), CircuitState::Open);
    let mut invoked = 0;
    for now in [100u64, 101, 500, 1_099, 50] {
        let result: CircuitBreakerResult<i32, ()> = cb.call_at(now, || {
            invoked += 1;
            Ok(1)
        });
        assert!(matches!(result, Err(CircuitBreakerOutcome::CircuitOpen)));
        assert_eq!(cb.state(), CircuitState::Open);
        assert_eq!(cb.failure_count(), 1);
        assert_eq!(cb.last_failure_time(), Some(100));
    }
    assert_eq!(invoked, 0);
}

#[test]
fn call_after_timeout_probes_and_invokes() {
    let mut cb = CircuitBreaker::new(1, 1_000).with_success_threshold(3);
    let _: CircuitBreakerResult<(), ()> = cb.call_at(100, || Err(()));
    let mut invoked = 0;
    let result: CircuitBreakerResult<i32, ()> = cb.call_at(1_100, || {
        invoked += 1;
        Ok(7)
    });
    assert!(matches!(result, Ok(7)));
    assert_eq!(invoked, 1);
    assert_eq!(cb.state(), CircuitState::HalfOpen);
    assert_eq!(cb.success_count(), 1);
}

#[test]
fn begin_call_decides_without_running_anything() {
    let mut cb = CircuitBreaker::new(1, 1_000);
    assert!(cb.begin_call(0));
    cb.record_failure(10);
    assert_eq!(cb.state(), CircuitState::Open);
    assert!(!cb.begin_call(1_009));
    assert_eq!(cb.state(), CircuitState::Open);
    assert!(cb.begin_call(1_010));
    assert_eq!(cb.state(), CircuitState::HalfOpen);
    assert_eq!(cb.success_count(), 0);
}

#[test]
fn threshold_successes_close_the_circuit() {
    for threshold in 1u32..5 {
        let mut cb = CircuitBreaker::new(2, 1_000).with_success_threshold(threshold);
        let _: CircuitBreakerResult<(), ()> = cb.call_at(0, || Err(()));
        let _: CircuitBreakerResult<(), ()> = cb.call_at(0, || Err(()));
        assert_eq!(cb.state(), CircuitState::Open);
        assert!(cb.begin_call(1_000));
        assert_eq!(cb.state(), CircuitState::HalfOpen);
        for n in 1..=threshold {
            let result: CircuitBreakerResult<u32, ()> = cb.call_at(1_000 + u64::from(n), || Ok(n));
            assert!(matches!(result, Ok(v) if v == n));
            if n < threshold {
                assert_eq!(cb.state(), CircuitState::HalfOpen);
                assert_eq!(cb.success_count(), n);
            }
        }
        assert_eq!(cb.state(), CircuitState::Closed);
        assert_eq!(cb.failure_count(), 0);
        assert_eq!(cb.success_count(), 0);
    }
}

#[test]
fn probe_failure_reopens_whatever_was_counted() {
    let mut cb = CircuitBreaker::new(1, 1_000).with_success_threshold(5);
    let _: CircuitBreakerResult<(), ()> = cb.call_at(0, || Err(()));
    for now in 1_000u64..1_004 {
        let _: CircuitBreakerResult<(), ()> = cb.call_at(now, || Ok(()));
    }
    assert_eq!(cb.state(), CircuitState::HalfOpen);
    assert_eq!(cb.success_count(), 4);
    let result: CircuitBreakerResult<(), &str> = cb.call_at(1_500, || Err("down"));
    assert!(matches!(result, Err(CircuitBreakerOutcome::OperationError("down"))));
    assert_eq!(cb.state(), CircuitState::Open);
    assert_eq!(cb.last_failure_time(), Some(1_500));
    assert_eq!(cb.failure_count(), 2);
    let again: CircuitBreakerResult<(), &str> = cb.call_at(2_499, || Ok(()));
    assert!(matches!(again, Err(CircuitBreakerOutcome::CircuitOpen)));
    assert!(cb.begin_call(2_500));
    assert_eq!(cb.success_count(), 0);
}

#[test]
fn late_outcomes_on_an_open_circuit() {
    let mut cb = CircuitBreaker::new(2, 1_000);
    cb.record_failure(5);
    cb.record_failure(6);
    assert_eq!(cb.state(), CircuitState::Open);
    cb.record_success();
    assert_eq!(cb.state(), CircuitState::Open);
    assert_eq!(cb.failure_count(), 2);
    cb.record_failure(9);
    assert_eq!(cb.failure_count(), 3);
    assert_eq!(cb.last_failure_time(), Some(9));
}

#[test]
fn failure_threshold_of_zero_opens_at_the_first_failure() {
    let mut cb = CircuitBreaker::new(0, 10);
    assert_eq!(cb.state(), CircuitState::Closed);
    let _: CircuitBreakerResult<(), ()> = cb.call_at(0, || Ok(()));
    assert_eq!(cb.state(), CircuitState::Closed);
    let _: CircuitBreakerResult<(), ()> = cb.call_at(1, || Err(()));
    assert_eq!(cb.state(), CircuitState::Open);
}

#[test]
fn settle_hands_the_outcome_on() {
    let mut cb = CircuitBreaker::new(1, 10);
    let ok: CircuitBreakerResult<&str, i32> = cb.settle(Ok("fine"), 3);
    assert!(matches!(ok, Ok("fine")));
    let err: CircuitBreakerResult<&str, i32> = cb.settle(Err(-4), 4);
    assert!(matches!(err, Err(CircuitBreakerOutcome::OperationError(-4))));
    assert_eq!(cb.state(), CircuitState::Open);
    assert_eq!(cb.last_failure_time(), Some(4));
}

#[test]
fn reset_closes_and_clears() {
    let mut cb = CircuitBreaker::new(1, 60_000);
    let _: CircuitBreakerResult<(), ()> = cb.call_at(0, || Err(()));
    assert_eq!(cb.state(), CircuitState::Open);
    cb.reset();
    assert_eq!(cb.state(), CircuitState::Closed);
    assert_eq!(cb.failure_count(), 0);
    assert_eq!(cb.success_count(), 0);
    let result: CircuitBreakerResult<i32, ()> = cb.call_at(1, || Ok(3));
    assert!(matches!(result, Ok(3)));
}

#[test]
fn counters_hold_at_the_largest_value() {
    let mut cb = CircuitBreaker::new(u32::MAX, 0);
    cb.record_failure(0);
    assert_eq!(cb.failure_count(), 1);
    assert_eq!(cb.state(), CircuitState::Closed);
}

#[test]
fn breaker_clock_does_not_run_backwards() {
    let cb = CircuitBreaker::new(1, 1);
    let first = cb.now();
    let second = cb.now();
    assert!(second >= first);
}

#[test]
fn error_messages() {
    assert_eq!(
        CircuitBreakerError::Open.message(),
        "Circuit breaker is open. Service unavailable."
    );
    assert_eq!(CircuitBreakerError::Timeout.message(), "Operation timed out");
    assert_eq!(
        CircuitBreakerError::OperationFailed("boom".to_string()).message(),
        "Operation failed: boom"
    );
    let open: CircuitBreakerOutcome<i32> = CircuitBreakerOutcome::CircuitOpen;
    assert_eq!(open.message(|e| e.to_string()), "Circuit breaker is open");
    let failed = CircuitBreakerOutcome::OperationError(12);
    assert_eq!(failed.message(|e| e.to_string()), "Operation error: 12");
}

#[test]
fn clock_readings_are_held_at_the_largest_instant() {
    assert_eq!(clock_reading(0), 0);
    assert_eq!(clock_reading(1_500), 1_500);
    assert_eq!(clock_reading(u128::from(u64::MAX)), u64::MAX);
    assert_eq!(clock_reading(u128::from(u64::MAX) + 1), u64::MAX);
    assert_eq!(clock_reading(u128::MAX), u64::MAX);
}
