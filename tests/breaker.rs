use std::cell::Cell;

use circuit_breaker::{CircuitBreaker, CircuitBreakerError, State};

fn fail(calls: &Cell<u32>) -> impl FnOnce() -> Result<u32, &'static str> + '_ {
    move || {
        calls.set(calls.get() + 1);
        Err("boom")
    }
}

fn succeed(calls: &Cell<u32>) -> impl FnOnce() -> Result<u32, &'static str> + '_ {
    move || {
        calls.set(calls.get() + 1);
        Ok(7)
    }
}

fn is_operation_error(r: &Result<u32, CircuitBreakerError<&'static str>>) -> bool {
    matches!(r, Err(CircuitBreakerError::OperationError("boom")))
}

fn is_open_circuit(r: &Result<u32, CircuitBreakerError<&'static str>>) -> bool {
    matches!(r, Err(CircuitBreakerError::OpenCircuit))
}

#[test]
fn new_breaker_is_closed() {
    let b = CircuitBreaker::new(3, 250);
    assert_eq!(b.state(), State::Closed);
    assert_eq!(b.failure_count(), 0);
    assert_eq!(b.failure_threshold(), 3);
    assert_eq!(b.reset_timeout(), 250);
}

#[test]
fn failures_up_to_threshold_stay_closed() {
    let calls = Cell::new(0);
    let mut b = CircuitBreaker::new(4, 100);
    for i in 0..4u64 {
        let r = b.try_call(i, fail(&calls));
        assert!(is_operation_error(&r));
        assert_eq!(b.state(), State::Closed);
        assert_eq!(b.failure_count(), i + 1);
    }
    assert_eq!(calls.get(), 4);
}

#[test]
fn failure_past_threshold_trips() {
    let calls = Cell::new(0);
    let mut b = CircuitBreaker::new(1, 100);
    assert!(is_operation_error(&b.try_call(10, fail(&calls))));
    assert!(is_operation_error(&b.try_call(20, fail(&calls))));
    assert_eq!(b.state(), State::Open(120));
    assert_eq!(calls.get(), 2);
    for now in [20u64, 50, 119] {
        assert!(is_open_circuit(&b.try_call(now, succeed(&calls))));
    }
    assert_eq!(calls.get(), 2);
    assert_eq!(b.state(), State::Open(120));
}

#[test]
fn success_in_closed_keeps_count() {
    let calls = Cell::new(0);
    let mut b = CircuitBreaker::new(2, 100);
    assert!(is_operation_error(&b.try_call(0, fail(&calls))));
    assert_eq!(b.try_call(1, succeed(&calls)).ok(), Some(7));
    assert_eq!(b.failure_count(), 1);
    assert!(is_operation_error(&b.try_call(2, fail(&calls))));
    assert!(is_operation_error(&b.try_call(3, fail(&calls))));
    assert_eq!(b.state(), State::Open(103));
}

#[test]
fn one_probe_per_expiry() {
    let calls = Cell::new(0);
    let mut b = CircuitBreaker::new(0, 100);
    assert!(is_operation_error(&b.try_call(0, fail(&calls))));
    assert_eq!(calls.get(), 1);
    // The probe fails: the callers right behind it are refused.
    assert!(is_operation_error(&b.try_call(100, fail(&calls))));
    assert_eq!(calls.get(), 2);
    for _ in 0..5 {
        assert!(is_open_circuit(&b.try_call(100, succeed(&calls))));
    }
    assert_eq!(calls.get(), 2);
    assert_eq!(b.state(), State::Open(200));
}

#[test]
fn begin_call_moves_expired_breaker_to_half_open() {
    let calls = Cell::new(0);
    let mut b = CircuitBreaker::new(0, 100);
    assert!(is_operation_error(&b.try_call(0, fail(&calls))));
    assert!(!b.begin_call(99));
    assert_eq!(b.state(), State::Open(100));
    assert!(b.begin_call(100));
    assert_eq!(b.state(), State::HalfOpen);
    b.record_failure(130);
    assert_eq!(b.state(), State::Open(230));
    assert!(b.begin_call(230));
    b.record_success();
    assert_eq!(b.state(), State::Closed);
    assert_eq!(b.failure_count(), 0);
}

#[test]
fn successful_probe_resets_count() {
    let calls = Cell::new(0);
    let mut b = CircuitBreaker::new(2, 100);
    for now in 0..3u64 {
        assert!(is_operation_error(&b.try_call(now, fail(&calls))));
    }
    assert_eq!(b.failure_count(), 3);
    assert_eq!(b.try_call(102, succeed(&calls)).ok(), Some(7));
    assert_eq!(b.state(), State::Closed);
    assert_eq!(b.failure_count(), 0);
    assert!(is_operation_error(&b.try_call(103, fail(&calls))));
    assert!(is_operation_error(&b.try_call(104, fail(&calls))));
    assert_eq!(b.state(), State::Closed);
    assert!(is_operation_error(&b.try_call(105, fail(&calls))));
    assert_eq!(b.state(), State::Open(205));
}

#[test]
fn failed_probe_reopens_later() {
    let calls = Cell::new(0);
    let mut b = CircuitBreaker::new(0, 100);
    assert!(is_operation_error(&b.try_call(5, fail(&calls))));
    assert_eq!(b.state(), State::Open(105));
    assert!(is_operation_error(&b.try_call(140, fail(&calls))));
    assert_eq!(b.state(), State::Open(240));
}

#[test]
fn reset_instant_holds_at_clock_end() {
    let calls = Cell::new(0);
    let mut b = CircuitBreaker::new(0, 100);
    assert!(is_operation_error(&b.try_call(u64::MAX - 10, fail(&calls))));
    assert_eq!(b.state(), State::Open(u64::MAX));
}

#[test]
fn threshold_two_timeout_hundred_scenario() {
    let calls = Cell::new(0);
    let mut b = CircuitBreaker::new(2, 100);
    assert!(is_operation_error(&b.try_call(0, fail(&calls))));
    assert!(is_operation_error(&b.try_call(10, fail(&calls))));
    assert_eq!(b.state(), State::Closed);
    assert!(is_operation_error(&b.try_call(20, fail(&calls))));
    assert_eq!(b.state(), State::Open(120));
    assert!(is_open_circuit(&b.try_call(60, succeed(&calls))));
    assert_eq!(calls.get(), 3);
    assert_eq!(b.try_call(120, succeed(&calls)).ok(), Some(7));
    assert_eq!(b.state(), State::Closed);
    assert_eq!(b.failure_count(), 0);
    assert!(is_operation_error(&b.try_call(130, fail(&calls))));
    assert!(is_operation_error(&b.try_call(140, fail(&calls))));
    assert_eq!(b.state(), State::Closed);
    assert!(is_operation_error(&b.try_call(150, fail(&calls))));
    assert_eq!(b.state(), State::Open(250));
}
