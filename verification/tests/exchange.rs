use lakgves::errors::AppError;
use lakgves::exchange::ExchangeOutcome;
use lakgves::exchange::IoEvent;
use lakgves::exchange::complete_exchange;
use lakgves::exchange::exchange_bytes;
use lakgves::exchange::resolve_exchange;
use lakgves::exchange::DEFAULT_TIMEOUT_SECS;
use lakgves::exchange::EXCHANGE_BUFFER_CAPACITY;

#[test]
fn completed_exchange_returns_the_bytes_read() {
    let outcome = resolve_exchange(5, Some(2), Some((3, vec![1, 2, 3])));
    match outcome {
        ExchangeOutcome::Response(bytes) => assert_eq!(bytes, vec![1, 2, 3]),
        ExchangeOutcome::Failure(e) => panic!("expected a response, got {:?}", e),
    }
}

#[test]
fn exchange_over_deadline_is_io_error() {
    let outcome = resolve_exchange(1, Some(0), Some((2, vec![1])));
    assert!(matches!(outcome, ExchangeOutcome::Failure(AppError::IoError(_))));
}

#[test]
fn exchange_exactly_on_deadline_is_a_response() {
    let outcome = resolve_exchange(1, Some(0), Some((1, vec![9])));
    assert!(matches!(outcome, ExchangeOutcome::Response(b) if b == vec![9]));
}

#[test]
fn failed_write_is_io_error() {
    let outcome = resolve_exchange(5, None, None);
    assert!(matches!(outcome, ExchangeOutcome::Failure(AppError::IoError(_))));
}

#[test]
fn failed_read_is_io_error() {
    let outcome = resolve_exchange(5, Some(1), None);
    assert!(matches!(outcome, ExchangeOutcome::Failure(AppError::IoError(_))));
}

#[test]
fn runtime_completion_becomes_a_response() {
    let outcome = complete_exchange(IoEvent::Completed(vec![4, 5]));
    assert!(matches!(outcome, ExchangeOutcome::Response(b) if b == vec![4, 5]));
}

#[test]
fn runtime_timeout_becomes_io_error() {
    let outcome = complete_exchange(IoEvent::TimedOut);
    assert!(matches!(outcome, ExchangeOutcome::Failure(AppError::IoError(_))));
}

#[test]
fn socket_failure_keeps_its_detail() {
    let outcome = complete_exchange(IoEvent::SocketError(String::from("connection reset")));
    match outcome {
        ExchangeOutcome::Failure(AppError::IoError(d)) => assert_eq!(d, "connection reset"),
        other => panic!("expected an I/O failure, got {:?}", other),
    }
}

#[test]
fn completed_outcome_unwraps_to_its_bytes() {
    let r = exchange_bytes(ExchangeOutcome::Response(vec![1, 2]));
    assert_eq!(r.unwrap(), vec![1, 2]);
}

#[test]
fn failed_outcome_unwraps_to_its_classification() {
    let r = exchange_bytes(ExchangeOutcome::Failure(AppError::IoError(String::from("timed out"))));
    match r {
        Err(AppError::IoError(d)) => assert_eq!(d, "timed out"),
        other => panic!("expected the I/O failure back, got {:?}", other),
    }
}

#[test]
fn reference_sizing_constants() {
    assert_eq!(EXCHANGE_BUFFER_CAPACITY, 8192);
    assert_eq!(DEFAULT_TIMEOUT_SECS, 5);
}
