use std::cell::Cell;

use deployer::retry::{retry, retry_with_limit, RetryState};

#[test]
fn retry_succeeds_on_second_attempt() {
    let calls = Cell::new(0u32);
    let result: Result<(), _> = retry(|attempt: u32| {
        calls.set(calls.get() + 1);
        if attempt == 0 {
            Err("first attempt fails")
        } else {
            Ok(())
        }
    });
    assert!(result.is_ok());
    assert_eq!(calls.get(), 2);
}

#[test]
fn retry_returns_immediately_on_success() {
    let calls = Cell::new(0u32);
    let result = retry(|_attempt: u32| {
        calls.set(calls.get() + 1);
        Ok::<(), AlwaysError>(())
    });
    assert!(result.is_ok());
    assert_eq!(calls.get(), 1);
}

#[derive(Debug, PartialEq, Eq)]
struct AlwaysError(u32);

#[test]
fn retry_collects_every_failure() {
    let result: Result<(), _> = retry(|attempt: u32| Err::<(), _>(AlwaysError(attempt)));
    let agg = result.unwrap_err();
    assert_eq!(agg.into_vec(), vec![AlwaysError(0), AlwaysError(1)]);
}

#[test]
fn retry_with_zero_limit_tries_once() {
    let result: Result<(), _> = retry_with_limit(0, |attempt: u32| Err::<(), _>(attempt));
    let agg = result.unwrap_err();
    assert_eq!(agg.into_vec(), vec![0u32]);
}

#[test]
fn retry_state_allows_exactly_limit_retries() {
    let mut state: RetryState<&str> = RetryState::new(1);
    assert!(state.on_failure("first"));
    assert!(!state.on_failure("second"));
    let agg = state.into_aggregate();
    assert_eq!(agg.into_vec(), vec!["first", "second"]);
}
