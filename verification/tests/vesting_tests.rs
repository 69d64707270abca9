use cascade::errors::ErrorCode;
use cascade::vesting::available;
use cascade::vesting::earned;

#[test]
fn earned_linear_before_cap() {
    assert_eq!(earned(50, 10, 1000), Ok(500));
}

#[test]
fn earned_zero_elapsed() {
    assert_eq!(earned(0, 10, 1000), Ok(0));
}

#[test]
fn earned_zero_rate() {
    assert_eq!(earned(1_000_000, 0, 1000), Ok(0));
}

#[test]
fn earned_capped_at_deposit() {
    assert_eq!(earned(200, 10, 1000), Ok(1000));
    assert_eq!(earned(i64::MAX, 1, 1000), Ok(1000));
}

#[test]
fn earned_monotonic_sample() {
    let lo = earned(30, 10, 1000).unwrap();
    let hi = earned(50, 10, 1000).unwrap();
    assert!(lo <= hi);
    let capped_lo = earned(99, 11, 1000).unwrap();
    let capped_hi = earned(100_000, 11, 1000).unwrap();
    assert!(capped_lo <= capped_hi);
}

#[test]
fn earned_negative_elapsed_is_temporal_error() {
    assert_eq!(earned(-1, 10, 1000), Err(ErrorCode::InvalidTimestamp));
    assert_eq!(earned(i64::MIN, 10, 1000), Err(ErrorCode::InvalidTimestamp));
}

#[test]
fn earned_overflow_detected() {
    assert_eq!(earned(i64::MAX, 3, 5), Err(ErrorCode::MathOverflow));
    assert_eq!(earned(2, u64::MAX, 5), Err(ErrorCode::MathOverflow));
}

#[test]
fn available_subtracts_withdrawn() {
    assert_eq!(available(500, 200), Ok(300));
    assert_eq!(available(500, 500), Ok(0));
}

#[test]
fn available_never_negative() {
    assert_eq!(available(100, 200), Err(ErrorCode::InsufficientBalance));
    assert_eq!(available(0, 1), Err(ErrorCode::InsufficientBalance));
}
