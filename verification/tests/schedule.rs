use ido::{validate_ido_times, ErrorCode, IdoTimes};

fn times(start_at: i64, end_at: i64, default_round_length: i64) -> IdoTimes {
    IdoTimes { start_at, end_at, default_round_length }
}

#[test]
fn a_future_window_of_two_rounds_is_accepted() {
    assert_eq!(validate_ido_times(times(100, 200, 50), 50), Ok(()));
}

#[test]
fn a_window_that_has_started_is_rejected() {
    assert_eq!(validate_ido_times(times(100, 200, 50), 150), Err(ErrorCode::IdoFuture));
}

#[test]
fn a_window_that_starts_now_is_rejected() {
    assert_eq!(validate_ido_times(times(100, 200, 50), 100), Err(ErrorCode::IdoFuture));
    assert_eq!(validate_ido_times(times(100, 200, 50), 99), Ok(()));
}

#[test]
fn the_start_is_checked_before_anything_else() {
    assert_eq!(validate_ido_times(times(100, 90, 50), 100), Err(ErrorCode::IdoFuture));
    assert_eq!(validate_ido_times(times(100, 90, -50), 200), Err(ErrorCode::IdoFuture));
    assert_eq!(
        validate_ido_times(times(i64::MIN, i64::MAX, i64::MAX), i64::MIN),
        Err(ErrorCode::IdoFuture)
    );
}

#[test]
fn a_window_shorter_than_a_round_is_rejected() {
    assert_eq!(validate_ido_times(times(100, 149, 50), 0), Err(ErrorCode::IdoShort));
    assert_eq!(validate_ido_times(times(100, 150, 50), 0), Ok(()));
    assert_eq!(validate_ido_times(times(100, 100, 1), 0), Err(ErrorCode::IdoShort));
    assert_eq!(validate_ido_times(times(100, 100, 0), 0), Ok(()));
}

#[test]
fn a_window_that_ends_before_it_starts_is_reported_as_too_short() {
    assert_eq!(validate_ido_times(times(100, 90, 50), 0), Err(ErrorCode::IdoShort));
    assert_eq!(validate_ido_times(times(100, 99, 0), 0), Err(ErrorCode::IdoShort));
}

#[test]
fn a_backward_window_with_a_negative_round_is_non_sequential() {
    assert_eq!(validate_ido_times(times(100, 90, -50), 0), Err(ErrorCode::SeqTimes));
    assert_eq!(validate_ido_times(times(100, 90, -10), 0), Err(ErrorCode::SeqTimes));
    assert_eq!(validate_ido_times(times(100, 90, -9), 0), Err(ErrorCode::IdoShort));
}

#[test]
fn a_forward_window_with_a_negative_round_is_accepted() {
    assert_eq!(validate_ido_times(times(100, 200, -50), 0), Ok(()));
}

#[test]
fn differences_beyond_64_bits_are_taken_exactly() {
    assert_eq!(validate_ido_times(times(-1, i64::MAX, i64::MAX), -2), Ok(()));
    assert_eq!(validate_ido_times(times(i64::MIN + 1, i64::MAX, i64::MAX), i64::MIN), Ok(()));
    assert_eq!(
        validate_ido_times(times(i64::MAX, i64::MIN, 0), 0),
        Err(ErrorCode::IdoShort)
    );
    assert_eq!(
        validate_ido_times(times(i64::MAX, i64::MIN, i64::MIN), 0),
        Err(ErrorCode::IdoShort)
    );
    assert_eq!(
        validate_ido_times(times(1, i64::MIN, i64::MIN), 0),
        Err(ErrorCode::IdoShort)
    );
    assert_eq!(
        validate_ido_times(times(1, i64::MIN + 1, i64::MIN), 0),
        Err(ErrorCode::SeqTimes)
    );
}
