use lending_core::ledger::{checked_difference, checked_product, checked_sum};
use lending_core::ErrorCode;

#[test]
fn sum_within_range() {
    assert_eq!(checked_sum(2, 3, ErrorCode::Overflow), Ok(5));
    assert_eq!(checked_sum(u64::MAX - 1, 1, ErrorCode::Overflow), Ok(u64::MAX));
}

#[test]
fn sum_past_max_fails_with_given_error() {
    assert_eq!(checked_sum(u64::MAX, 1, ErrorCode::Overflow), Err(ErrorCode::Overflow));
    assert_eq!(checked_sum(u64::MAX, u64::MAX, ErrorCode::MathOverflow), Err(ErrorCode::MathOverflow));
}

#[test]
fn difference_within_range() {
    assert_eq!(checked_difference(10, 4, ErrorCode::MathOverflow), Ok(6));
    assert_eq!(checked_difference(7, 7, ErrorCode::MathOverflow), Ok(0));
}

#[test]
fn difference_below_zero_fails() {
    assert_eq!(checked_difference(4, 10, ErrorCode::MathOverflow), Err(ErrorCode::MathOverflow));
}

#[test]
fn product_within_and_past_range() {
    assert_eq!(checked_product(1000, 50, ErrorCode::MathOverflow), Ok(50_000));
    assert_eq!(checked_product(u64::MAX, 0, ErrorCode::MathOverflow), Ok(0));
    assert_eq!(checked_product(u64::MAX / 2 + 1, 2, ErrorCode::MathOverflow), Err(ErrorCode::MathOverflow));
}
