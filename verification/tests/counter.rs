use pda_ledger::auth::{require_identity, require_reference};
use pda_ledger::counter::{checked_decrement, checked_increment};
use pda_ledger::errors::StoreError;

#[test]
fn increment_moves_up_below_the_maximum() {
    assert_eq!(checked_increment(0, u64::MAX), Ok(1));
    assert_eq!(checked_increment(41, 100), Ok(42));
}

#[test]
fn increment_at_the_maximum_overflows() {
    assert_eq!(checked_increment(u64::MAX, u64::MAX), Err(StoreError::Overflow));
    assert_eq!(checked_increment(100, 100), Err(StoreError::Overflow));
}

#[test]
fn decrement_moves_down_above_zero() {
    assert_eq!(checked_decrement(1), Ok(0));
    assert_eq!(checked_decrement(u64::MAX), Ok(u64::MAX - 1));
}

#[test]
fn decrement_at_zero_underflows() {
    assert_eq!(checked_decrement(0), Err(StoreError::Underflow));
}

#[test]
fn identity_checks_compare_exactly() {
    assert_eq!(require_identity(&vec![1, 2], &vec![1, 2]), Ok(()));
    assert_eq!(
        require_identity(&vec![1, 2], &vec![1, 3]),
        Err(StoreError::Unauthorized)
    );
    assert_eq!(require_reference(&vec![9], &vec![9]), Ok(()));
    assert_eq!(
        require_reference(&vec![9], &vec![9, 9]),
        Err(StoreError::InvalidReference)
    );
}
