//! Checked counter arithmetic: increments and decrements that fail
//! instead of wrapping at the ends of the range.

use vstd::prelude::*;
use crate::errors::StoreError;

verus! {

/// Add one to `value`, refusing with `Overflow` at `max`.
pub fn checked_increment(value: u64, max: u64) -> (r: Result<u64, StoreError>)
    ensures
        value < max ==> r == Ok::<u64, StoreError>((value + 1) as u64),
        value >= max ==> r == Err::<u64, StoreError>(StoreError::Overflow),
{
    if value < max {
        Ok(value + 1)
    } else {
        Err(StoreError::Overflow)
    }
}

/// Take one from `value`, refusing with `Underflow` at zero.
pub fn checked_decrement(value: u64) -> (r: Result<u64, StoreError>)
    ensures
        value > 0 ==> r == Ok::<u64, StoreError>((value - 1) as u64),
        value == 0 ==> r == Err::<u64, StoreError>(StoreError::Underflow),
{
    if value > 0 {
        Ok(value - 1)
    } else {
        Err(StoreError::Underflow)
    }
}

} // verus!
