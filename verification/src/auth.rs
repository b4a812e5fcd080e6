//! The authorization guard: stateless comparisons of a claimed identity or
//! a supplied reference against what a record stores. Checks chain by `?`,
//! and the first failing check determines the reported error.

use vstd::prelude::*;

use crate::addresses::bytes_eq;
use crate::errors::StoreError;

verus! {

/// Pass exactly when the claimed identity equals the stored one.
pub fn require_identity(claimed: &Vec<u8>, stored: &Vec<u8>) -> (r: Result<(), StoreError>)
    ensures
        claimed@ == stored@ ==> r == Ok::<(), StoreError>(()),
        claimed@ != stored@ ==> r == Err::<(), StoreError>(StoreError::Unauthorized),
{
    if bytes_eq(claimed, stored) {
        Ok(())
    } else {
        Err(StoreError::Unauthorized)
    }
}

/// Pass exactly when the supplied reference equals the stored one.
pub fn require_reference(supplied: &Vec<u8>, stored: &Vec<u8>) -> (r: Result<(), StoreError>)
    ensures
        supplied@ == stored@ ==> r == Ok::<(), StoreError>(()),
        supplied@ != stored@ ==> r == Err::<(), StoreError>(StoreError::InvalidReference),
{
    if bytes_eq(supplied, stored) {
        Ok(())
    } else {
        Err(StoreError::InvalidReference)
    }
}

} // verus!
