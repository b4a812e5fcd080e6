//! The failure taxonomy shared by every operation of the ledger.

use vstd::prelude::*;

verus! {

/// Why an operation was refused. Every operation either commits all of its
/// effects or returns one of these and leaves the store exactly as it was.
#[derive(Clone, Copy, PartialEq, Eq, Structural, Debug)]
pub enum StoreError {
    /// The claimed identity does not match the identity stored on the record.
    Unauthorized,
    /// Creation was asked for at an address that already holds a record.
    AlreadyExists,
    /// No record lives at the given address.
    NotFound,
    /// A bounded field exceeds its configured maximum, or a seed exceeds
    /// the seed-length budget of the address derivation.
    PayloadTooLarge,
    /// A counter or a balance would exceed the top of its range.
    Overflow,
    /// A counter would drop below zero.
    Underflow,
    /// The vault's lock flag is set.
    VaultLocked,
    /// A transfer asks for more than the held balance offers.
    InsufficientBalance,
    /// A stored reference does not match the supplied record, or a
    /// self-derived address does not reproduce the supplied one.
    InvalidReference,
}

} // verus!
