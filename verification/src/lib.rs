//! A content-addressed record ledger with ownership-gated mutation.
//!
//! Records (journal entries, tweets, comments, reactions, vaults) live in a
//! single keyed store. A record's key is derived deterministically from a
//! namespace and an ordered list of seed byte strings, mutation is gated on
//! the identity stored on the record at creation time, and value moves
//! between an account's held balance and the wallets of the callers.
//!
//! A self-contained checked-arithmetic exercise lives alongside the ledger
//! in [`calculator`]: an in-memory calculator with overflow protection and
//! an operation history.

use vstd::prelude::*;

pub mod addresses;
pub mod auth;
pub mod calculator;
pub mod counter;
pub mod errors;
pub mod journal;
pub mod records;
pub mod store;
pub mod twitter;
pub mod vault;

verus! {

} // verus!
