//! Search for secp256k1 keypairs whose derived account address matches a
//! textual prefix/suffix pattern: candidate generation, address derivation,
//! pattern matching, and shared search state with progress snapshots.

use vstd::prelude::*;

pub mod criteria;
pub mod hexcode;
pub mod keys;
pub mod scalar;
pub mod search;

verus! {

/// A fault that ends a search early: a rejected configuration, or a failure
/// of the operating system's entropy source (treated as fatal, never masked).
#[derive(Debug, PartialEq, Eq, Structural, Clone, Copy)]
pub enum SearchError {
    /// The requested number of addresses was zero.
    InvalidTarget,
    /// The requested number of workers was zero.
    InvalidWorkerCount,
    /// The secure random source failed to produce entropy.
    EntropyFailure,
    /// The attempt counter's range was exhausted before the target quantity
    /// was reached.
    AttemptsExhausted,
}

} // verus!
