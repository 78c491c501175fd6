//! The credential check, as far as it is decided here.
//!
//! Hashing itself is done by a memory-hard hasher outside this library. What
//! the hasher reports comes in as a plain value, and this module decides what
//! the report means: verification fails closed.

use vstd::prelude::*;
use crate::errors::HashingError;

verus! {

/// Whether a report of the hasher lets the password pass: only a clean match
/// does. A mismatch and a failure of the hasher are both refusals.
pub open spec fn accepted(report: Result<bool, HashingError>) -> bool {
    report == Ok::<bool, HashingError>(true)
}

/// Decides on the hasher's report. An internal error never skips the check:
/// it counts as a failed verification.
pub fn password_accepted(report: &Result<bool, HashingError>) -> (pass: bool)
    ensures
        pass == accepted(*report),
{
    match report {
        Ok(matches) => *matches,
        Err(_) => false,
    }
}

} // verus!
