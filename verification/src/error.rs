//! Errors of the ledger.

use vstd::prelude::*;

verus! {

/// Why a block, or a timestamp for one, could not be made.
#[derive(Clone, Copy, Debug, PartialEq, Eq, Structural)]
pub enum BlockError {
    /// The point in time lies before the Unix epoch, so it has no number of
    /// seconds since the epoch to take a digest over.
    InvalidTimestamp,
}

} // verus!
