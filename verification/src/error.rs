//! The failures that the library reports.

use vstd::prelude::*;

verus! {

/// Why a buffer could not be read, a name could not be resolved or an address
/// could not be derived.
#[derive(Clone, Copy, Debug, PartialEq, Eq)]
pub enum ApricotError {
    /// The buffer is shorter than the record it should hold.
    BufferTooSmall,
    /// The account holds no data at all: it has not been created yet.
    UninitializedAccount,
    /// No pool is known under this token name.
    UnknownToken,
    /// No pool is known under this number.
    UnknownPool,
    /// A seed is longer than an address can be derived from.
    MaxSeedLengthExceeded,
    /// No address off the curve is derived from these seeds.
    InvalidSeeds,
    /// The owner ends in the marker of derived addresses.
    IllegalOwner,
    /// Fewer accounts were given than the operation names.
    NotEnoughAccountKeys,
}

} // verus!
