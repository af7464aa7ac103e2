//! Distinguished errors for the checked accessors.
//!
//! The hot-path accessors state their bounds as preconditions; the checked
//! variants test the same bounds at run time and report which one a call
//! broke, instead of leaving the misuse undefined.

use vstd::prelude::*;

verus! {

/// What a checked accessor reports when a call breaks the layout contract.
#[derive(Clone, Copy, Debug, PartialEq, Eq, Structural)]
pub enum ColumnError {
    /// A row index or data length lies beyond the vector's capacity.
    OutOfCapacity,
    /// An entry or a published length points past the child storage that was
    /// reserved beforehand.
    NotReserved,
}

} // verus!
