//! What can go wrong while the driver talks to the controller.

use vstd::prelude::*;

verus! {

/// A failed operation. `W` and `R` are the error types of the bus for writes
/// and for reads; the driver hands the bus's own error through unchanged.
#[derive(Debug, PartialEq, Eq)]
pub enum Error<W, R> {
    /// The bus failed while writing.
    WriteError(W),
    /// The bus failed while reading.
    ReadError(R),
    /// The device answered bring-up with a foreign hardware identity.
    WrongChipId,
}

} // verus!
