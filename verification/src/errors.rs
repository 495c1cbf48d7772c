//! Error taxonomy of the commit-and-prove core.
//!
//! Placement and range errors are recoverable: the caller may retry with a
//! different coordinate. A failed proof generation is fatal to the attempt
//! that made it. Calls that a board's current phase does not allow are
//! rejected dynamically with the `WrongPhase` variant; in particular, an
//! attack against a board that is already `Finished` is rejected, never
//! silently tolerated.

use vstd::prelude::*;

verus! {

/// Why a ship placement was rejected.
#[derive(Clone, Copy, Debug, PartialEq, Eq, Structural)]
pub enum PlacementError {
    /// The coordinate does not lie on the board.
    OutOfBounds,
    /// The underlying range-proof routine failed.
    ProofGenerationFailed,
    /// The board is not in its placement phase.
    WrongPhase,
}

/// Why an attack was rejected.
#[derive(Clone, Copy, Debug, PartialEq, Eq, Structural)]
pub enum RangeError {
    /// The coordinate does not lie on the board.
    OutOfBounds,
    /// The underlying range-proof routine failed.
    ProofGenerationFailed,
    /// The board is not in its battle phase.
    WrongPhase,
}

} // verus!
