//! The errors a simulation reports.

use vstd::prelude::*;

verus! {

/// Why an operation on a simulation was refused.
#[derive(Clone, Copy, Debug, PartialEq, Eq, Structural)]
pub enum SimulationError {
    /// The grid has fewer than three cells along some axis, so it has no
    /// interior cell, or a slice does not have the grid's dimensions.
    InvalidDimensions,
    /// The parameters failed the stability check.
    UnstableParameters,
    /// The simulation is not ready for the operation: it has been stopped.
    InvalidState,
}

/// The outcome of an operation that was carried out.
pub open spec fn accepted() -> Result<(), SimulationError> {
    Ok(())
}

/// The outcome of an operation that was refused for `error`.
pub open spec fn refused(error: SimulationError) -> Result<(), SimulationError> {
    Err(error)
}

} // verus!
