use vstd::prelude::*;

verus! {

/// Errors reported by the display drivers.
#[derive(Clone, Copy, Debug, PartialEq, Eq, Structural)]
pub enum Error {
    /// Unable to write to the bus: the transfer could not be started.
    BusWriteError,
    /// Unable to drive the chip-select line.
    ChipSelectError,
    /// Unable to assert the display enable signal.
    DisplayError,
    /// Attempted to write to a non-existing pixel outside the display's bounds.
    OutOfBoundsError,
}

} // verus!
