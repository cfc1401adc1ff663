//! The errors of a measurement.

use vstd::prelude::*;

verus! {

/// Error type used by the driver.
#[derive(Debug, PartialEq, Eq)]
pub enum Error<BusError> {
    /// Indicates a communication error on the bus. The cause is handed on
    /// as the bus reported it.
    BusError(BusError),
    /// Indicates saturation of the converted value: the output code is not
    /// strictly between the two extreme codes of the resolution.
    IllegalValue { value: i32, min: i32, max: i32 },
    /// Indicates that the device's output buffer does not contain new data.
    NotReady,
}

impl<BusError> From<BusError> for Error<BusError> {
    fn from(error: BusError) -> (wrapped: Self) {
        Error::BusError(error)
    }
}

impl<BusError> vstd::std_specs::convert::FromSpecImpl<BusError> for Error<BusError> {
    open spec fn obeys_from_spec() -> bool {
        true
    }

    open spec fn from_spec(error: BusError) -> Error<BusError> {
        Error::BusError(error)
    }
}

} // verus!
