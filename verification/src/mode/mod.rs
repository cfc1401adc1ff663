//! The sampling modes and the vocabulary of their state machines.
//!
//! A state machine is told what happened as an [`Event`] and answers with
//! the [`Action`] to take next. Whoever drives it owns the bus and the
//! timer: the machine itself neither writes nor reads nor waits.
//!
//! A machine keeps no more state than its mode needs, and every event has
//! an answer in every state. A driver that gives up a measurement half way
//! leaves nothing behind that the next `Measure` would not clear.

use vstd::prelude::*;

pub use crate::mode::continuous::ContinuousMode;
pub use crate::mode::continuous::ContinuousView;
pub use crate::mode::multishot::MultiShotMode;
pub use crate::mode::multishot::MultiShotView;
pub use crate::mode::oneshot::OneShotMode;
pub use crate::mode::oneshot::OneShotView;
use crate::error::Error;

pub mod continuous;
pub mod multishot;
pub mod oneshot;

verus! {

/// A sampling mode of the driver.
pub trait Mode {

}

/// What a driver reports to the state machine of a mode.
///
/// The first three events come from the user of the driver, the others
/// answer the [`Action`] that the machine asked for last.
#[derive(Debug, PartialEq, Eq)]
pub enum Event<BusError> {
    /// A single measurement is asked for.
    Measure,
    /// A stream of measurements is asked for.
    Stream,
    /// The next item of the stream is asked for.
    Poll,
    /// The byte has been written to the device.
    Written,
    /// The time to wait has passed.
    Elapsed,
    /// The buffer has been read from the device.
    Received([u8; 4]),
    /// The bus failed to write or to read.
    Failed(BusError),
}

/// What the state machine of a mode asks its driver to do next.
#[derive(Debug, PartialEq, Eq)]
pub enum Action<Value, BusError> {
    /// Write this byte to the device and report [`Event::Written`], or
    /// [`Event::Failed`] with the cause.
    Write(u8),
    /// Wait this many microseconds and report [`Event::Elapsed`].
    Delay(u32),
    /// Read four bytes from the device and report [`Event::Received`], or
    /// [`Event::Failed`] with the cause.
    Read,
    /// The stream is open: nothing is left to do until it is polled.
    Ready,
    /// Hand this result to the user: the measurement or the item of the
    /// stream is complete.
    Return(Result<Value, Error<BusError>>),
}

} // verus!
