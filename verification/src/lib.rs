//! A protocol core for the MCP3422, MCP3423 and MCP3424 delta-sigma
//! converters.
//!
//! The device is driven over a two-wire bus: one configuration byte is
//! written, the device converts for a known time, and a buffer of four
//! bytes is read back. This crate holds everything that can be said about
//! that exchange without touching a bus:
//!
//! * the codec of the configuration register, see [`cfg::Cfg`],
//! * the decoder that turns a read buffer into a [`Voltage`], see
//!   [`MCP3424::convert`],
//! * the protocol of each sampling mode as a state machine.
//!
//! # Modes
//!
//! | Mode               | Description                                                              |
//! | ------------------ | ------------------------------------------------------------------------ |
//! | [`OneShotMode`]    | Starts a single conversion and waits for the result.                     |
//! | [`ContinuousMode`] | Starts the device once. Every later measurement reads the last value.    |
//! | [`MultiShotMode`]  | Runs a series of single conversions and returns all values at once.      |
//!
//! # Driving a device
//!
//! A state machine neither writes nor reads nor waits. It is told what
//! happened as an [`Event`] and answers with the [`Action`] to take next:
//!
//! ```
//! use mcp3424::{Action, Configuration, Event, OneShotMode, MCP3424};
//!
//! # struct Bus;
//! # impl Bus {
//! #     fn write(&mut self, _address: u8, _bytes: &[u8]) -> Result<(), ()> { Ok(()) }
//! #     fn read(&mut self, _address: u8, buffer: &mut [u8; 4]) -> Result<(), ()> {
//! #         *buffer = [0, 1, 0, 0];
//! #         Ok(())
//! #     }
//! # }
//! # struct Timer;
//! # impl Timer {
//! #     fn wait(&mut self, _micros: u32) {}
//! # }
//! let mode = OneShotMode::new(&Configuration::default());
//! let mut adc: MCP3424<Bus, (), Timer, OneShotMode> = MCP3424::new(Bus, 0x68, Timer, mode);
//!
//! let mut action = adc.step(Event::Measure);
//! let result = loop {
//!     let event = match action {
//!         Action::Write(byte) => match adc.i2c.write(adc.address, &[byte]) {
//!             Ok(()) => Event::Written,
//!             Err(cause) => Event::Failed(cause),
//!         },
//!         Action::Delay(micros) => {
//!             adc.delay.wait(micros);
//!             Event::Elapsed
//!         }
//!         Action::Read => {
//!             let mut buffer = [0; 4];
//!             match adc.i2c.read(adc.address, &mut buffer) {
//!                 Ok(()) => Event::Received(buffer),
//!                 Err(cause) => Event::Failed(cause),
//!             }
//!         }
//!         Action::Ready => Event::Poll,
//!         Action::Return(result) => break result,
//!     };
//!     action = adc.step(event);
//! };
//!
//! let voltage = result.ok().map(|voltage| (voltage.numerator, voltage.denominator));
//! assert_eq!(voltage, Some((1_000_000, 1_000_000)));
//! ```
//!
//! # MCP3422 and MCP3423
//!
//! The MCP3422 and MCP3423 offer two channels where the MCP3424 offers
//! four, behind the same interface. They treat [`Channel::Channel3`] as
//! [`Channel::Channel1`] and [`Channel::Channel4`] as [`Channel::Channel2`].

pub mod cfg;
pub mod config;
pub mod driver;
pub mod error;
pub mod mode;
pub mod sample;

pub use crate::cfg::{Channel, Gain, Resolution};
pub use crate::config::{Configuration, ConversionTime};
pub use crate::driver::MCP3424;
pub use crate::error::Error;
pub use crate::mode::{Action, ContinuousMode, Event, Mode, MultiShotMode, OneShotMode};
pub use crate::sample::Voltage;
