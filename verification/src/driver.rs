//! The handle that stands for one device.

use vstd::prelude::*;

use crate::cfg::Cfg;
use crate::error::Error;
use crate::sample::output_code;
use crate::sample::raw_sample;
use crate::sample::spec_convert;
use crate::sample::voltage;
use crate::sample::Voltage;

verus! {

/// Driver handle for one MCP3422, MCP3423 or MCP3424.
///
/// The handle owns what belongs to one device: the bus it is wired to, its
/// address, the timer to wait with, and the state of the sampling mode.
/// There is one handle per device. The handle itself never touches bus or
/// timer: in each mode it has a `step` function that says what is to be
/// done with them, see [`OneShotMode`], [`ContinuousMode`] and
/// [`MultiShotMode`].
///
/// [`OneShotMode`]: crate::mode::OneShotMode
/// [`ContinuousMode`]: crate::mode::ContinuousMode
/// [`MultiShotMode`]: crate::mode::MultiShotMode
pub struct MCP3424<I2c, BusError, Delay, Mode> {
    /// The bus that the device is wired to.
    pub i2c: I2c,
    /// The seven bit address of the device on the bus.
    pub address: u8,
    /// The timer to wait for a conversion with.
    pub delay: Delay,
    /// The state of the sampling mode.
    pub mode: Mode,
    /// The type of the errors that the bus reports.
    pub phantom: core::marker::PhantomData<BusError>,
}

impl<I2c, BusError, Delay, Mode: crate::mode::Mode> MCP3424<I2c, BusError, Delay, Mode> {
    /// Takes hold of the device at a seven bit address.
    pub fn new(i2c: I2c, address: u8, delay: Delay, mode: Mode) -> (device: Self)
        ensures
            device.i2c == i2c,
            device.address == address,
            device.delay == delay,
            device.mode == mode,
    {
        Self { i2c, address, delay, mode, phantom: core::marker::PhantomData }
    }

    /// Whether two handles hold the same device: bus, address and timer
    /// are equal, and only the state of the mode may differ.
    pub open spec fn same_device(self, other: Self) -> bool {
        &&& self.i2c == other.i2c
        &&& self.address == other.address
        &&& self.delay == other.delay
    }

    /// Decodes a read buffer into the voltage it reports.
    pub fn convert(buffer: &[u8; 4]) -> (result: Result<Voltage, Error<BusError>>)
        ensures
            result == spec_convert::<BusError>(buffer@),
    {
        let cfg = if buffer[3] & 0b1100 == 0b1100 {
            Cfg::from(buffer[3])
        } else {
            Cfg::from(buffer[2])
        };
        proof {
            let last: u8 = buffer[3];
            assert(last & 0b1100 == 0b1100 <==> (last / 4) % 4 == 3) by (bit_vector);
        }

        if !cfg.ready {
            return Err(Error::NotReady);
        }
        let value: i32 = output_code(raw_sample(buffer, cfg.resolution), cfg.resolution);

        let min: i32 = cfg.resolution.min();
        let max: i32 = cfg.resolution.max();

        if value > min && value < max {
            Ok(voltage(value, cfg.resolution, cfg.gain))
        } else {
            Err(Error::IllegalValue { value, min, max })
        }
    }

    /// Gives the bus and the timer back.
    pub fn into_inner(self) -> (parts: (I2c, Delay))
        ensures
            parts == (self.i2c, self.delay),
    {
        (self.i2c, self.delay)
    }
}

} // verus!
