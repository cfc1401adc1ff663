//! The configuration that a user of the driver chooses.

use vstd::prelude::*;

use crate::cfg::Channel;
use crate::cfg::Gain;
use crate::cfg::Resolution;

verus! {

/// Configuration parameter to adjust the conversion time the driver assumes.
///
/// The device takes a fixed time per conversion that depends on the
/// [`Resolution`] only. The time the driver waits before it reads the result
/// can be set outright or moved relative to that nominal time.
///
/// **Default:** `ConversionTime::Offset(0)`
#[derive(Copy, Clone, Debug, PartialEq, Eq, Structural)]
pub enum ConversionTime {
    /// Sets the conversion time in microseconds to the specified value.
    Absolute(u32),
    /// Applies an offset in microseconds to the nominal conversion time.
    Offset(i32),
}

impl Default for ConversionTime {
    fn default() -> (time: Self)
        ensures
            time == ConversionTime::Offset(0),
    {
        ConversionTime::Offset(0)
    }
}

/// Mode independent user configuration.
///
/// A [`Configuration`] specifies the following device parameters:
/// * [`Channel`]: the device's input channel.
/// * [`Resolution`]: the resolution and sampling rate.
/// * [`Gain`]: the on-board programmable gain amplifier (PGA).
/// * [`ConversionTime`]: the time to wait for a conversion.
#[derive(Copy, Clone, Debug, PartialEq, Eq, Structural)]
pub struct Configuration {
    pub channel: Channel,
    pub resolution: Resolution,
    pub gain: Gain,
    pub conversion_time: ConversionTime,
}

impl Configuration {
    /// The time in microseconds to wait for a conversion: the absolute value
    /// where one is set, else the nominal time of the resolution moved by
    /// the offset and held at zero from below.
    pub open spec fn spec_conversion_time_us(&self) -> u32 {
        match self.conversion_time {
            ConversionTime::Absolute(value) => value,
            ConversionTime::Offset(offset) => {
                let shifted: int = self.resolution.spec_conversion_time_us() + offset;
                if shifted < 0 {
                    0
                } else {
                    shifted as u32
                }
            },
        }
    }

    pub fn new(
        channel: Channel,
        resolution: Resolution,
        gain: Gain,
        conversion_time: ConversionTime,
    ) -> (configuration: Self)
        ensures
            configuration == (Configuration { channel, resolution, gain, conversion_time }),
    {
        Self { channel, resolution, gain, conversion_time }
    }

    pub fn with_channel(self, channel: Channel) -> (configuration: Self)
        ensures
            configuration == (Configuration { channel, ..self }),
    {
        let mut configuration = self;
        configuration.channel = channel;
        configuration
    }

    pub fn with_resolution(self, resolution: Resolution) -> (configuration: Self)
        ensures
            configuration == (Configuration { resolution, ..self }),
    {
        let mut configuration = self;
        configuration.resolution = resolution;
        configuration
    }

    pub fn with_gain(self, gain: Gain) -> (configuration: Self)
        ensures
            configuration == (Configuration { gain, ..self }),
    {
        let mut configuration = self;
        configuration.gain = gain;
        configuration
    }

    pub fn with_conversion_time(self, conversion_time: ConversionTime) -> (configuration: Self)
        ensures
            configuration == (Configuration { conversion_time, ..self }),
    {
        let mut configuration = self;
        configuration.conversion_time = conversion_time;
        configuration
    }

    /// Returns the time in microseconds to wait for a conversion.
    #[verifier::when_used_as_spec(spec_conversion_time_us)]
    pub fn conversion_time_us(&self) -> (micros: u32)
        ensures
            micros == self.spec_conversion_time_us(),
    {
        match self.conversion_time {
            ConversionTime::Absolute(value) => value,
            ConversionTime::Offset(offset) => {
                let shifted: i64 = self.resolution.conversion_time_us() as i64 + offset as i64;
                if shifted < 0 {
                    0
                } else {
                    shifted as u32
                }
            },
        }
    }

    /// An offset moves the nominal time by exactly its amount unless the
    /// result would be negative, and the result never runs into the upper
    /// limit of the type.
    pub proof fn lemma_offset_saturates_at_zero(self, offset: i32)
        requires
            self.conversion_time == ConversionTime::Offset(offset),
        ensures
            self.spec_conversion_time_us() == if self.resolution.spec_conversion_time_us() + offset
                < 0 {
                0
            } else {
                self.resolution.spec_conversion_time_us() + offset
            },
            self.spec_conversion_time_us() < u32::MAX,
    {
    }
}

impl Default for Configuration {
    fn default() -> (configuration: Self)
        ensures
            configuration == (Configuration {
                channel: Channel::Channel1,
                resolution: Resolution::TwelveBits,
                gain: Gain::X1,
                conversion_time: ConversionTime::Offset(0),
            }),
    {
        Self {
            channel: Channel::Channel1,
            resolution: Resolution::TwelveBits,
            gain: Gain::X1,
            conversion_time: ConversionTime::Offset(0),
        }
    }
}

} // verus!
