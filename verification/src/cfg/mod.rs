//! The configuration register of the device and the codec of its byte.

use vstd::prelude::*;

pub use crate::cfg::channel::Channel;
pub use crate::cfg::gain::Gain;
pub use crate::cfg::mode::Mode;
pub use crate::cfg::resolution::Resolution;
use crate::config::Configuration;

mod channel;
mod gain;
mod mode;
mod resolution;

verus! {

/// The configuration register of the device.
///
/// The register is one byte. From the most significant bit down it holds
/// the inverted ready flag (1 bit), the channel (2 bits), the conversion
/// mode (1 bit), the resolution (2 bits) and the gain (2 bits).
///
/// The ready flag reads inverted on the wire: a set bit says that the output
/// buffer holds no new conversion. Written to the device in one-shot mode, a
/// set bit starts a conversion.
#[derive(Copy, Clone, Debug, PartialEq, Eq, Structural)]
pub struct Cfg {
    pub ready: bool,
    pub channel: Channel,
    pub mode: Mode,
    pub resolution: Resolution,
    pub gain: Gain,
}

impl Cfg {
    /// The register byte as a number: every field counts with the weight of
    /// its lowest bit.
    pub open spec fn spec_as_byte(&self) -> u8 {
        ((if self.ready {
            0int
        } else {
            128int
        }) + 32 * self.channel.spec_mask() + 16 * self.mode.spec_mask() + 4
            * self.resolution.spec_mask() + self.gain.spec_mask()) as u8
    }

    /// The register that a byte stands for. Every byte stands for one.
    pub open spec fn spec_from_byte(value: u8) -> Cfg {
        Cfg {
            ready: value < 128,
            channel: Channel::spec_from_mask((value / 32) % 4),
            mode: Mode::spec_from_mask((value / 16) % 2),
            resolution: Resolution::spec_from_mask((value / 4) % 4),
            gain: Gain::spec_from_mask(value % 4),
        }
    }

    /// The register as it is after power-up, read with new data in the
    /// output buffer.
    pub open spec fn spec_default() -> Cfg {
        Cfg {
            ready: true,
            channel: Channel::Channel1,
            mode: Mode::Continuous,
            resolution: Resolution::TwelveBits,
            gain: Gain::X1,
        }
    }

    /// Takes channel, gain and resolution from a user configuration. The
    /// ready flag and the conversion mode stay as they are.
    pub fn set_values_from_configuration(&mut self, other: &Configuration)
        ensures
            *final(self) == (Cfg {
                channel: other.channel,
                gain: other.gain,
                resolution: other.resolution,
                ..*old(self)
            }),
    {
        self.channel = other.channel;
        self.gain = other.gain;
        self.resolution = other.resolution;
    }

    /// Packs the register into its byte.
    #[verifier::when_used_as_spec(spec_as_byte)]
    pub fn as_byte(&self) -> (byte: u8)
        ensures
            byte == self.spec_as_byte(),
    {
        let not_ready: u8 = if self.ready {
            0
        } else {
            1
        };
        let channel: u8 = self.channel.mask();
        let mode: u8 = self.mode.mask();
        let resolution: u8 = self.resolution.mask();
        let gain: u8 = self.gain.mask();
        assert(((((((not_ready << 2u8) | channel) << 1u8) | mode) << 2u8 | resolution) << 2u8)
            | gain == 128 * not_ready + 32 * channel + 16 * mode + 4 * resolution + gain)
            by (bit_vector)
            requires
                not_ready <= 1,
                channel <= 3,
                mode <= 1,
                resolution <= 3,
                gain <= 3,
        ;
        let mut result: u8 = not_ready;
        result <<= 2u8;
        result |= channel;
        result <<= 1u8;
        result |= mode;
        result <<= 2u8;
        result |= resolution;
        result <<= 2u8;
        result |= gain;
        result
    }

    /// Packing a register and unpacking the byte gives the register back,
    /// the ready flag included.
    pub proof fn lemma_decode_encode(self)
        ensures
            Cfg::spec_from_byte(self.spec_as_byte()) == self,
    {
    }

    /// Unpacking a byte and packing the register gives the byte back: the
    /// codec is a bijection between the 256 bytes and the registers.
    pub proof fn lemma_encode_decode(value: u8)
        ensures
            Cfg::spec_from_byte(value).spec_as_byte() == value,
    {
        assert(value == 128 * (value / 128) + 32 * ((value / 32) % 4) + 16 * ((value / 16) % 2) + 4
            * ((value / 4) % 4) + value % 4) by (bit_vector);
        assert(value / 128 == 0 <==> value < 128) by (bit_vector);
        assert(value / 128 <= 1) by (bit_vector);
    }

    /// The ready flag lives in the top bit alone: two registers that differ
    /// in nothing else pack to bytes that differ by that bit.
    pub proof fn lemma_ready_is_top_bit(self)
        ensures
            self.ready <==> self.spec_as_byte() < 128,
            (Cfg { ready: false, ..self }).spec_as_byte() == (Cfg {
                ready: true,
                ..self
            }).spec_as_byte() + 128,
    {
    }
}

impl From<u8> for Cfg {
    /// Unpacks a register byte.
    fn from(value: u8) -> (cfg: Self) {
        assert(value >> 7u8 == 0 <==> value < 128) by (bit_vector);
        assert((value >> 5u8) & 0b11 == (value / 32) % 4) by (bit_vector);
        assert((value >> 4u8) & 1 == (value / 16) % 2) by (bit_vector);
        assert((value >> 2u8) & 0b11 == (value / 4) % 4) by (bit_vector);
        assert(value & 0b11 == value % 4) by (bit_vector);
        let ready = value >> 7u8 == 0;
        let channel = match (value >> 5u8) & 0b11 {
            0b00 => Channel::Channel1,
            0b01 => Channel::Channel2,
            0b10 => Channel::Channel3,
            _ => Channel::Channel4,
        };
        let mode = if (value >> 4u8) & 1 == 1 {
            Mode::Continuous
        } else {
            Mode::OneShot
        };
        let resolution = match (value >> 2u8) & 0b11 {
            0b00 => Resolution::TwelveBits,
            0b01 => Resolution::FourteenBits,
            0b10 => Resolution::SixteenBits,
            _ => Resolution::EighteenBits,
        };
        let gain = match value & 0b11 {
            0b00 => Gain::X1,
            0b01 => Gain::X2,
            0b10 => Gain::X4,
            _ => Gain::X8,
        };
        Self { ready, channel, mode, resolution, gain }
    }
}

impl vstd::std_specs::convert::FromSpecImpl<u8> for Cfg {
    open spec fn obeys_from_spec() -> bool {
        true
    }

    open spec fn from_spec(value: u8) -> Cfg {
        Cfg::spec_from_byte(value)
    }
}

impl Default for Cfg {
    fn default() -> (cfg: Self)
        ensures
            cfg == Cfg::spec_default(),
    {
        Self {
            ready: true,
            channel: Channel::default(),
            mode: Mode::default(),
            resolution: Resolution::default(),
            gain: Gain::default(),
        }
    }
}

} // verus!
