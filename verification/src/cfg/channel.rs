//! The input channels of the device.

use vstd::prelude::*;

verus! {

/// Configuration parameter to select the device's input channel.
///
/// **Default:** channel 1
#[derive(Copy, Clone, Debug, PartialEq, Eq, Structural)]
pub enum Channel {
    Channel1,
    Channel2,
    Channel3,
    Channel4,
}

impl Channel {
    /// The two bits that select the channel in the configuration register.
    pub open spec fn spec_mask(&self) -> u8 {
        match self {
            Channel::Channel1 => 0b00,
            Channel::Channel2 => 0b01,
            Channel::Channel3 => 0b10,
            Channel::Channel4 => 0b11,
        }
    }

    /// The channel that a two bit field of the register stands for.
    pub open spec fn spec_from_mask(mask: u8) -> Channel {
        if mask == 0b00 {
            Channel::Channel1
        } else if mask == 0b01 {
            Channel::Channel2
        } else if mask == 0b10 {
            Channel::Channel3
        } else {
            Channel::Channel4
        }
    }

    #[verifier::when_used_as_spec(spec_mask)]
    pub fn mask(&self) -> (mask: u8)
        ensures
            mask == self.spec_mask(),
            mask <= 0b11,
    {
        match self {
            Channel::Channel1 => 0b00,
            Channel::Channel2 => 0b01,
            Channel::Channel3 => 0b10,
            Channel::Channel4 => 0b11,
        }
    }
}

impl Default for Channel {
    fn default() -> (channel: Self)
        ensures
            channel == Channel::Channel1,
    {
        Channel::Channel1
    }
}

} // verus!
