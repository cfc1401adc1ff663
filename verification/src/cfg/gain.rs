//! The settings of the programmable gain amplifier.

use vstd::prelude::*;

verus! {

/// Configuration parameter to set the programmable gain amplifier (PGA).
///
/// **Default:** x1
#[derive(Copy, Clone, Debug, PartialEq, Eq, Structural)]
pub enum Gain {
    X1,
    X2,
    X4,
    X8,
}

impl Gain {
    /// The factor by which the amplifier scales the input.
    pub open spec fn spec_multiplier(&self) -> i32 {
        match self {
            Gain::X1 => 1,
            Gain::X2 => 2,
            Gain::X4 => 4,
            Gain::X8 => 8,
        }
    }

    /// The two bits that select the gain in the configuration register.
    pub open spec fn spec_mask(&self) -> u8 {
        match self {
            Gain::X1 => 0b00,
            Gain::X2 => 0b01,
            Gain::X4 => 0b10,
            Gain::X8 => 0b11,
        }
    }

    /// The gain that a two bit field of the register stands for.
    pub open spec fn spec_from_mask(mask: u8) -> Gain {
        if mask == 0b00 {
            Gain::X1
        } else if mask == 0b01 {
            Gain::X2
        } else if mask == 0b10 {
            Gain::X4
        } else {
            Gain::X8
        }
    }

    #[verifier::when_used_as_spec(spec_multiplier)]
    pub fn multiplier(&self) -> (multiplier: i32)
        ensures
            multiplier == self.spec_multiplier(),
            1 <= multiplier <= 8,
    {
        match self {
            Gain::X1 => 1,
            Gain::X2 => 2,
            Gain::X4 => 4,
            Gain::X8 => 8,
        }
    }

    #[verifier::when_used_as_spec(spec_mask)]
    pub fn mask(&self) -> (mask: u8)
        ensures
            mask == self.spec_mask(),
            mask <= 0b11,
    {
        match self {
            Gain::X1 => 0b00,
            Gain::X2 => 0b01,
            Gain::X4 => 0b10,
            Gain::X8 => 0b11,
        }
    }
}

impl Default for Gain {
    fn default() -> (gain: Self)
        ensures
            gain == Gain::X1,
    {
        Gain::X1
    }
}

} // verus!
