//! The conversion mode bit of the device.

use vstd::prelude::*;

verus! {

/// The conversion mode bit of the configuration register.
///
/// **Default:** continuous, as after power-up
#[derive(Copy, Clone, Debug, PartialEq, Eq, Structural)]
pub enum Mode {
    Continuous,
    OneShot,
}

impl Mode {
    /// The bit that selects the conversion mode in the configuration register.
    pub open spec fn spec_mask(&self) -> u8 {
        match self {
            Mode::Continuous => 1,
            Mode::OneShot => 0,
        }
    }

    /// The conversion mode that a one bit field of the register stands for.
    pub open spec fn spec_from_mask(mask: u8) -> Mode {
        if mask == 1 {
            Mode::Continuous
        } else {
            Mode::OneShot
        }
    }

    #[verifier::when_used_as_spec(spec_mask)]
    pub fn mask(&self) -> (mask: u8)
        ensures
            mask == self.spec_mask(),
            mask <= 1,
    {
        match self {
            Mode::Continuous => 1,
            Mode::OneShot => 0,
        }
    }
}

impl Default for Mode {
    fn default() -> (mode: Self)
        ensures
            mode == Mode::Continuous,
    {
        Mode::Continuous
    }
}

} // verus!
