//! The resolutions of the device and what follows from each.

use vstd::prelude::*;

verus! {

/// Configuration parameter to set the resolution of a conversion.
///
/// A higher resolution costs conversion time: the device delivers 240, 60,
/// 15 or 3.75 samples per second at 12, 14, 16 or 18 bits.
///
/// **Default:** 12 bits
#[derive(Copy, Clone, Debug, PartialEq, Eq, Structural)]
pub enum Resolution {
    /// 12 bits, 240 samples per second.
    TwelveBits,
    /// 14 bits, 60 samples per second.
    FourteenBits,
    /// 16 bits, 15 samples per second.
    SixteenBits,
    /// 18 bits, 3.75 samples per second.
    EighteenBits,
}

impl Resolution {
    /// The number of data bytes that carry a sample.
    pub open spec fn spec_bytes(&self) -> usize {
        match self {
            Resolution::TwelveBits | Resolution::FourteenBits | Resolution::SixteenBits => 2,
            Resolution::EighteenBits => 3,
        }
    }

    /// The number of bits of a sample, sign included.
    pub open spec fn spec_bits(&self) -> usize {
        match self {
            Resolution::TwelveBits => 12,
            Resolution::FourteenBits => 14,
            Resolution::SixteenBits => 16,
            Resolution::EighteenBits => 18,
        }
    }

    /// The two bits that select the resolution in the configuration register.
    pub open spec fn spec_mask(&self) -> u8 {
        match self {
            Resolution::TwelveBits => 0b00,
            Resolution::FourteenBits => 0b01,
            Resolution::SixteenBits => 0b10,
            Resolution::EighteenBits => 0b11,
        }
    }

    /// The resolution that a two bit field of the register stands for.
    pub open spec fn spec_from_mask(mask: u8) -> Resolution {
        if mask == 0b00 {
            Resolution::TwelveBits
        } else if mask == 0b01 {
            Resolution::FourteenBits
        } else if mask == 0b10 {
            Resolution::SixteenBits
        } else {
            Resolution::EighteenBits
        }
    }

    /// The bit of the raw sample that holds the sign.
    pub open spec fn spec_sign_bit(&self) -> u32 {
        match self {
            Resolution::TwelveBits => 0x800,
            Resolution::FourteenBits => 0x2000,
            Resolution::SixteenBits => 0x8000,
            Resolution::EighteenBits => 0x20000,
        }
    }

    /// The bits above the sample that a negative sample has set.
    pub open spec fn spec_sign_extend(&self) -> u32 {
        match self {
            Resolution::TwelveBits => 0xFFFFF000,
            Resolution::FourteenBits => 0xFFFFC000,
            Resolution::SixteenBits => 0xFFFF0000,
            Resolution::EighteenBits => 0xFFFC0000,
        }
    }

    /// The lowest output code. The device reports it when the input is
    /// below the measurable range.
    pub open spec fn spec_min(&self) -> i32 {
        match self {
            Resolution::TwelveBits => (-2048) as i32,
            Resolution::FourteenBits => (-8192) as i32,
            Resolution::SixteenBits => (-32768) as i32,
            Resolution::EighteenBits => (-131072) as i32,
        }
    }

    /// The highest output code. The device reports it when the input is
    /// above the measurable range.
    pub open spec fn spec_max(&self) -> i32 {
        match self {
            Resolution::TwelveBits => 2047,
            Resolution::FourteenBits => 8191,
            Resolution::SixteenBits => 32767,
            Resolution::EighteenBits => 131071,
        }
    }

    /// The nominal time of one conversion in microseconds.
    pub open spec fn spec_conversion_time_us(&self) -> u32 {
        match self {
            Resolution::TwelveBits => 4167,
            Resolution::FourteenBits => 16667,
            Resolution::SixteenBits => 66667,
            Resolution::EighteenBits => 266667,
        }
    }

    /// The number of distinct output codes, two to the power of the bits.
    pub open spec fn spec_codes(&self) -> int {
        match self {
            Resolution::TwelveBits => 0x1000,
            Resolution::FourteenBits => 0x4000,
            Resolution::SixteenBits => 0x10000,
            Resolution::EighteenBits => 0x40000,
        }
    }

    /// Returns the number of data bytes that carry a sample.
    #[verifier::when_used_as_spec(spec_bytes)]
    pub fn bytes(&self) -> (bytes: usize)
        ensures
            bytes == self.spec_bytes(),
    {
        match self {
            Resolution::TwelveBits | Resolution::FourteenBits | Resolution::SixteenBits => 2,
            Resolution::EighteenBits => 3,
        }
    }

    /// Returns the number of bits of a sample.
    #[verifier::when_used_as_spec(spec_bits)]
    pub fn bits(&self) -> (bits: usize)
        ensures
            bits == self.spec_bits(),
    {
        match self {
            Resolution::TwelveBits => 12,
            Resolution::FourteenBits => 14,
            Resolution::SixteenBits => 16,
            Resolution::EighteenBits => 18,
        }
    }

    #[verifier::when_used_as_spec(spec_mask)]
    pub fn mask(&self) -> (mask: u8)
        ensures
            mask == self.spec_mask(),
            mask <= 0b11,
    {
        match self {
            Resolution::TwelveBits => 0b00,
            Resolution::FourteenBits => 0b01,
            Resolution::SixteenBits => 0b10,
            Resolution::EighteenBits => 0b11,
        }
    }

    #[verifier::when_used_as_spec(spec_sign_bit)]
    pub fn sign_bit(&self) -> (bit: u32)
        ensures
            bit == self.spec_sign_bit(),
    {
        match self {
            Resolution::TwelveBits => 0x800,
            Resolution::FourteenBits => 0x2000,
            Resolution::SixteenBits => 0x8000,
            Resolution::EighteenBits => 0x20000,
        }
    }

    #[verifier::when_used_as_spec(spec_sign_extend)]
    pub fn sign_extend(&self) -> (bits: u32)
        ensures
            bits == self.spec_sign_extend(),
    {
        match self {
            Resolution::TwelveBits => 0xFFFFF000,
            Resolution::FourteenBits => 0xFFFFC000,
            Resolution::SixteenBits => 0xFFFF0000,
            Resolution::EighteenBits => 0xFFFC0000,
        }
    }

    /// Returns the minimum output code.
    #[verifier::when_used_as_spec(spec_min)]
    pub fn min(&self) -> (code: i32)
        ensures
            code == self.spec_min(),
    {
        match self {
            Resolution::TwelveBits => -2048,
            Resolution::FourteenBits => -8192,
            Resolution::SixteenBits => -32768,
            Resolution::EighteenBits => -131072,
        }
    }

    /// Returns the maximum output code.
    #[verifier::when_used_as_spec(spec_max)]
    pub fn max(&self) -> (code: i32)
        ensures
            code == self.spec_max(),
    {
        match self {
            Resolution::TwelveBits => 2047,
            Resolution::FourteenBits => 8191,
            Resolution::SixteenBits => 32767,
            Resolution::EighteenBits => 131071,
        }
    }

    /// Returns the time required for one conversion in microseconds.
    #[verifier::when_used_as_spec(spec_conversion_time_us)]
    pub fn conversion_time_us(&self) -> (micros: u32)
        ensures
            micros == self.spec_conversion_time_us(),
    {
        match self {
            Resolution::TwelveBits => 4167,  // 240 SPS
            Resolution::FourteenBits => 16667,  // 60 SPS
            Resolution::SixteenBits => 66667,  // 15 SPS
            Resolution::EighteenBits => 266667,  // 3.75 SPS
        }
    }

    /// The columns of the table agree with each other: every one of them
    /// follows from the number of bits. The sign bit is the top bit of the
    /// sample, the extension mask fills a 32 bit word above the sample, the
    /// codes range over the two's complement numbers of that many bits, and
    /// the sample fits in its data bytes.
    pub proof fn lemma_table_consistent(self)
        ensures
            self.spec_codes() == vstd::arithmetic::power2::pow2(self.spec_bits() as nat),
            2 * self.spec_sign_bit() == self.spec_codes(),
            self.spec_sign_extend() + self.spec_codes() == 0x1_0000_0000,
            self.spec_min() == -self.spec_sign_bit(),
            self.spec_max() == self.spec_sign_bit() - 1,
            self.spec_bits() <= 8 * self.spec_bytes(),
    {
        vstd::arithmetic::power2::lemma2_to64();
    }
}

impl Default for Resolution {
    fn default() -> (resolution: Self)
        ensures
            resolution == Resolution::TwelveBits,
    {
        Resolution::TwelveBits
    }
}

} // verus!
