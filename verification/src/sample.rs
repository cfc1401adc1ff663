//! The meaning of a read buffer: from its four bytes to a voltage.

use vstd::prelude::*;

use crate::cfg::Cfg;
use crate::cfg::Gain;
use crate::cfg::Resolution;
use crate::error::Error;

verus! {

/// The reference voltage of the device in nanovolts.
pub const REFERENCE_VOLTAGE: i64 = 2_048_000_000;

/// The span of the input range in nanovolts: the reference voltage on
/// either side of zero.
pub const REFERENCE_VOLTAGE_X2: i64 = REFERENCE_VOLTAGE * 2;

/// A measured voltage in millivolts, held as an exact fraction.
///
/// The numerator is the voltage at the converter behind the amplifier in
/// nanovolts. The denominator takes nanovolts to millivolts and divides the
/// gain out. No rounding has happened yet: the quotient of the two is the
/// voltage at the input.
#[derive(Copy, Clone, Debug, PartialEq, Eq, Structural)]
pub struct Voltage {
    pub numerator: i64,
    pub denominator: i32,
}

/// The number that a run of bytes spells, most significant byte first.
pub open spec fn spec_big_endian(bytes: Seq<u8>) -> int
    decreases bytes.len(),
{
    if bytes.len() == 0 {
        0
    } else {
        256 * spec_big_endian(bytes.drop_last()) + bytes.last()
    }
}

/// The byte of a read buffer that echoes the configuration register. It
/// follows the data bytes: where the last byte of the buffer names the 18
/// bit resolution it is that byte, behind three data bytes, and else the
/// byte before it, behind two.
pub open spec fn spec_config_byte(buffer: Seq<u8>) -> u8 {
    if (buffer[3] / 4) % 4 == 3 {
        buffer[3]
    } else {
        buffer[2]
    }
}

/// The raw sample of a read buffer: its leading data bytes as one number.
pub open spec fn spec_raw(buffer: Seq<u8>, resolution: Resolution) -> int {
    spec_big_endian(buffer.subrange(0, resolution.spec_bytes() as int))
}

/// The output code that a raw sample stands for. With the sign bit set the
/// bits of the sample are read as a negative two's complement number and
/// what stands above them is dropped. With the sign bit clear the raw
/// sample is the code as it stands.
pub open spec fn spec_code(raw: int, resolution: Resolution) -> int {
    if (raw / (resolution.spec_sign_bit() as int)) % 2 == 1 {
        raw % resolution.spec_codes() - resolution.spec_codes()
    } else {
        raw
    }
}

/// The voltage that an output code stands for: the code's share of the
/// input span, with the gain left to divide out.
pub open spec fn spec_voltage(code: int, resolution: Resolution, gain: Gain) -> Voltage {
    Voltage {
        numerator: (code * REFERENCE_VOLTAGE_X2 / resolution.spec_codes()) as i64,
        denominator: (1_000_000 * gain.spec_multiplier()) as i32,
    }
}

/// What a read buffer of four bytes means.
///
/// The register echoed behind the data says whether the buffer holds a new
/// conversion, and at which resolution and gain it was made. A buffer
/// without new data is `NotReady` whatever its data bytes hold. The two
/// extreme codes of a resolution mark an input outside the range and are
/// rejected along with everything beyond them.
pub open spec fn spec_convert<BusError>(buffer: Seq<u8>) -> Result<Voltage, Error<BusError>> {
    let cfg = Cfg::spec_from_byte(spec_config_byte(buffer));
    let code: int = spec_code(spec_raw(buffer, cfg.resolution), cfg.resolution);
    if !cfg.ready {
        Err(Error::NotReady)
    } else if cfg.resolution.spec_min() < code < cfg.resolution.spec_max() {
        Ok(spec_voltage(code, cfg.resolution, cfg.gain))
    } else {
        Err(
            Error::IllegalValue {
                value: code as i32,
                min: cfg.resolution.spec_min(),
                max: cfg.resolution.spec_max(),
            },
        )
    }
}

/// Reads the data bytes of a buffer as one number, most significant byte
/// first.
pub(crate) fn raw_sample(buffer: &[u8; 4], resolution: Resolution) -> (raw: u32)
    ensures
        raw == spec_raw(buffer@, resolution),
        raw < 0x100_0000,
{
    let mut raw: u32 = 0;
    let mut i: usize = 0;
    while i < resolution.bytes()
        invariant
            i <= resolution.spec_bytes() <= 3,
            raw == spec_big_endian(buffer@.subrange(0, i as int)),
            i == 0 ==> raw == 0,
            i == 1 ==> raw < 0x100,
            i == 2 ==> raw < 0x1_0000,
            raw < 0x100_0000,
        decreases resolution.spec_bytes() - i,
    {
        let byte: u8 = buffer[i];
        proof {
            let head = buffer@.subrange(0, i as int + 1);
            assert(head.drop_last() =~= buffer@.subrange(0, i as int));
            assert(head.last() == byte);
            assert((raw << 8u32) | (byte as u32) == 256 * raw + byte) by (bit_vector)
                requires
                    raw < 0x1_0000,
            ;
        }
        raw <<= 8u32;
        raw |= byte as u32;
        i = i + 1;
    }
    raw
}

/// Extends the sign of a raw sample over a 32 bit word.
pub(crate) fn output_code(raw: u32, resolution: Resolution) -> (code: i32)
    requires
        raw < 0x100_0000,
    ensures
        code == spec_code(raw as int, resolution),
{
    proof {
        lemma_sign_extension(raw, resolution);
    }
    if raw & resolution.sign_bit() != 0 {
        (raw | resolution.sign_extend()) as i32
    } else {
        raw as i32
    }
}

/// Scales an output code to the voltage it stands for.
pub(crate) fn voltage(code: i32, resolution: Resolution, gain: Gain) -> (voltage: Voltage)
    requires
        resolution.spec_min() < code < resolution.spec_max(),
    ensures
        voltage == spec_voltage(code as int, resolution, gain),
{
    let codes: i64 = 1i64 << resolution.bits();
    let span: i64 = code as i64 * REFERENCE_VOLTAGE_X2;
    proof {
        lemma_voltage_exact(code as int, resolution, gain);
        match resolution {
            Resolution::TwelveBits => {
                assert(1i64 << 12usize == 0x1000) by (bit_vector);
                assert(span == (code * 1_000_000) * 0x1000);
            },
            Resolution::FourteenBits => {
                assert(1i64 << 14usize == 0x4000) by (bit_vector);
                assert(span == (code * 250_000) * 0x4000);
            },
            Resolution::SixteenBits => {
                assert(1i64 << 16usize == 0x10000) by (bit_vector);
                assert(span == (code * 62_500) * 0x10000);
            },
            Resolution::EighteenBits => {
                assert(1i64 << 18usize == 0x40000) by (bit_vector);
                assert(span == (code * 15_625) * 0x40000);
            },
        }
    }
    Voltage { numerator: span / codes, denominator: 1_000_000 * gain.multiplier() }
}

/// Scaling an output code loses nothing. The input span is a whole multiple
/// of the number of codes, so the division by it leaves no remainder: the
/// numerator is the code times the weight of one code, and the fraction is
/// the code's share of the span of 2 times 2048 millivolts with the gain
/// divided out.
pub proof fn lemma_voltage_exact(code: int, resolution: Resolution, gain: Gain)
    requires
        resolution.spec_min() <= code <= resolution.spec_max(),
    ensures
        REFERENCE_VOLTAGE_X2 as int % resolution.spec_codes() == 0,
        spec_voltage(code, resolution, gain).numerator == code * (REFERENCE_VOLTAGE_X2 as int
            / resolution.spec_codes()),
        spec_voltage(code, resolution, gain).denominator == 1_000_000 * gain.spec_multiplier(),
        spec_voltage(code, resolution, gain).numerator * (resolution.spec_codes()
            * gain.spec_multiplier()) == code * 2 * 2048 * spec_voltage(
            code,
            resolution,
            gain,
        ).denominator,
{
    match resolution {
        Resolution::TwelveBits => {
            assert(code * 4_096_000_000 / 0x1000 == code * 1_000_000);
        },
        Resolution::FourteenBits => {
            assert(code * 4_096_000_000 / 0x4000 == code * 250_000);
        },
        Resolution::SixteenBits => {
            assert(code * 4_096_000_000 / 0x10000 == code * 62_500);
        },
        Resolution::EighteenBits => {
            assert(code * 4_096_000_000 / 0x40000 == code * 15_625);
        },
    }
    let numerator: int = spec_voltage(code, resolution, gain).numerator as int;
    let denominator: int = spec_voltage(code, resolution, gain).denominator as int;
    let weight: int = REFERENCE_VOLTAGE_X2 as int / resolution.spec_codes();
    let codes: int = resolution.spec_codes();
    let multiplier: int = gain.spec_multiplier() as int;
    assert(numerator * (codes * multiplier) == code * 2 * 2048 * denominator) by (nonlinear_arith)
        requires
            numerator == code * weight,
            weight * codes == 4_096_000_000,
            denominator == 1_000_000 * multiplier,
    ;
}

/// The raw sample written out: two data bytes, or three at 18 bits, with
/// the first byte the most significant.
pub proof fn lemma_raw_sample(buffer: Seq<u8>, resolution: Resolution)
    requires
        buffer.len() == 4,
    ensures
        spec_raw(buffer, resolution) == if resolution.spec_bytes() == 3 {
            0x1_0000 * buffer[0] + 0x100 * buffer[1] + buffer[2]
        } else {
            0x100 * buffer[0] + buffer[1]
        },
        0 <= spec_raw(buffer, resolution) < 0x100_0000,
{
    let one = buffer.subrange(0, 1);
    let two = buffer.subrange(0, 2);
    let three = buffer.subrange(0, 3);
    assert(one.drop_last() =~= Seq::<u8>::empty());
    assert(two.drop_last() =~= one);
    assert(three.drop_last() =~= two);
    reveal_with_fuel(spec_big_endian, 4);
    assert(spec_big_endian(one) == buffer[0]);
    assert(spec_big_endian(two) == 0x100 * buffer[0] + buffer[1]);
    assert(spec_big_endian(three) == 0x1_0000 * buffer[0] + 0x100 * buffer[1] + buffer[2]);
}

/// A buffer whose echoed register has the top bit set holds no new data:
/// it decodes to `NotReady` whatever the data bytes are.
pub proof fn lemma_not_ready<BusError>(buffer: Seq<u8>)
    requires
        buffer.len() == 4,
        spec_config_byte(buffer) >= 128,
    ensures
        spec_convert::<BusError>(buffer) == Err::<Voltage, Error<BusError>>(Error::NotReady),
{
}

/// A buffer with new data decodes to a voltage exactly when its output code
/// lies strictly between the extreme codes of its resolution. Every other
/// code is handed back in `IllegalValue` together with the two extremes.
pub proof fn lemma_ready<BusError>(buffer: Seq<u8>)
    requires
        buffer.len() == 4,
        spec_config_byte(buffer) < 128,
    ensures
        ({
            let cfg = Cfg::spec_from_byte(spec_config_byte(buffer));
            let code: int = spec_code(spec_raw(buffer, cfg.resolution), cfg.resolution);
            let min: i32 = cfg.resolution.spec_min();
            let max: i32 = cfg.resolution.spec_max();
            &&& i32::MIN <= code <= i32::MAX
            &&& min < code < max ==> spec_convert::<BusError>(buffer) == Ok::<
                Voltage,
                Error<BusError>,
            >(spec_voltage(code, cfg.resolution, cfg.gain))
            &&& !(min < code < max) ==> spec_convert::<BusError>(buffer) == Err::<
                Voltage,
                Error<BusError>,
            >(Error::IllegalValue { value: code as i32, min, max })
        }),
{
    let cfg = Cfg::spec_from_byte(spec_config_byte(buffer));
    lemma_raw_sample(buffer, cfg.resolution);
    lemma_output_code(spec_raw(buffer, cfg.resolution), cfg.resolution);
}

/// The extreme codes are rejected: a buffer with new data whose output code
/// is the lowest or the highest code of its resolution decodes to
/// `IllegalValue` with that code as its value.
pub proof fn lemma_extremes_rejected<BusError>(buffer: Seq<u8>)
    requires
        buffer.len() == 4,
        spec_config_byte(buffer) < 128,
        ({
            let resolution = Cfg::spec_from_byte(spec_config_byte(buffer)).resolution;
            let code: int = spec_code(spec_raw(buffer, resolution), resolution);
            code == resolution.spec_min() || code == resolution.spec_max()
        }),
    ensures
        ({
            let resolution = Cfg::spec_from_byte(spec_config_byte(buffer)).resolution;
            let code: int = spec_code(spec_raw(buffer, resolution), resolution);
            spec_convert::<BusError>(buffer) == Err::<Voltage, Error<BusError>>(
                Error::IllegalValue {
                    value: code as i32,
                    min: resolution.spec_min(),
                    max: resolution.spec_max(),
                },
            )
        }),
{
}

/// A buffer in which the device echoes a register with new data is decoded
/// by that register: at its resolution and with its gain. The echo stands
/// behind the data bytes of that resolution, and below 18 bits the byte
/// behind the echo must not name 18 bits. That holds of a device that
/// repeats the register there, and of a buffer that ends in zero.
pub proof fn lemma_echo<BusError>(buffer: Seq<u8>, cfg: Cfg)
    requires
        buffer.len() == 4,
        cfg.ready,
        buffer[cfg.resolution.spec_bytes() as int] == cfg.spec_as_byte(),
        cfg.resolution != Resolution::EighteenBits ==> buffer[3] == cfg.spec_as_byte()
            || buffer[3] == 0,
    ensures
        Cfg::spec_from_byte(spec_config_byte(buffer)) == cfg,
        ({
            let code: int = spec_code(spec_raw(buffer, cfg.resolution), cfg.resolution);
            spec_convert::<BusError>(buffer) == if cfg.resolution.spec_min() < code
                < cfg.resolution.spec_max() {
                Ok::<Voltage, Error<BusError>>(spec_voltage(code, cfg.resolution, cfg.gain))
            } else {
                Err::<Voltage, Error<BusError>>(
                    Error::IllegalValue {
                        value: code as i32,
                        min: cfg.resolution.spec_min(),
                        max: cfg.resolution.spec_max(),
                    },
                )
            }
        }),
{
    cfg.lemma_decode_encode();
}

/// How a raw sample is read. With the sign bit set the code is negative
/// and not below the lowest code, and it is the lowest code exactly when no
/// bit of the sample but the sign bit is set. With the sign bit clear the
/// code is the raw sample, which is the highest code exactly when every bit
/// of the sample but the sign bit is set and none above it. Either way code
/// and raw sample agree in the bits of the sample.
pub proof fn lemma_output_code(raw: int, resolution: Resolution)
    requires
        0 <= raw < 0x100_0000,
    ensures
        ({
            let code: int = spec_code(raw, resolution);
            let sign: int = resolution.spec_sign_bit() as int;
            let codes: int = resolution.spec_codes();
            &&& (raw / sign) % 2 == 1 ==> resolution.spec_min() <= code < 0
            &&& (raw / sign) % 2 != 1 ==> code == raw
            &&& (code - raw) % codes == 0
            &&& code == resolution.spec_min() <==> raw % codes == sign
            &&& code == resolution.spec_max() <==> raw == sign - 1
        }),
{
    let sign: int = resolution.spec_sign_bit() as int;
    let codes: int = resolution.spec_codes();
    assert(codes == 2 * sign);
    let high: int = raw / codes;
    let low: int = raw % codes;
    assert(raw == codes * high + low) by {
        vstd::arithmetic::div_mod::lemma_fundamental_div_mod(raw, codes);
    }
    assert(0 <= low < codes);
    assert(raw / sign == 2 * high + low / sign && (raw / sign) % 2 == low / sign) by {
        if low < sign {
            vstd::arithmetic::div_mod::lemma_fundamental_div_mod_converse(
                raw,
                sign,
                2 * high,
                low,
            );
        } else {
            vstd::arithmetic::div_mod::lemma_fundamental_div_mod_converse(
                raw,
                sign,
                2 * high + 1,
                low - sign,
            );
        }
    }
    let code: int = spec_code(raw, resolution);
    if (raw / sign) % 2 == 1 {
        assert(code - raw == (-high - 1) * codes) by (nonlinear_arith)
            requires
                code == low - codes,
                raw == codes * high + low,
        ;
        vstd::arithmetic::div_mod::lemma_fundamental_div_mod_converse(
            code - raw,
            codes,
            -high - 1,
            0,
        );
    } else {
        vstd::arithmetic::div_mod::lemma_fundamental_div_mod_converse(code - raw, codes, 0, 0);
    }
}

/// Every code of a resolution is read back from its two's complement
/// image in the data bytes, whose sign runs through to the top bit.
pub proof fn lemma_twos_complement(code: int, resolution: Resolution)
    requires
        resolution.spec_min() <= code <= resolution.spec_max(),
    ensures
        code >= 0 ==> spec_code(code, resolution) == code,
        code < 0 && resolution.spec_bytes() == 2 ==> spec_code(code + 0x1_0000, resolution) == code,
        code < 0 && resolution.spec_bytes() == 3 ==> spec_code(code + 0x100_0000, resolution)
            == code,
{
    let sign: int = resolution.spec_sign_bit() as int;
    let codes: int = resolution.spec_codes();
    if code >= 0 {
        vstd::arithmetic::div_mod::lemma_fundamental_div_mod_converse(code, sign, 0, code);
    } else {
        let raw: int = if resolution.spec_bytes() == 2 {
            code + 0x1_0000
        } else {
            code + 0x100_0000
        };
        let top: int = if resolution.spec_bytes() == 2 {
            0x1_0000int / codes
        } else {
            0x100_0000int / codes
        };
        assert(raw == codes * (top - 1) + (code + codes));
        assert(raw == sign * (2 * top - 1) + (code + sign));
        vstd::arithmetic::div_mod::lemma_fundamental_div_mod_converse(
            raw,
            sign,
            2 * top - 1,
            code + sign,
        );
        vstd::arithmetic::div_mod::lemma_fundamental_div_mod_converse(
            raw,
            codes,
            top - 1,
            code + codes,
        );
    }
}

/// Sign extension in a 32 bit word computes the output code: testing the
/// sign bit and setting every bit above the sample gives, read as a signed
/// number, the two's complement value of the sample's bits.
proof fn lemma_sign_extension(raw: u32, resolution: Resolution)
    requires
        raw < 0x100_0000,
    ensures
        raw & resolution.spec_sign_bit() != 0 <==> (raw as int / (resolution.spec_sign_bit() as int))
            % 2 == 1,
        raw & resolution.spec_sign_bit() != 0 ==> (raw | resolution.spec_sign_extend()) as i32
            == raw % (resolution.spec_codes() as u32) - resolution.spec_codes(),
        raw as i32 == raw,
{
    match resolution {
        Resolution::TwelveBits => {
            assert(raw & 0x800 != 0 <==> (raw / 0x800) % 2 == 1) by (bit_vector);
            assert(raw & 0x800 != 0 ==> (raw | 0xFFFFF000) as i32 == raw % 0x1000 - 0x1000)
                by (bit_vector);
        },
        Resolution::FourteenBits => {
            assert(raw & 0x2000 != 0 <==> (raw / 0x2000) % 2 == 1) by (bit_vector);
            assert(raw & 0x2000 != 0 ==> (raw | 0xFFFFC000) as i32 == raw % 0x4000 - 0x4000)
                by (bit_vector);
        },
        Resolution::SixteenBits => {
            assert(raw & 0x8000 != 0 <==> (raw / 0x8000) % 2 == 1) by (bit_vector);
            assert(raw & 0x8000 != 0 ==> (raw | 0xFFFF0000) as i32 == raw % 0x10000 - 0x10000)
                by (bit_vector);
        },
        Resolution::EighteenBits => {
            assert(raw & 0x20000 != 0 <==> (raw / 0x20000) % 2 == 1) by (bit_vector);
            assert(raw & 0x20000 != 0 ==> (raw | 0xFFFC0000) as i32 == raw % 0x40000 - 0x40000)
                by (bit_vector);
        },
    }
    assert(raw as i32 == raw) by (bit_vector)
        requires
            raw < 0x100_0000,
    ;
}

} // verus!
