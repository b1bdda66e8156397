//! Conversion between converter codes and signed samples.
//!
//! The ADCs deliver two's-complement words and the DACs take offset-binary words. In between, a
//! sample is a signed 16-bit number.

use vstd::prelude::*;

verus! {

/// The largest sample, and the scale of the signal path: a full-scale signal spans
/// `-SCALE - 1 ..= SCALE`.
pub const SCALE: i16 = 32767;

/// The number of DAC codes below the one for sample zero.
pub const DAC_MIDSCALE: u16 = 0x8000;

/// The number that a two's-complement word of 16 bits stands for.
pub open spec fn twos_complement(code: u16) -> int {
    if code < 0x8000 {
        code as int
    } else {
        code - 0x1_0000
    }
}

/// The DAC code of a sample: codes count upwards from the most negative sample.
pub open spec fn offset_binary(y: int) -> int {
    y + DAC_MIDSCALE
}

/// The sample in a word read from an ADC.
pub fn adc_sample(code: u16) -> (x: i16)
    ensures
        x == twos_complement(code),
        x == if code < 0x8000 {
            code as int
        } else {
            code - 0x1_0000
        },
{
    assert(code < 0x8000 ==> code as i16 == code) by (bit_vector);
    assert(code >= 0x8000 ==> code as i16 == code - 0x1_0000) by (bit_vector);
    code as i16
}

/// The word to send to a DAC for a sample.
pub fn dac_code(y: i16) -> (code: u16)
    ensures
        code == offset_binary(y as int),
        code == y + 0x8000,
{
    assert((y as u16) ^ 0x8000u16 == y + 0x8000) by (bit_vector);
    y as u16 ^ DAC_MIDSCALE
}

/// A sample is the number between `-0x8000` and `0x7fff` that has the same low 16 bits as the ADC
/// word: there is only one.
pub proof fn law_adc_value(code: u16)
    ensures
        -0x8000 <= twos_complement(code) <= 0x7fff,
        (twos_complement(code) - code) % 0x1_0000 == 0,
{
}

/// Code zero is for the most negative sample, and a step in the sample is a step in the code.
pub proof fn law_dac_value(x: int, y: int)
    ensures
        offset_binary(-0x8000) == 0,
        offset_binary(x) - offset_binary(y) == x - y,
{
}

/// The samples an ADC can deliver are exactly `-SCALE - 1 ..= SCALE`, and no two ADC words stand
/// for the same sample.
pub proof fn law_adc_samples(a: u16, b: u16, x: int)
    ensures
        -SCALE - 1 <= twos_complement(a) <= SCALE,
        twos_complement(a) == twos_complement(b) ==> a == b,
        -SCALE - 1 <= x <= SCALE ==> exists|c: u16| #[trigger] twos_complement(c) == x,
{
    if -SCALE - 1 <= x <= SCALE {
        let c: u16 = if x < 0 {
            (x + 0x1_0000) as u16
        } else {
            x as u16
        };
        assert(twos_complement(c) == x);
    }
}

/// DAC codes order samples as the samples are ordered, and samples `-SCALE - 1 ..= SCALE` take up
/// exactly the range of a 16-bit word.
pub proof fn law_dac_codes(x: int, y: int)
    ensures
        offset_binary(x) < offset_binary(y) <==> x < y,
        0 <= offset_binary(x) <= u16::MAX <==> -SCALE - 1 <= x <= SCALE,
{
}

/// A sample that passes unchanged from an ADC to a DAC has its sign bit inverted and its other
/// bits kept.
pub proof fn law_pass_through(code: u16)
    ensures
        offset_binary(twos_complement(code)) == code ^ DAC_MIDSCALE,
{
    assert(code < 0x8000 ==> code ^ 0x8000u16 == code + 0x8000) by (bit_vector);
    assert(code >= 0x8000 ==> code ^ 0x8000u16 == code - 0x8000) by (bit_vector);
}

} // verus!
