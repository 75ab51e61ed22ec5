//! The per-camera settings record.
//!
//! The strength of the effect is a single-precision number. The record
//! carries it as its IEEE 754 bit pattern: one sign bit, eight exponent bits
//! and twenty-three fraction bits.

use vstd::prelude::*;
use vstd::arithmetic::power2::{lemma2_to64, lemma_pow2_adds, lemma_pow2_pos, lemma_pow2_strictly_increases, pow2};

verus! {

/// Bit pattern of the default strength, the single-precision number nearest to 0.2.
pub const DEFAULT_STRENGTH_BITS: u32 = 0x3E4C_CCCD;

/// Bit pattern of 0.0, the least strength of the declared range.
pub const MIN_STRENGTH_BITS: u32 = 0x0000_0000;

/// Bit pattern of 1.0, the greatest strength of the declared range.
pub const MAX_STRENGTH_BITS: u32 = 0x3F80_0000;

/// Bit pattern of negative zero, which equals 0.0 as a number.
pub const NEGATIVE_ZERO_BITS: u32 = 0x8000_0000;

/// The sign bit of a pattern: 1 for a negative number.
pub open spec fn sign_field(bits: u32) -> nat {
    (bits >> 31) as nat
}

/// The biased exponent of a pattern.
pub open spec fn exponent_field(bits: u32) -> nat {
    ((bits >> 23) & 0xff) as nat
}

/// The fraction bits of a pattern.
pub open spec fn fraction_field(bits: u32) -> nat {
    (bits & 0x7f_ffff) as nat
}

/// Whether a pattern encodes a number, and not an infinity or a NaN.
pub open spec fn is_finite(bits: u32) -> bool {
    exponent_field(bits) < 255
}

/// The absolute value of the number that a finite pattern encodes, counted
/// in units of 2^-149, the spacing of the smallest numbers of the format.
pub open spec fn magnitude(bits: u32) -> nat {
    if exponent_field(bits) == 0 {
        fraction_field(bits)
    } else {
        (0x80_0000 + fraction_field(bits)) * pow2((exponent_field(bits) - 1) as nat)
    }
}

/// The distance from the number that a finite pattern encodes to the next
/// one away from zero, in units of 2^-149.
pub open spec fn spacing(bits: u32) -> nat {
    if exponent_field(bits) == 0 {
        1
    } else {
        pow2((exponent_field(bits) - 1) as nat)
    }
}

/// Whether a pattern encodes a number `x` with `0 <= x <= 1`. In units of
/// 2^-149 the number 1 is 2^149.
pub open spec fn in_unit_interval(bits: u32) -> bool {
    &&& is_finite(bits)
    &&& magnitude(bits) <= pow2(149)
    &&& (sign_field(bits) == 0 || magnitude(bits) == 0)
}

/// Settings of the effect for one camera.
#[derive(Clone, Copy, Debug)]
#[non_exhaustive]
pub struct FilmGrainSettings {
    /// How strongly the grain is blended into the image, as the bit pattern
    /// of a single-precision number. The declared range is 0.0 to 1.0;
    /// nothing here enforces it.
    pub strength_bits: u32,
}

impl FilmGrainSettings {
    /// Settings with the given strength.
    pub fn from_strength(strength_bits: u32) -> (settings: Self)
        ensures
            settings.strength_bits == strength_bits,
    {
        FilmGrainSettings { strength_bits }
    }

    /// Whether the strength lies in the declared range, 0.0 to 1.0.
    pub fn strength_in_range(&self) -> (in_range: bool)
        ensures
            in_range == in_unit_interval(self.strength_bits),
    {
        proof {
            lemma_unit_interval_patterns(self.strength_bits);
        }
        self.strength_bits <= MAX_STRENGTH_BITS || self.strength_bits == NEGATIVE_ZERO_BITS
    }
}

impl Default for FilmGrainSettings {
    /// Settings with the default strength, which lies in the declared range.
    fn default() -> (settings: Self)
        ensures
            settings.strength_bits == DEFAULT_STRENGTH_BITS,
            in_unit_interval(settings.strength_bits),
    {
        proof {
            lemma_unit_interval_patterns(DEFAULT_STRENGTH_BITS);
        }
        FilmGrainSettings { strength_bits: DEFAULT_STRENGTH_BITS }
    }
}

/// A pattern is the sum of its three fields, each at its place.
pub proof fn lemma_fields(bits: u32)
    ensures
        sign_field(bits) <= 1,
        exponent_field(bits) <= 255,
        fraction_field(bits) < 0x80_0000,
        bits == sign_field(bits) * 0x8000_0000 + exponent_field(bits) * 0x80_0000
            + fraction_field(bits),
{
    let s: u32 = bits >> 31;
    let e: u32 = (bits >> 23) & 0xff;
    let f: u32 = bits & 0x7f_ffff;
    assert(s <= 1 && e <= 255 && f < 0x80_0000 && bits == s * 0x8000_0000 + e * 0x80_0000 + f)
        by (bit_vector)
        requires
            s == bits >> 31,
            e == (bits >> 23) & 0xff,
            f == bits & 0x7f_ffff,
    ;
}

/// The magnitude of a pattern with a nonzero exponent field `e` lies from
/// 2^(e+22) up to, but not including, 2^(e+23).
pub proof fn lemma_magnitude_bounds(bits: u32)
    requires
        exponent_field(bits) >= 1,
    ensures
        pow2(exponent_field(bits) + 22) <= magnitude(bits) < pow2(exponent_field(bits) + 23),
        magnitude(bits) == pow2(exponent_field(bits) + 22) <==> fraction_field(bits) == 0,
{
    lemma_fields(bits);
    lemma2_to64();
    let e: nat = exponent_field(bits);
    let f: nat = fraction_field(bits);
    let scale: nat = pow2((e - 1) as nat);
    lemma_pow2_pos((e - 1) as nat);
    lemma_pow2_adds(23, (e - 1) as nat);
    lemma_pow2_adds(24, (e - 1) as nat);
    assert(0x80_0000 * scale <= (0x80_0000 + f) * scale < 0x100_0000 * scale) by (nonlinear_arith)
        requires
            0 <= f < 0x80_0000,
            scale > 0,
    ;
    assert((0x80_0000 + f) * scale == 0x80_0000 * scale <==> f == 0) by (nonlinear_arith)
        requires
            0 <= f,
            scale > 0,
    ;
}

/// The patterns of the numbers from 0 to 1 are those from the pattern of
/// 0.0 to the pattern of 1.0, and that of negative zero.
pub proof fn lemma_unit_interval_patterns(bits: u32)
    ensures
        in_unit_interval(bits) <==> (bits <= MAX_STRENGTH_BITS || bits == NEGATIVE_ZERO_BITS),
{
    lemma_fields(bits);
    lemma2_to64();
    let e: nat = exponent_field(bits);
    if e == 0 {
        lemma_pow2_strictly_increases(23, 149);
    } else {
        lemma_magnitude_bounds(bits);
        lemma_pow2_pos(e + 22);
        if e < 126 {
            lemma_pow2_strictly_increases(e + 23, 149);
        } else if e > 127 {
            lemma_pow2_strictly_increases(149, e + 22);
        }
    }
}

/// The ends of the declared range encode the numbers 0 and 1, and negative
/// zero is zero with the sign bit set.
pub proof fn lemma_range_constants()
    ensures
        sign_field(MIN_STRENGTH_BITS) == 0,
        magnitude(MIN_STRENGTH_BITS) == 0,
        sign_field(MAX_STRENGTH_BITS) == 0,
        is_finite(MAX_STRENGTH_BITS),
        magnitude(MAX_STRENGTH_BITS) == pow2(149),
        sign_field(NEGATIVE_ZERO_BITS) == 1,
        magnitude(NEGATIVE_ZERO_BITS) == 0,
{
    assert(0u32 >> 31 == 0 && (0u32 >> 23) & 0xff == 0 && 0u32 & 0x7f_ffff == 0) by (bit_vector);
    assert(0x3F80_0000u32 >> 31 == 0 && (0x3F80_0000u32 >> 23) & 0xff == 127 && 0x3F80_0000u32
        & 0x7f_ffff == 0) by (bit_vector);
    assert(0x8000_0000u32 >> 31 == 1 && (0x8000_0000u32 >> 23) & 0xff == 0 && 0x8000_0000u32
        & 0x7f_ffff == 0) by (bit_vector);
    lemma2_to64();
    lemma_pow2_adds(23, 126);
}

/// The default strength is one fifth, rounded to the nearest number of the
/// format. Its neighbours lie one spacing away on either side, as its
/// fraction field is not zero; five times the default exceeds 1 by one
/// spacing, so the default differs from one fifth by a fifth of the spacing,
/// which is less than half of it.
pub proof fn lemma_default_strength_is_one_fifth()
    ensures
        sign_field(DEFAULT_STRENGTH_BITS) == 0,
        is_finite(DEFAULT_STRENGTH_BITS),
        fraction_field(DEFAULT_STRENGTH_BITS) != 0,
        spacing(DEFAULT_STRENGTH_BITS) == pow2(123),
        5 * magnitude(DEFAULT_STRENGTH_BITS) == pow2(149) + spacing(DEFAULT_STRENGTH_BITS),
        2 * (5 * magnitude(DEFAULT_STRENGTH_BITS) - pow2(149)) < 5 * spacing(
            DEFAULT_STRENGTH_BITS,
        ),
{
    assert(0x3E4C_CCCDu32 >> 31 == 0 && (0x3E4C_CCCDu32 >> 23) & 0xff == 124 && 0x3E4C_CCCDu32
        & 0x7f_ffff == 0x4C_CCCD) by (bit_vector);
    lemma2_to64();
    lemma_pow2_adds(26, 123);
    lemma_pow2_pos(123);
    let unit: nat = pow2(123);
    assert(pow2(149) == 0x400_0000 * unit);
    assert(magnitude(DEFAULT_STRENGTH_BITS) == 0xCC_CCCD * unit);
}

} // verus!
