//! Conversion of raw sensor readings into physical units with 16.16
//! fixed-point arithmetic.
//!
//! A raw reading is first turned into a fraction of `u16::MAX` with sixteen
//! fractional bits, and then scaled by the sensor's transfer function. The arithmetic is done by
//! the `fixed` crate; results are handed out as [`FixedPoint`], which holds
//! the raw bits of an `I16F16`.
use vstd::arithmetic::div_mod::{
    lemma_div_denominator, lemma_div_is_ordered, lemma_div_multiples_vanish,
    lemma_fundamental_div_mod, lemma_mod_bound,
};
use vstd::prelude::*;

use fixed::types::{I16F16, U16F16};

verus! {

/// Number of raw bits per unit in a 16.16 fixed-point number.
pub const ONE: i32 = 0x1_0000;

/// A signed fixed-point number with sixteen fractional bits, held as its raw
/// bits: it stands for `bits / 65536`.
#[derive(Debug, Clone, Copy, PartialEq, Eq, Structural)]
pub struct FixedPoint {
    /// Two's-complement bits of the number, sixteen of them fractional.
    pub bits: i32,
}

impl FixedPoint {
    /// The number with the given raw bits.
    pub fn from_bits(bits: i32) -> (r: Self)
        ensures
            r.bits == bits,
    {
        FixedPoint { bits }
    }

    /// The raw bits of the number.
    pub fn to_bits(&self) -> (r: i32)
        ensures
            r == self.bits,
    {
        self.bits
    }
}

/// Relies on `U16F16::from_num` of `fixed`: an integer becomes the number with
/// that integer part and no fraction.
#[verifier::external_body]
fn u16f16_from_u16(x: u16) -> (r: u32)
    ensures
        r == x * 0x1_0000,
{
    U16F16::from_num(x).to_bits()
}

/// Relies on `Div` for `U16F16` of `fixed`: the quotient of the bits shifted
/// left by sixteen, rounded down; it panics on a zero divisor and does not fit
/// a quotient of 2^32 or more.
#[verifier::external_body]
fn u16f16_div(a: u32, b: u32) -> (r: u32)
    requires
        b != 0,
        (a * 0x1_0000) / (b as int) < 0x1_0000_0000,
    ensures
        r == (a * 0x1_0000) / (b as int),
{
    (U16F16::from_bits(a) / U16F16::from_bits(b)).to_bits()
}

/// Relies on `I16F16::from_num` of `fixed` taking a `U16F16`: with equal
/// fractional bits the value is kept, as long as it fits.
#[verifier::external_body]
fn i16f16_from_u16f16(x: u32) -> (r: i32)
    requires
        x < 0x8000_0000,
    ensures
        r == x,
{
    I16F16::from_num(U16F16::from_bits(x)).to_bits()
}

/// Relies on `I16F16::from_num` of `fixed` taking an `i32`: an integer becomes
/// the number with that integer part and no fraction, as long as it fits.
#[verifier::external_body]
fn i16f16_from_i32(x: i32) -> (r: i32)
    requires
        -0x8000 <= x < 0x8000,
    ensures
        r == x * 0x1_0000,
{
    I16F16::from_num(x).to_bits()
}

/// Relies on `Mul` for `I16F16` of `fixed`: the product of the bits is formed
/// in 64 bits, shifted left by sixteen, and its top half kept, which rounds
/// the product down.
#[verifier::external_body]
fn i16f16_mul(a: i32, b: i32) -> (r: i32)
    requires
        -0x8000_0000_0000_0000 <= a * b * 0x1_0000 < 0x8000_0000_0000_0000,
        i32::MIN <= (a * b) / 0x1_0000 <= i32::MAX,
    ensures
        r == (a * b) / 0x1_0000,
{
    (I16F16::from_bits(a) * I16F16::from_bits(b)).to_bits()
}

/// Relies on `Add` for `I16F16` of `fixed`: the bits are added.
#[verifier::external_body]
fn i16f16_add(a: i32, b: i32) -> (r: i32)
    requires
        i32::MIN <= a + b <= i32::MAX,
    ensures
        r == a + b,
{
    (I16F16::from_bits(a) + I16F16::from_bits(b)).to_bits()
}

/// Relies on `Ord::clamp` for `I16F16`, which `fixed` orders by the bits: the
/// bound that the value passes, or the value itself.
#[verifier::external_body]
fn i16f16_clamp(x: i32, lo: i32, hi: i32) -> (r: i32)
    requires
        lo <= hi,
    ensures
        r == if x < lo {
            lo
        } else if x > hi {
            hi
        } else {
            x
        },
{
    I16F16::from_bits(x).clamp(I16F16::from_bits(lo), I16F16::from_bits(hi)).to_bits()
}

/// The reading as a fraction of 65535, in 16.16 bits rounded down.
pub open spec fn fraction_bits(reading: u16) -> int {
    (reading * 0x1_0000) / 65535
}

/// Bits of `offset + scale * fraction`, for integers `offset` and `scale`.
pub open spec fn scaled_bits(offset: int, scale: int, reading: u16) -> int {
    offset * 0x1_0000 + scale * fraction_bits(reading)
}

/// Bits of the temperature in degrees celsius: `-45 + 175 * reading / 65535`.
pub open spec fn celsius_bits(reading: u16) -> int {
    scaled_bits(-45, 175, reading)
}

/// Bits of the temperature in degrees fahrenheit: `-49 + 315 * reading / 65535`.
pub open spec fn fahrenheit_bits(reading: u16) -> int {
    scaled_bits(-49, 315, reading)
}

/// Bits of the relative humidity in percent, `-6 + 125 * reading / 65535`,
/// clamped to `0..=100`.
pub open spec fn humidity_bits(reading: u16) -> int {
    let h = scaled_bits(-6, 125, reading);
    if h < 0 {
        0
    } else if h > 100 * 0x1_0000 {
        100 * 0x1_0000int
    } else {
        h
    }
}

/// The 16.16 result of `offset + scale * reading / 65535` lies at most
/// `scale / 65536` below the exact value and never above it: with `x` the
/// exact value, `bits / 65536 <= x < (bits + scale) / 65536`.
pub proof fn lemma_scaled_bits_precision(offset: int, scale: int, reading: u16)
    requires
        scale > 0,
    ensures
        0 <= (offset * 65535 + scale * reading) * 0x1_0000 - scaled_bits(offset, scale, reading)
            * 65535 < scale * 65535,
{
    let x = reading * 0x1_0000;
    let q = fraction_bits(reading);
    lemma_fundamental_div_mod(x, 65535);
    lemma_mod_bound(x, 65535);
    let rem = x % 65535;
    assert(x == 65535 * q + rem);
    assert((offset * 65535 + scale * reading) * 0x1_0000 - scaled_bits(offset, scale, reading)
        * 65535 == scale * rem) by (nonlinear_arith)
        requires
            x == reading * 0x1_0000,
            x == 65535 * q + rem,
            scaled_bits(offset, scale, reading) == offset * 0x1_0000 + scale * q,
    ;
    assert(0 <= scale * rem < scale * 65535) by (nonlinear_arith)
        requires
            scale > 0,
            0 <= rem < 65535,
    ;
}

/// The reading as a fraction of `u16::MAX`, in 16.16 bits.
fn reading_fraction(reading: u16) -> (r: i32)
    ensures
        r == fraction_bits(reading),
        0 <= r <= 0x1_0000,
{
    let num = u16f16_from_u16(reading);
    let den = u16f16_from_u16(u16::MAX);
    proof {
        let x = reading * 0x1_0000;
        lemma_div_denominator(x * 0x1_0000, 0x1_0000, 65535);
        lemma_div_multiples_vanish(x, 0x1_0000);
        assert(0x1_0000 * x == x * 0x1_0000);
        assert((x * 0x1_0000) / (den as int) == x / 65535);
        lemma_div_is_ordered(x, 65535 * 0x1_0000int, 65535);
        lemma_div_multiples_vanish(0x1_0000, 65535);
        lemma_div_is_ordered(0, x, 65535);
    }
    let fraction = u16f16_div(num, den);
    i16f16_from_u16f16(fraction)
}

/// `offset + scale * fraction` in 16.16 arithmetic.
fn scale_fraction(offset: i32, scale: i32, fraction: i32) -> (r: i32)
    requires
        -0x100 <= offset <= 0x100,
        0 <= scale <= 0x400,
        0 <= fraction <= 0x1_0000,
    ensures
        r == offset * 0x1_0000 + scale * fraction,
{
    let off = i16f16_from_i32(offset);
    let k = i16f16_from_i32(scale);
    proof {
        assert(0 <= scale * fraction <= 0x400 * 0x1_0000) by (nonlinear_arith)
            requires
                0 <= scale <= 0x400,
                0 <= fraction <= 0x1_0000,
        ;
        assert(k * fraction == 0x1_0000 * (scale * fraction)) by (nonlinear_arith)
            requires
                k == scale * 0x1_0000,
        ;
        lemma_div_multiples_vanish(scale * fraction, 0x1_0000);
    }
    let product = i16f16_mul(k, fraction);
    i16f16_add(off, product)
}

/// Convert the raw humidity reading to percent relative humidity, clamped to
/// `0..=100`.
pub fn humidity_reading_to_percent_rh(reading: u16) -> (r: FixedPoint)
    ensures
        r.bits == humidity_bits(reading),
{
    let fraction = reading_fraction(reading);
    let converted = scale_fraction(-6, 125, fraction);
    FixedPoint { bits: i16f16_clamp(converted, 0, 100 * ONE) }
}

/// Convert the raw temperature reading to degrees celsius.
pub fn temperature_reading_to_celsius(reading: u16) -> (r: FixedPoint)
    ensures
        r.bits == celsius_bits(reading),
        0 <= (-45 * 65535 + 175 * reading) * 0x1_0000 - r.bits * 65535 < 175 * 65535,
{
    proof {
        lemma_scaled_bits_precision(-45, 175, reading);
    }
    let fraction = reading_fraction(reading);
    FixedPoint { bits: scale_fraction(-45, 175, fraction) }
}

/// Convert the raw temperature reading to degrees fahrenheit.
pub fn temperature_reading_to_fahrenheit(reading: u16) -> (r: FixedPoint)
    ensures
        r.bits == fahrenheit_bits(reading),
        0 <= (-49 * 65535 + 315 * reading) * 0x1_0000 - r.bits * 65535 < 315 * 65535,
{
    proof {
        lemma_scaled_bits_precision(-49, 315, reading);
    }
    let fraction = reading_fraction(reading);
    FixedPoint { bits: scale_fraction(-49, 315, fraction) }
}

} // verus!
