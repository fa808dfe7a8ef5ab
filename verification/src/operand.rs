//! Numeric operands, classified by their IEEE 754 binary64 bit patterns.
//!
//! The calculator works on 64-bit floating-point values, but this crate
//! never performs floating-point arithmetic itself: an [`Operand`] carries
//! the raw bit pattern of the value together with its decimal rendering,
//! both supplied by the host that produced the value. Whether a value is
//! NaN, infinite, zero or negative is fully determined by the bit pattern,
//! so the validation rules of the calculator are ordinary integer logic.

use vstd::prelude::*;

verus! {

/// The exponent field of an IEEE 754 binary64 value: bits 52..=62.
pub open spec fn exponent_field(bits: u64) -> u64 {
    (bits >> 52) & 0x7ff
}

/// The fraction (significand) field of an IEEE 754 binary64 value: bits 0..=51.
pub open spec fn fraction_field(bits: u64) -> u64 {
    bits & 0x000f_ffff_ffff_ffff
}

/// The sign bit of an IEEE 754 binary64 value: bit 63.
pub open spec fn sign_bit_set(bits: u64) -> bool {
    bits & 0x8000_0000_0000_0000 != 0
}

/// A binary64 value is NaN exactly when its exponent field is all ones and
/// its fraction field is nonzero.
pub open spec fn is_nan_bits(bits: u64) -> bool {
    exponent_field(bits) == 0x7ff && fraction_field(bits) != 0
}

/// A binary64 value is an infinity exactly when its exponent field is all
/// ones and its fraction field is zero.
pub open spec fn is_infinite_bits(bits: u64) -> bool {
    exponent_field(bits) == 0x7ff && fraction_field(bits) == 0
}

/// A binary64 value is finite exactly when its exponent field is not all ones.
pub open spec fn is_finite_bits(bits: u64) -> bool {
    exponent_field(bits) != 0x7ff
}

/// A binary64 value compares equal to zero exactly when everything but the
/// sign bit is clear (this covers both positive and negative zero).
pub open spec fn is_zero_bits(bits: u64) -> bool {
    bits & 0x7fff_ffff_ffff_ffff == 0
}

/// A finite binary64 value is strictly negative exactly when its sign bit is
/// set and it is not a zero (negative zero compares equal to zero).
pub open spec fn is_negative_bits(bits: u64) -> bool {
    sign_bit_set(bits) && !is_zero_bits(bits)
}

/// The specification-level value of an [`Operand`].
pub ghost struct OperandView {
    /// The IEEE 754 binary64 bit pattern of the value.
    pub bits: u64,
    /// The decimal rendering of the value.
    pub text: Seq<char>,
}

/// One numeric operand: the bit pattern of a 64-bit floating-point value
/// together with its decimal rendering.
///
/// The rendering is attached by whoever produced the value (the host that
/// decoded a request or evaluated an operation); the calculator treats it as
/// opaque text and uses it only when composing result and error messages.
#[derive(Debug)]
pub struct Operand {
    /// The IEEE 754 binary64 bit pattern of the value.
    pub bits: u64,
    /// The decimal rendering of the value.
    pub text: String,
}

impl View for Operand {
    type V = OperandView;

    open spec fn view(&self) -> OperandView {
        OperandView { bits: self.bits, text: self.text@ }
    }
}

impl Clone for Operand {
    fn clone(&self) -> (result: Self)
        ensures
            result == *self,
    {
        Operand { bits: self.bits, text: self.text.clone() }
    }
}

impl Operand {
    /// Packs a bit pattern and its decimal rendering into an operand.
    pub fn new(bits: u64, text: String) -> (result: Self)
        ensures
            result@ == (OperandView { bits, text: text@ }),
    {
        Operand { bits, text }
    }

    /// True when the value is NaN.
    pub fn is_nan(&self) -> (result: bool)
        ensures
            result == is_nan_bits(self.bits),
    {
        (self.bits >> 52) & 0x7ff == 0x7ff && self.bits & 0x000f_ffff_ffff_ffff != 0
    }

    /// True when the value is positive or negative infinity.
    pub fn is_infinite(&self) -> (result: bool)
        ensures
            result == is_infinite_bits(self.bits),
    {
        (self.bits >> 52) & 0x7ff == 0x7ff && self.bits & 0x000f_ffff_ffff_ffff == 0
    }

    /// True when the value is finite: neither NaN nor an infinity.
    pub fn is_finite(&self) -> (result: bool)
        ensures
            result == is_finite_bits(self.bits),
    {
        (self.bits >> 52) & 0x7ff != 0x7ff
    }

    /// True when the value compares equal to zero (either signed zero).
    pub fn is_zero(&self) -> (result: bool)
        ensures
            result == is_zero_bits(self.bits),
    {
        self.bits & 0x7fff_ffff_ffff_ffff == 0
    }

    /// True when a finite value is strictly below zero.
    pub fn is_negative(&self) -> (result: bool)
        ensures
            result == is_negative_bits(self.bits),
    {
        self.bits & 0x8000_0000_0000_0000 != 0 && self.bits & 0x7fff_ffff_ffff_ffff != 0
    }
}

} // verus!
