//! The numeric subkinds shared by the two value algebras.
//!
//! A floating-point quantity is carried as its IEEE 754 double-precision
//! bit pattern, so that the finiteness of the encoded value is a plain
//! integer property of the bits.

use vstd::prelude::*;

verus! {

/// A numeric value with its subtype distinction kept: an unsigned
/// integer, a signed integer, or a floating-point value given by its
/// IEEE 754 double-precision bit pattern.
#[derive(Debug, Clone, Copy, PartialEq, Eq, Structural)]
pub enum NumberValue {
    PosInt(u64),
    NegInt(i64),
    Float(u64),
}

/// Whether an IEEE 754 double-precision bit pattern encodes a finite
/// value: the exponent field must not be all ones (all ones encodes
/// an infinity or a NaN).
pub open spec fn finite_bits(bits: u64) -> bool {
    (bits >> 52) & 0x7ff != 0x7ff
}

/// Whether a numeric value is finite; integers always are.
pub open spec fn number_finite(n: NumberValue) -> bool {
    match n {
        NumberValue::Float(bits) => finite_bits(bits),
        _ => true,
    }
}

/// Decides finiteness of a double-precision bit pattern.
pub fn is_finite_bits(bits: u64) -> (r: bool)
    ensures
        r == finite_bits(bits),
{
    (bits >> 52) & 0x7ff != 0x7ff
}

impl NumberValue {
    /// Decides whether this numeric value is finite.
    pub fn is_finite(&self) -> (r: bool)
        ensures
            r == number_finite(*self),
    {
        match self {
            NumberValue::Float(bits) => is_finite_bits(*bits),
            _ => true,
        }
    }
}

} // verus!
