//! Numbers and rectangles that pass through the crate.
//!
//! Fractional values are never computed with here. They are held by their IEEE 754 bit
//! patterns, compared where a decision needs it, and handed on unchanged.

use vstd::prelude::*;

verus! {

/// A single-precision number, held by its bit pattern.
#[derive(Clone, Copy, Debug, PartialEq, Eq, Structural, Hash)]
pub struct Scalar {
    pub bits: u32,
}

/// A double-precision number of seconds, held by its bit pattern.
#[derive(Clone, Copy, Debug, PartialEq, Eq, Structural, Hash)]
pub struct Seconds {
    pub bits: u64,
}

/// A position in logical points.
#[derive(Clone, Copy, Debug, PartialEq, Eq, Structural, Hash)]
pub struct Pos2 {
    pub x: Scalar,
    pub y: Scalar,
}

/// A displacement or a size in logical points.
#[derive(Clone, Copy, Debug, PartialEq, Eq, Structural, Hash)]
pub struct Vec2 {
    pub x: Scalar,
    pub y: Scalar,
}

/// A rectangle in logical points.
#[derive(Clone, Copy, Debug, PartialEq, Eq, Structural, Hash)]
pub struct Rect {
    pub min: Pos2,
    pub max: Pos2,
}

/// A rectangle in physical pixels, origin at the top left, each edge rounded to a whole pixel.
#[derive(Clone, Copy, Debug, PartialEq, Eq, Structural, Hash)]
pub struct PixelRect {
    pub min_x: i64,
    pub min_y: i64,
    pub max_x: i64,
    pub max_y: i64,
}

/// A rectangle for the backend's scissor test: physical pixels, origin at the bottom left.
#[derive(Clone, Copy, Debug, PartialEq, Eq, Structural, Hash)]
pub struct ScissorRect {
    pub x: i32,
    pub y: i32,
    pub width: i32,
    pub height: i32,
}

/// The bits of a number without its sign.
pub open spec fn magnitude(bits: u32) -> u32 {
    bits & 0x7fff_ffff
}

/// Whether the bits are no number: every exponent bit set and a fraction that is not zero.
pub open spec fn is_nan(bits: u32) -> bool {
    magnitude(bits) > 0x7f80_0000
}

/// Whether two bit patterns are equal as numbers: neither is a NaN, and the bits agree or
/// both are a zero of either sign.
pub open spec fn same_number(a: u32, b: u32) -> bool {
    !is_nan(a) && !is_nan(b) && (a == b || (magnitude(a) == 0 && magnitude(b) == 0))
}

impl Scalar {
    pub fn from_bits(bits: u32) -> (scalar: Scalar)
        ensures
            scalar.bits == bits,
    {
        Scalar { bits }
    }

    /// Numeric equality as IEEE 754 has it, which differs from equality of the bits for
    /// the two zeros and for NaNs.
    pub fn same_number(self, other: Scalar) -> (same: bool)
        ensures
            same == same_number(self.bits, other.bits),
    {
        let a: u32 = self.bits & 0x7fff_ffff;
        let b: u32 = other.bits & 0x7fff_ffff;
        a <= 0x7f80_0000 && b <= 0x7f80_0000 && (self.bits == other.bits || (a == 0 && b == 0))
    }
}

} // verus!
