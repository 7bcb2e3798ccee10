//! Trigonometric primitives over Q32.32 bit patterns.
//!
//! The values of sine, cosine, arc-sine and arc-tangent are obtained from the
//! `cordic` crate, computing on `fixed::types::I32F32` (whose bit layout is
//! exactly the Q32.32 convention used throughout this crate).  Each result is
//! a pure function of its argument's bits, so it is given a name that the
//! rest of the library reasons with; nothing else is assumed of the exact
//! digits.

use vstd::prelude::*;

verus! {

/// The fixed-point representation of the circle constant pi.
pub const FX_PI: i64 = 13493037705;

/// The fixed-point representation of pi / 2.
pub const FX_HALF_PI: i64 = 6746518852;

/// The fixed-point factor that turns degrees into radians (pi / 180).
pub const FX_DEG_TO_RAD: i64 = 74961321;

/// The fixed-point factor that turns radians into degrees (180 / pi).
pub const FX_RAD_TO_DEG: i64 = 246083499208;

/// The sine of the Q32.32 angle `x` (radians), as computed by the CORDIC
/// rotations of the `cordic` crate.
pub uninterp spec fn sin_bits(x: int) -> int;

/// The cosine of the Q32.32 angle `x` (radians), as computed by the CORDIC
/// rotations of the `cordic` crate.
pub uninterp spec fn cos_bits(x: int) -> int;

/// The arc-sine (radians) of the Q32.32 value `x`, as computed by the
/// double-rotation CORDIC of the `cordic` crate.
pub uninterp spec fn asin_bits(x: int) -> int;

/// The arc-tangent (radians) of the Q32.32 value `x`, as computed by the
/// vectoring CORDIC of the `cordic` crate.
pub uninterp spec fn atan_bits(x: int) -> int;

/// Relies on `cordic::sin` over `fixed::types::I32F32`: the result depends on
/// the argument's bits alone, and a CORDIC rotation of the unit starting
/// vector never leaves twice the unit magnitude.
#[verifier::external_body]
pub fn fx_sin(x: i64) -> (r: i64)
    ensures
        r as int == sin_bits(x as int),
        -0x2_0000_0000 <= r as int <= 0x2_0000_0000,
{
    cordic::sin(fixed::types::I32F32::from_bits(x)).to_bits()
}

/// Relies on `cordic::cos` over `fixed::types::I32F32`: the result depends on
/// the argument's bits alone, and a CORDIC rotation of the unit starting
/// vector never leaves twice the unit magnitude.
#[verifier::external_body]
pub fn fx_cos(x: i64) -> (r: i64)
    ensures
        r as int == cos_bits(x as int),
        -0x2_0000_0000 <= r as int <= 0x2_0000_0000,
{
    cordic::cos(fixed::types::I32F32::from_bits(x)).to_bits()
}

/// Relies on `cordic::asin` over `fixed::types::I32F32`.  The argument must
/// lie in [-1, 1]: outside that interval the double-rotation loop overflows.
/// The accumulated angle stays below 4 (twice the arc-tangent column sums),
/// and the result depends on the argument's bits alone.
#[verifier::external_body]
pub fn fx_asin(x: i64) -> (r: i64)
    requires
        -0x1_0000_0000 <= x as int <= 0x1_0000_0000,
    ensures
        r as int == asin_bits(x as int),
        -0x4_0000_0000 <= r as int <= 0x4_0000_0000,
{
    cordic::asin(fixed::types::I32F32::from_bits(x)).to_bits()
}

/// Relies on `cordic::atan` over `fixed::types::I32F32`.  The argument is
/// kept within one unit in magnitude so the vectoring loop cannot overflow;
/// the accumulated angle stays below 4, and the result depends on the
/// argument's bits alone.
#[verifier::external_body]
pub fn fx_atan(x: i64) -> (r: i64)
    requires
        -0x1_0000_0000 <= x as int <= 0x1_0000_0000,
    ensures
        r as int == atan_bits(x as int),
        -0x4_0000_0000 <= r as int <= 0x4_0000_0000,
{
    cordic::atan(fixed::types::I32F32::from_bits(x)).to_bits()
}

} // verus!
