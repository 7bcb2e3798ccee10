//! Easing curves that reshape an interpolation parameter along one axis.
//!
//! Each curve maps a progress value `t` in `[0, 1]` (Q32.32) and an
//! inversion flag to a factor, generally again in `[0, 1]`.  For the power,
//! sine and arc-sine curves the inverted branch is the point reflection
//! `1 - f(1 - t)`, which turns an ease-in into an ease-out; the arc curve has
//! its own ease-out quarter circle; identity and smooth-step ignore the flag.
//!
//! The set of curves is closed by design: a [`Transformer`] always names one
//! of these nine, so every easing an engine can hold comes with the exact
//! contract proved here.  An arbitrary user-supplied easing callable is
//! deliberately not accepted, since nothing could be stated of its values.

use crate::fx::clip64;
use crate::fx::fx_div_spec;
use crate::fx::is_sqrt;
use crate::fx::fx_mul_spec;
use crate::fx::fx_sqrt_spec;
use crate::fx::lemma_fx_mul_in_unit;
use crate::fx::lemma_fx_mul_one;
use crate::fx::lemma_fx_mul_zero;
use crate::fx::lemma_sqrt_of;
use crate::fx::sat_add_spec;
use crate::fx::sat_sub_spec;
use crate::fx::fx_mul;
use crate::fx::fx_sqrt;
use crate::fx::sat_add;
use crate::fx::sat_sub;
use crate::fx::FX_ONE;
use crate::fx::FX_THREE;
use crate::trig::asin_bits;
use crate::trig::sin_bits;
use crate::trig::fx_asin;
use crate::trig::fx_sin;
use crate::trig::FX_HALF_PI;
use crate::fx::fx_div;
use vstd::prelude::*;

verus! {

/// The closed set of easing curves.
#[derive(Clone, Copy, Debug, PartialEq, Eq, Structural)]
pub enum PositionFn {
    Linear,
    Quadratic,
    Cubic,
    Quartic,
    Quintic,
    Sinusoidal,
    Asinusoidal,
    Arc,
    SmoothStep,
}

/// A position function ready to be applied to a progress value.
#[derive(Clone, Copy, Debug, PartialEq, Eq, Structural)]
pub struct Transformer {
    pub curve: PositionFn,
}

/// The non-inverted branch of each curve except the arc.
pub open spec fn curve_raw(c: PositionFn, t: int) -> i64 {
    match c {
        PositionFn::Linear => clip64(t),
        PositionFn::Quadratic => fx_mul_spec(t, t),
        PositionFn::Cubic => fx_mul_spec(fx_mul_spec(t, t) as int, t),
        PositionFn::Quartic => fx_mul_spec(
            fx_mul_spec(fx_mul_spec(t, t) as int, t) as int,
            t,
        ),
        PositionFn::Quintic => fx_mul_spec(
            fx_mul_spec(fx_mul_spec(fx_mul_spec(t, t) as int, t) as int, t) as int,
            t,
        ),
        PositionFn::Sinusoidal => clip64(sin_bits(fx_mul_spec(t, FX_HALF_PI as int) as int)),
        PositionFn::Asinusoidal => fx_div_spec(asin_bits(t), FX_HALF_PI as int),
        PositionFn::Arc => sat_sub_spec(
            FX_ONE as int,
            fx_sqrt_spec(sat_sub_spec(FX_ONE as int, t) as int) as int,
        ),
        PositionFn::SmoothStep => fx_mul_spec(
            fx_mul_spec(t, t) as int,
            sat_sub_spec(FX_THREE as int, sat_add_spec(t, t) as int) as int,
        ),
    }
}

/// The value of curve `c` at progress `t` under inversion flag `inverted`.
pub open spec fn curve_val(c: PositionFn, t: int, inverted: bool) -> i64 {
    match c {
        PositionFn::Linear => curve_raw(c, t),
        PositionFn::SmoothStep => curve_raw(c, t),
        PositionFn::Arc => if inverted {
            fx_sqrt_spec(
                sat_sub_spec(
                    FX_ONE as int,
                    fx_mul_spec(FX_ONE as int - t, FX_ONE as int - t) as int,
                ) as int,
            )
        } else {
            curve_raw(c, t)
        },
        _ => if inverted {
            sat_sub_spec(FX_ONE as int, curve_raw(c, FX_ONE as int - t) as int)
        } else {
            curve_raw(c, t)
        },
    }
}

impl PositionFn {
    /// The transformer that applies this curve.
    pub fn get_fn(&self) -> (r: Transformer)
        ensures
            r.curve == *self,
    {
        Transformer { curve: *self }
    }
}

impl Transformer {
    /// Apply the curve to a progress value in `[0, 1]`.
    pub fn apply(&self, t: i64, inverted: bool) -> (r: i64)
        requires
            0 <= t <= FX_ONE,
        ensures
            r == curve_val(self.curve, t as int, inverted),
    {
        match self.curve {
            PositionFn::Linear => t,
            PositionFn::SmoothStep => {
                let tt: i64 = fx_mul(t, t);
                let lin: i64 = sat_sub(FX_THREE, sat_add(t, t));
                fx_mul(tt, lin)
            },
            PositionFn::Arc => {
                if inverted {
                    let u: i64 = FX_ONE - t;
                    let sq: i64 = fx_mul(u, u);
                    proof {
                        lemma_fx_mul_in_unit(u as int, u as int);
                    }
                    fx_sqrt(sat_sub(FX_ONE, sq))
                } else {
                    fx_sqrt_one_minus_then_flip(t)
                }
            },
            PositionFn::Quadratic | PositionFn::Cubic | PositionFn::Quartic
                | PositionFn::Quintic | PositionFn::Sinusoidal | PositionFn::Asinusoidal => {
                if inverted {
                    let u: i64 = FX_ONE - t;
                    let r0: i64 = raw_exec(self.curve, u);
                    sat_sub(FX_ONE, r0)
                } else {
                    raw_exec(self.curve, t)
                }
            },
        }
    }
}

/// The ease-in quarter circle `1 - sqrt(1 - t)`.
fn fx_sqrt_one_minus_then_flip(t: i64) -> (r: i64)
    requires
        0 <= t <= FX_ONE,
    ensures
        r == curve_raw(PositionFn::Arc, t as int),
{
    let root: i64 = fx_sqrt(sat_sub(FX_ONE, t));
    sat_sub(FX_ONE, root)
}

/// The non-inverted branch of the power and trigonometric curves.
fn raw_exec(c: PositionFn, t: i64) -> (r: i64)
    requires
        0 <= t <= FX_ONE,
        !(c is Linear),
        !(c is Arc),
        !(c is SmoothStep),
    ensures
        r == curve_raw(c, t as int),
{
    match c {
        PositionFn::Quadratic => fx_mul(t, t),
        PositionFn::Cubic => fx_mul(fx_mul(t, t), t),
        PositionFn::Quartic => fx_mul(fx_mul(fx_mul(t, t), t), t),
        PositionFn::Quintic => fx_mul(fx_mul(fx_mul(fx_mul(t, t), t), t), t),
        PositionFn::Sinusoidal => fx_sin(fx_mul(t, FX_HALF_PI)),
        _ => fx_div(fx_asin(t), FX_HALF_PI),
    }
}

/// The curve maps 0 to 0 and 1 to 1 exactly under the given flag, so
/// interpolated segments hit their anchors.
pub open spec fn fixes_endpoints(c: PositionFn, inverted: bool) -> bool {
    curve_val(c, 0, inverted) == 0 && curve_val(c, FX_ONE as int, inverted) == FX_ONE
}

/// Every curve except the two trigonometric ones maps 0 to 0 and 1 to 1
/// exactly, under either inversion flag.
pub proof fn lemma_curve_fixes_endpoints(c: PositionFn, inverted: bool)
    requires
        !(c is Sinusoidal),
        !(c is Asinusoidal),
    ensures
        fixes_endpoints(c, inverted),
{
    let s = FX_ONE as int;
    lemma_fx_mul_zero(0);
    lemma_fx_mul_one(s);
    lemma_fx_mul_zero(s);
    lemma_fx_mul_one(0);
    assert(fx_mul_spec(s, s) == FX_ONE);
    lemma_sqrt_of(0, 0);
    assert(is_sqrt(s * s, s)) by (nonlinear_arith)
        requires
            s == 0x1_0000_0000,
    ;
    lemma_sqrt_of(s * s, s);
    match c {
        PositionFn::SmoothStep => {
            lemma_fx_mul_one(sat_sub_spec(FX_THREE as int, sat_add_spec(s, s) as int) as int);
            lemma_fx_mul_zero(sat_sub_spec(FX_THREE as int, sat_add_spec(0, 0) as int) as int);
        },
        _ => {},
    }
}

/// For the power, sine and arc-sine curves the inverted branch is the exact
/// point reflection of the plain branch: `f(t, true) = 1 - f(1 - t, false)`,
/// where the subtraction saturates at the `i64` range like every operation
/// of this crate.
pub proof fn lemma_curve_reflection(c: PositionFn, t: int)
    requires
        c is Quadratic || c is Cubic || c is Quartic || c is Quintic || c is Sinusoidal
            || c is Asinusoidal,
    ensures
        curve_val(c, t, true) == sat_sub_spec(
            FX_ONE as int,
            curve_val(c, FX_ONE as int - t, false) as int,
        ),
{
}

} // verus!
