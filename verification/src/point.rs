//! Value types for Cartesian points and HSL colors, and the bidirectional
//! polar/Cartesian mapping between them.
//!
//! A color `{h, s, l}` (hue in degrees, saturation and lightness nominally in
//! `[0, 1]`, all Q32.32) maps to the point whose angle around `(1/2, 1/2)` is
//! the hue, whose distance from that center is half the lightness (or half of
//! one minus the lightness when the inversion flag is set), and whose third
//! coordinate is the saturation, passed through unchanged.  None of the
//! fields is range-validated: out-of-range values flow through, saturating
//! only at the `i64` range itself.

use crate::fns::curve_val;
use crate::fns::PositionFn;
use crate::fns::Transformer;
use crate::fx::abs_i;
use crate::fx::abs_u;
use crate::fx::clip64;
use crate::fx::fx_div_spec;
use crate::fx::fx_mod;
use crate::fx::fx_mul;
use crate::fx::fx_mul_spec;
use crate::fx::isqrt128;
use crate::fx::lemma_sqrt_of;
use crate::fx::sat_add;
use crate::fx::sat_add_spec;
use crate::fx::sat_sub;
use crate::fx::sat_sub_spec;
use crate::fx::sqrt_floor;
use crate::fx::FX_HALF;
use crate::fx::FX_ONE;
use crate::trig::atan_bits;
use crate::trig::cos_bits;
use crate::trig::fx_atan;
use crate::trig::fx_cos;
use crate::trig::fx_sin;
use crate::trig::sin_bits;
use crate::trig::FX_DEG_TO_RAD;
use crate::trig::FX_HALF_PI;
use crate::trig::FX_PI;
use crate::trig::FX_RAD_TO_DEG;
use vstd::prelude::*;

verus! {

/// 360 degrees, Q32.32.
pub const FX_DEG360: i64 = 0x168_0000_0000;

/// 270 degrees, Q32.32.
pub const FX_DEG270: i64 = 0x10E_0000_0000;

/// 180 degrees, Q32.32.
pub const FX_DEG180: i64 = 0xB4_0000_0000;

/// 90 degrees, Q32.32.
pub const FX_DEG90: i64 = 0x5A_0000_0000;

/// A point of the plane, Q32.32 coordinates.
#[derive(Clone, Copy, Debug, PartialEq, Eq, Structural)]
pub struct Point2 {
    pub x: i64,
    pub y: i64,
}

/// A point of space, Q32.32 coordinates.
#[derive(Clone, Copy, Debug, PartialEq, Eq, Structural)]
pub struct Point3 {
    pub x: i64,
    pub y: i64,
    pub z: i64,
}

/// A color as hue (degrees), saturation and lightness, Q32.32.
#[derive(Clone, Copy, Debug, PartialEq, Eq, Structural)]
pub struct Hsl {
    pub h: i64,
    pub s: i64,
    pub l: i64,
}

impl Default for Point2 {
    fn default() -> (r: Self)
        ensures
            r == (Point2 { x: 0, y: 0 }),
    {
        Point2 { x: 0, y: 0 }
    }
}

impl Default for Point3 {
    fn default() -> (r: Self)
        ensures
            r == (Point3 { x: 0, y: 0, z: 0 }),
    {
        Point3 { x: 0, y: 0, z: 0 }
    }
}

/// The point a color maps to under a given inversion flag.
pub open spec fn hsl_to_point_spec(c: Hsl, inverted: bool) -> Point3 {
    let rad = fx_mul_spec(c.h as int, FX_DEG_TO_RAD as int);
    let lv: i64 = if inverted {
        sat_sub_spec(FX_ONE as int, c.l as int)
    } else {
        c.l
    };
    let dist = fx_mul_spec(lv as int, FX_HALF as int);
    Point3 {
        x: sat_add_spec(FX_HALF as int, fx_mul_spec(dist as int, cos_bits(rad as int)) as int),
        y: sat_add_spec(FX_HALF as int, fx_mul_spec(dist as int, sin_bits(rad as int)) as int),
        z: c.s,
    }
}

/// The acute base angle read off the two magnitudes: the smaller one is
/// always divided by the larger, so the arc-tangent argument stays in
/// `[0, 1]`.
pub open spec fn base_angle_spec(adx: int, ady: int) -> i64 {
    if ady <= adx {
        clip64(atan_bits(fx_div_spec(ady, adx) as int))
    } else {
        sat_sub_spec(FX_HALF_PI as int, atan_bits(fx_div_spec(adx, ady) as int))
    }
}

/// The full angle (radians) of the offset `(dx, dy)`, by quadrant, when both
/// components are nonzero.
pub open spec fn quad_angle_spec(dx: int, dy: int) -> i64 {
    let b = base_angle_spec(abs_i(dx), abs_i(dy));
    if dx > 0 && dy > 0 {
        b
    } else if dx < 0 && dy > 0 {
        sat_sub_spec(FX_PI as int, b as int)
    } else if dx < 0 && dy < 0 {
        sat_add_spec(FX_PI as int, b as int)
    } else {
        sat_sub_spec(0, b as int)
    }
}

/// The angle of the offset `(dx, dy)` in degrees, normalized to `[0, 360)`.
/// The zero offset has angle 0, as the usual two-argument arc-tangent
/// convention gives it.
pub open spec fn angle_deg_spec(dx: int, dy: int) -> i64 {
    if dx == 0 && dy == 0 {
        0
    } else if dx == 0 {
        if dy >= 0 {
            FX_DEG90
        } else {
            FX_DEG270
        }
    } else if dy == 0 {
        if dx > 0 {
            0
        } else {
            FX_DEG180
        }
    } else {
        ((fx_mul_spec(quad_angle_spec(dx, dy) as int, FX_RAD_TO_DEG as int) as int) % (
        FX_DEG360 as int)) as i64
    }
}

/// The distance of `(dx, dy)` from the origin: squares of Q32.32 offsets are
/// Q64.64, whose integer square root is Q32.32 again.
pub open spec fn dist_center_spec(dx: int, dy: int) -> i64 {
    clip64(sqrt_floor(dx * dx + dy * dy))
}

/// The color a point maps to under a given inversion flag.
pub open spec fn point_to_hsl_spec(p: Point3, inverted: bool) -> Hsl {
    let dx = sat_sub_spec(p.x as int, FX_HALF as int);
    let dy = sat_sub_spec(p.y as int, FX_HALF as int);
    let d = dist_center_spec(dx as int, dy as int);
    let l0 = sat_add_spec(d as int, d as int);
    Hsl {
        h: angle_deg_spec(dx as int, dy as int),
        s: p.z,
        l: if inverted {
            sat_sub_spec(FX_ONE as int, l0 as int)
        } else {
            l0
        },
    }
}

impl Point3 {
    /// Map a color to its point.
    pub fn from_hsl(c: &Hsl, inverted: bool) -> (r: Point3)
        ensures
            r == hsl_to_point_spec(*c, inverted),
    {
        let rad: i64 = fx_mul(c.h, FX_DEG_TO_RAD);
        let lv: i64 = if inverted {
            sat_sub(FX_ONE, c.l)
        } else {
            c.l
        };
        let dist: i64 = fx_mul(lv, FX_HALF);
        let cv: i64 = fx_cos(rad);
        let sv: i64 = fx_sin(rad);
        Point3 {
            x: sat_add(FX_HALF, fx_mul(dist, cv)),
            y: sat_add(FX_HALF, fx_mul(dist, sv)),
            z: c.s,
        }
    }
}

/// The distance of the offset `(dx, dy)` from the origin.
fn dist_center(dx: i64, dy: i64) -> (r: i64)
    ensures
        r == dist_center_spec(dx as int, dy as int),
        r >= 0,
{
    let ax: u128 = abs_u(dx) as u128;
    let ay: u128 = abs_u(dy) as u128;
    proof {
        assert((ax as int) * (ax as int) == (dx as int) * (dx as int)) by (nonlinear_arith)
            requires
                ax as int == abs_i(dx as int),
        ;
        assert((ay as int) * (ay as int) == (dy as int) * (dy as int)) by (nonlinear_arith)
            requires
                ay as int == abs_i(dy as int),
        ;
        assert((ax as int) * (ax as int) + (ay as int) * (ay as int) <= u128::MAX as int)
            by (nonlinear_arith)
            requires
                0 <= ax as int <= 0x8000_0000_0000_0000,
                0 <= ay as int <= 0x8000_0000_0000_0000,
        ;
    }
    let sum: u128 = ax * ax + ay * ay;
    let root: u64 = isqrt128(sum);
    proof {
        lemma_sqrt_of(sum as int, root as int);
    }
    if root > i64::MAX as u64 {
        i64::MAX
    } else {
        root as i64
    }
}

/// The angle of the offset `(dx, dy)` in degrees, normalized to `[0, 360)`.
fn angle_deg(dx: i64, dy: i64) -> (r: i64)
    ensures
        r == angle_deg_spec(dx as int, dy as int),
        0 <= r < FX_DEG360,
{
    if dx == 0 && dy == 0 {
        0
    } else if dx == 0 {
        if dy >= 0 {
            FX_DEG90
        } else {
            FX_DEG270
        }
    } else if dy == 0 {
        if dx > 0 {
            0
        } else {
            FX_DEG180
        }
    } else {
        let adx: u64 = abs_u(dx);
        let ady: u64 = abs_u(dy);
        let base: i64 = if ady <= adx {
            fx_atan(div_unit(ady, adx))
        } else {
            sat_sub(FX_HALF_PI, fx_atan(div_unit(adx, ady)))
        };
        let angle: i64 = if dx > 0 && dy > 0 {
            base
        } else if dx < 0 && dy > 0 {
            sat_sub(FX_PI, base)
        } else if dx < 0 && dy < 0 {
            sat_add(FX_PI, base)
        } else {
            sat_sub(0, base)
        };
        fx_mod(fx_mul(angle, FX_RAD_TO_DEG), FX_DEG360)
    }
}

/// Quotient of a smaller magnitude by a larger one, as a Q32.32 value in
/// `[0, 1]`.
fn div_unit(num: u64, den: u64) -> (r: i64)
    requires
        num <= den,
        den > 0,
    ensures
        r == fx_div_spec(num as int, den as int),
        0 <= r <= FX_ONE,
{
    proof {
        assert((num as int) * (FX_ONE as int) <= (den as int) * (FX_ONE as int))
            by (nonlinear_arith)
            requires
                num <= den,
        ;
        vstd::arithmetic::div_mod::lemma_div_is_ordered(
            (num as int) * (FX_ONE as int),
            (den as int) * (FX_ONE as int),
            den as int,
        );
        vstd::arithmetic::div_mod::lemma_div_by_multiple(FX_ONE as int, den as int);
        assert((FX_ONE as int) * (den as int) == (den as int) * (FX_ONE as int))
            by (nonlinear_arith);
        vstd::arithmetic::div_mod::lemma_div_pos_is_pos((num as int) * (FX_ONE as int), den as int);
        assert((num as int) * (FX_ONE as int) >= 0) by (nonlinear_arith)
            requires
                num >= 0,
        ;
        assert(abs_i((num as int) * (FX_ONE as int)) == (num as int) * (FX_ONE as int));
    }
    let wide: u128 = (num as u128) * (FX_ONE as u128);
    let q: u128 = wide / (den as u128);
    q as i64
}

impl Hsl {
    /// Map a point to its color.
    pub fn from_point(p: &Point3, inverted: bool) -> (r: Hsl)
        ensures
            r == point_to_hsl_spec(*p, inverted),
    {
        let dx: i64 = sat_sub(p.x, FX_HALF);
        let dy: i64 = sat_sub(p.y, FX_HALF);
        let d: i64 = dist_center(dx, dy);
        let l0: i64 = sat_add(d, d);
        Hsl {
            h: angle_deg(dx, dy),
            s: p.z,
            l: if inverted {
                sat_sub(FX_ONE, l0)
            } else {
                l0
            },
        }
    }
}

/// The point at parameter `k / (n - 1)` along the segment from `p1` to `p2`,
/// each axis deformed by its own curve.
pub open spec fn line_point_spec(
    p1: Point3,
    p2: Point3,
    k: int,
    n: int,
    inverted: bool,
    cx: PositionFn,
    cy: PositionFn,
    cz: PositionFn,
) -> Point3 {
    let t = (k * (FX_ONE as int)) / (n - 1);
    Point3 {
        x: lerp_spec(p1.x as int, p2.x as int, curve_val(cx, t, inverted) as int),
        y: lerp_spec(p1.y as int, p2.y as int, curve_val(cy, t, inverted) as int),
        z: lerp_spec(p1.z as int, p2.z as int, curve_val(cz, t, inverted) as int),
    }
}

/// Interpolation of one axis: `(1 - f) * a + f * b`.
pub open spec fn lerp_spec(a: int, b: int, f: int) -> i64 {
    sat_add_spec(
        fx_mul_spec(sat_sub_spec(FX_ONE as int, f) as int, a) as int,
        fx_mul_spec(f, b) as int,
    )
}

/// One interpolated point along a segment.
fn vector_on_line(
    t: i64,
    p1: &Point3,
    p2: &Point3,
    inverted: bool,
    fx: Transformer,
    fy: Transformer,
    fz: Transformer,
) -> (r: Point3)
    requires
        0 <= t <= FX_ONE,
    ensures
        r.x == lerp_spec(p1.x as int, p2.x as int, curve_val(fx.curve, t as int, inverted) as int),
        r.y == lerp_spec(p1.y as int, p2.y as int, curve_val(fy.curve, t as int, inverted) as int),
        r.z == lerp_spec(p1.z as int, p2.z as int, curve_val(fz.curve, t as int, inverted) as int),
{
    let tx: i64 = fx.apply(t, inverted);
    let ty: i64 = fy.apply(t, inverted);
    let tz: i64 = fz.apply(t, inverted);
    let x: i64 = sat_add(fx_mul(sat_sub(FX_ONE, tx), p1.x), fx_mul(tx, p2.x));
    let y: i64 = sat_add(fx_mul(sat_sub(FX_ONE, ty), p1.y), fx_mul(ty, p2.y));
    let z: i64 = sat_add(fx_mul(sat_sub(FX_ONE, tz), p1.z), fx_mul(tz, p2.z));
    Point3 { x, y, z }
}

/// The interpolation parameter `k / (n - 1)` as a Q32.32 value.
fn line_param(k: usize, n: usize) -> (t: i64)
    requires
        n >= 2,
        k < n,
    ensures
        t as int == (k * (FX_ONE as int)) / (n - 1),
        0 <= t <= FX_ONE,
{
    proof {
        assert((k as int) * (FX_ONE as int) <= ((n - 1) as int) * (FX_ONE as int))
            by (nonlinear_arith)
            requires
                k as int <= (n - 1) as int,
        ;
        vstd::arithmetic::div_mod::lemma_div_is_ordered(
            (k as int) * (FX_ONE as int),
            ((n - 1) as int) * (FX_ONE as int),
            (n - 1) as int,
        );
        vstd::arithmetic::div_mod::lemma_div_by_multiple(FX_ONE as int, (n - 1) as int);
        assert((FX_ONE as int) * ((n - 1) as int) == ((n - 1) as int) * (FX_ONE as int))
            by (nonlinear_arith);
        vstd::arithmetic::div_mod::lemma_div_pos_is_pos((k as int) * (FX_ONE as int), (n - 1) as int);
        assert((k as int) * (FX_ONE as int) >= 0) by (nonlinear_arith)
            requires
                k >= 0,
        ;
    }
    let wide: u128 = (k as u128) * (FX_ONE as u128);
    let q: u128 = wide / ((n - 1) as u128);
    q as i64
}

/// All `num_points` interpolated points along the segment from `p1` to `p2`,
/// endpoints included.
pub fn vectors_on_line(
    p1: &Point3,
    p2: &Point3,
    num_points: i32,
    inverted: bool,
    fx: Transformer,
    fy: Transformer,
    fz: Transformer,
) -> (r: Vec<Point3>)
    requires
        num_points >= 2,
    ensures
        r@.len() == num_points,
        forall|k: int|
            0 <= k < num_points ==> r@[k] == line_point_spec(
                *p1,
                *p2,
                k,
                num_points as int,
                inverted,
                fx.curve,
                fy.curve,
                fz.curve,
            ),
{
    let n: usize = num_points as usize;
    let mut r: Vec<Point3> = Vec::new();
    let mut k: usize = 0;
    while k < n
        invariant
            n == num_points,
            n >= 2,
            k <= n,
            r@.len() == k,
            forall|j: int|
                0 <= j < k ==> r@[j] == line_point_spec(
                    *p1,
                    *p2,
                    j,
                    n as int,
                    inverted,
                    fx.curve,
                    fy.curve,
                    fz.curve,
                ),
        decreases n - k,
    {
        let t: i64 = line_param(k, n);
        let p: Point3 = vector_on_line(t, p1, p2, inverted, fx, fy, fz);
        r.push(p);
        k = k + 1;
    }
    r
}

/// 5 raised to the 32nd power: scaling a 32-bit binary fraction by it turns
/// the fraction into its exact 32-digit decimal expansion.
pub const FIVE_POW_32: u128 = 23283064365386962890625;

/// The character for one decimal digit.
pub open spec fn digit_char(d: int) -> char {
    if d == 0 {
        '0'
    } else if d == 1 {
        '1'
    } else if d == 2 {
        '2'
    } else if d == 3 {
        '3'
    } else if d == 4 {
        '4'
    } else if d == 5 {
        '5'
    } else if d == 6 {
        '6'
    } else if d == 7 {
        '7'
    } else if d == 8 {
        '8'
    } else {
        '9'
    }
}

/// The decimal digits of a nonnegative integer, most significant first.
pub open spec fn dec_digits(n: int) -> Seq<char>
    decreases n,
{
    if n < 10 {
        seq![digit_char(n)]
    } else {
        dec_digits(n / 10) + seq![digit_char(n % 10)]
    }
}

/// The decimal digits, left-padded with zeros to at least three places.
pub open spec fn pad3_digits(n: int) -> Seq<char> {
    if n < 10 {
        seq!['0', '0'] + dec_digits(n)
    } else if n < 100 {
        seq!['0'] + dec_digits(n)
    } else {
        dec_digits(n)
    }
}

/// The decimal digits, left-padded with zeros to at least two places.
pub open spec fn pad2_digits(n: int) -> Seq<char> {
    if n < 10 {
        seq!['0'] + dec_digits(n)
    } else {
        dec_digits(n)
    }
}

/// A nonnegative Q32.32 value in hundredths, rounded half to even (the
/// convention of the standard decimal formatters).
pub open spec fn hundredths_round(m: int) -> int {
    let num = m * 100;
    let q = num / (FX_ONE as int);
    let r = num % (FX_ONE as int);
    if r > FX_HALF as int {
        q + 1
    } else if r < FX_HALF as int {
        q
    } else if q % 2 == 0 {
        q
    } else {
        q + 1
    }
}

/// A nonnegative Q32.32 value rendered with exactly two rounded decimal
/// places.  The whole rendering is padded with zeros to at least six
/// characters, a leading minus sign included, so the integer part gets three
/// places when positive and two after a sign.
pub open spec fn fixed_mag_chars(m: int, signed: bool) -> Seq<char> {
    let t = hundredths_round(m);
    (if signed {
        pad2_digits(t / 100)
    } else {
        pad3_digits(t / 100)
    }) + seq!['.'] + seq![digit_char((t / 10) % 10), digit_char(t % 10)]
}

/// A Q32.32 value rendered as zero-padded two-decimal digits, with a leading
/// minus sign when negative.
pub open spec fn fixed_chars(v: int) -> Seq<char> {
    if v < 0 {
        seq!['-'] + fixed_mag_chars(abs_i(v), true)
    } else {
        fixed_mag_chars(v, false)
    }
}

/// The low `w` decimal digits of a nonnegative integer, most significant
/// first (so a value below `10^w` comes out zero-padded to width `w`).
pub open spec fn fixed_width_digits(n: int, w: int) -> Seq<char>
    decreases w,
{
    if w <= 1 {
        seq![digit_char(n % 10)]
    } else {
        fixed_width_digits(n / 10, w - 1) + seq![digit_char(n % 10)]
    }
}

/// The digit sequence with its trailing zeros removed.
pub open spec fn strip_trailing_zeros(s: Seq<char>) -> Seq<char>
    decreases s.len(),
{
    if s.len() == 0 {
        s
    } else if s.last() == '0' {
        strip_trailing_zeros(s.drop_last())
    } else {
        s
    }
}

/// The exact decimal expansion of the binary fraction `frac / 2^32`
/// (`0 < frac < 2^32`): it terminates within 32 digits because
/// `frac / 2^32 = frac * 5^32 / 10^32`.
pub open spec fn frac_digits(frac: int) -> Seq<char> {
    strip_trailing_zeros(fixed_width_digits(frac * (FIVE_POW_32 as int), 32))
}

/// A nonnegative Q32.32 value rendered as its exact decimal digits: the
/// integer part, then the fraction's terminating expansion if there is one.
pub open spec fn plain_mag_chars(m: int) -> Seq<char> {
    let ip = m / (FX_ONE as int);
    let frac = m % (FX_ONE as int);
    if frac == 0 {
        dec_digits(ip)
    } else {
        dec_digits(ip) + seq!['.'] + frac_digits(frac)
    }
}

/// A Q32.32 value rendered exactly, with a leading minus sign when negative.
pub open spec fn plain_chars(v: int) -> Seq<char> {
    if v < 0 {
        seq!['-'] + plain_mag_chars(abs_i(v))
    } else {
        plain_mag_chars(v)
    }
}

/// The CSS rendering of a color: `hsl(H, S%, L%)` — the hue with three
/// integer places and two decimals rounded half to even, saturation and
/// lightness as the exact unrounded values of a hundred times the stored
/// number.
pub open spec fn css_chars(c: Hsl) -> Seq<char> {
    "hsl("@ + fixed_chars(c.h as int) + ", "@ + plain_chars(100 * (c.s as int)) + "%, "@
        + plain_chars(100 * (c.l as int)) + "%)"@
}

/// Append one decimal digit.
fn push_digit(out: &mut String, d: u64)
    requires
        d < 10,
    ensures
        final(out)@ == old(out)@ + seq![digit_char(d as int)],
{
    proof {
        reveal_strlit("0");
        reveal_strlit("1");
        reveal_strlit("2");
        reveal_strlit("3");
        reveal_strlit("4");
        reveal_strlit("5");
        reveal_strlit("6");
        reveal_strlit("7");
        reveal_strlit("8");
        reveal_strlit("9");
    }
    match d {
        0 => out.append("0"),
        1 => out.append("1"),
        2 => out.append("2"),
        3 => out.append("3"),
        4 => out.append("4"),
        5 => out.append("5"),
        6 => out.append("6"),
        7 => out.append("7"),
        8 => out.append("8"),
        _ => out.append("9"),
    }
    proof {
        assert(out@ =~= old(out)@ + seq![digit_char(d as int)]);
    }
}

/// Append the decimal digits of a nonnegative integer.
fn push_uint(out: &mut String, n: u128)
    ensures
        final(out)@ == old(out)@ + dec_digits(n as int),
    decreases n,
{
    if n < 10 {
        push_digit(out, n as u64);
    } else {
        push_uint(out, n / 10);
        push_digit(out, (n % 10) as u64);
        proof {
            assert(out@ =~= old(out)@ + dec_digits(n as int));
        }
    }
}

/// Append the low `w` decimal digits of a nonnegative integer, most
/// significant first.
fn push_width(out: &mut String, n: u128, w: usize)
    requires
        w >= 1,
    ensures
        final(out)@ == old(out)@ + fixed_width_digits(n as int, w as int),
    decreases w,
{
    if w <= 1 {
        push_digit(out, (n % 10) as u64);
    } else {
        push_width(out, n / 10, w - 1);
        push_digit(out, (n % 10) as u64);
        proof {
            assert(out@ =~= old(out)@ + fixed_width_digits(n as int, w as int));
        }
    }
}

/// Append the exact terminating decimal expansion of `frac / 2^32`.
fn push_fraction(out: &mut String, frac: u64)
    requires
        0 < frac < FX_ONE as u64,
    ensures
        final(out)@ == old(out)@ + frac_digits(frac as int),
{
    proof {
        assert((frac as int) * (FIVE_POW_32 as int) <= u128::MAX as int) by (nonlinear_arith)
            requires
                0 <= frac as int <= 0xFFFF_FFFF,
        ;
    }
    let mut cur: u128 = (frac as u128) * FIVE_POW_32;
    let mut w: usize = 32;
    while cur % 10 == 0 && w > 1
        invariant
            1 <= w <= 32,
            strip_trailing_zeros(
                fixed_width_digits((frac as int) * (FIVE_POW_32 as int), 32),
            ) == strip_trailing_zeros(fixed_width_digits(cur as int, w as int)),
        decreases w,
    {
        proof {
            let prefix = fixed_width_digits((cur as int) / 10, w as int - 1);
            assert(fixed_width_digits(cur as int, w as int) == prefix + seq![digit_char(
                (cur as int) % 10,
            )]);
            assert((prefix + seq!['0']).last() == '0');
            assert((prefix + seq!['0']).drop_last() =~= prefix);
        }
        cur = cur / 10;
        w = w - 1;
    }
    if cur % 10 == 0 {
        // Only reachable for a fraction whose 32 decimal digits are all
        // zero, which no nonzero binary fraction has; the stripped digit
        // sequence is empty either way.
        proof {
            let s = fixed_width_digits(cur as int, w as int);
            assert(w == 1);
            assert(s == seq![digit_char(0)]);
            assert(s.last() == '0');
            assert(s.drop_last() =~= Seq::<char>::empty());
            assert(strip_trailing_zeros(s) == strip_trailing_zeros(s.drop_last()));
            assert(strip_trailing_zeros(Seq::<char>::empty()) == Seq::<char>::empty());
            assert(out@ =~= out@ + frac_digits(frac as int));
        }
    } else {
        proof {
            let s = fixed_width_digits(cur as int, w as int);
            if w >= 2 {
                assert(s == fixed_width_digits((cur as int) / 10, w as int - 1) + seq![
                    digit_char((cur as int) % 10),
                ]);
                assert(s.len() >= 1);
                assert(s.last() == digit_char((cur as int) % 10));
            } else {
                assert(s == seq![digit_char((cur as int) % 10)]);
            }
            assert((cur as int) % 10 != 0);
            assert(digit_char((cur as int) % 10) != '0');
            assert(strip_trailing_zeros(s) == s);
        }
        push_width(out, cur, w);
        proof {
            assert(out@ =~= old(out)@ + frac_digits(frac as int));
        }
    }
}

/// Append a Q32.32 value, scaled by one hundred, as its exact decimal
/// digits.
fn push_plain_scaled(out: &mut String, v: i64)
    ensures
        final(out)@ == old(out)@ + plain_chars(100 * (v as int)),
{
    proof {
        reveal_strlit("-");
        reveal_strlit(".");
    }
    if v < 0 {
        out.append("-");
        proof {
            assert(out@ =~= old(out)@ + seq!['-']);
        }
    }
    proof {
        assert(abs_i(100 * (v as int)) == 100 * abs_i(v as int)) by (nonlinear_arith);
    }
    let mag: u128 = (abs_u(v) as u128) * 100;
    let ip: u128 = mag / (FX_ONE as u128);
    let frac: u64 = (mag % (FX_ONE as u128)) as u64;
    push_uint(out, ip);
    if frac > 0 {
        out.append(".");
        proof {
            assert("."@ =~= seq!['.']);
        }
        push_fraction(out, frac);
    }
    proof {
        assert(out@ =~= old(out)@ + plain_chars(100 * (v as int)));
    }
}

/// A Q32.32 magnitude in hundredths, rounded half to even.
fn hundredths_of(mag: u64) -> (t: u128)
    ensures
        t as int == hundredths_round(mag as int),
{
    let num: u128 = (mag as u128) * 100;
    let q: u128 = num / (FX_ONE as u128);
    let r: u128 = num % (FX_ONE as u128);
    proof {
        vstd::arithmetic::div_mod::lemma_div_nonincreasing(num as int, FX_ONE as int);
    }
    if r > FX_HALF as u128 {
        q + 1
    } else if r < FX_HALF as u128 {
        q
    } else if q % 2 == 0 {
        q
    } else {
        q + 1
    }
}

/// Append a Q32.32 value as zero-padded decimal digits with two rounded
/// places after the point; the zero padding counts a leading minus sign.
fn push_fixed(out: &mut String, v: i64)
    ensures
        final(out)@ == old(out)@ + fixed_chars(v as int),
{
    proof {
        reveal_strlit("-");
        reveal_strlit(".");
        reveal_strlit("0");
        reveal_strlit("00");
    }
    let signed: bool = v < 0;
    if signed {
        out.append("-");
        proof {
            assert(out@ =~= old(out)@ + seq!['-']);
        }
    }
    let t: u128 = hundredths_of(abs_u(v));
    let ip: u128 = t / 100;
    if signed {
        if ip < 10 {
            out.append("0");
            proof {
                assert("0"@ =~= seq!['0']);
            }
        }
    } else {
        if ip < 10 {
            out.append("00");
            proof {
                assert("00"@ =~= seq!['0', '0']);
            }
        } else if ip < 100 {
            out.append("0");
            proof {
                assert("0"@ =~= seq!['0']);
            }
        }
    }
    push_uint(out, ip);
    out.append(".");
    proof {
        assert("."@ =~= seq!['.']);
    }
    push_digit(out, ((t / 10) % 10) as u64);
    push_digit(out, (t % 10) as u64);
    proof {
        assert(out@ =~= old(out)@ + fixed_chars(v as int));
    }
}

/// A denormalized pair of representations of one color, kept mutually
/// consistent under its inversion flag: every mutator that changes one
/// representation immediately re-derives the other.
#[derive(Clone, Copy, Debug, PartialEq, Eq, Structural)]
pub struct ColorPoint {
    pub color: Hsl,
    pub point: Point3,
    pub inverted: bool,
}

/// The color point built from a color: the point is derived.
pub open spec fn cp_from_hsl(c: Hsl, inverted: bool) -> ColorPoint {
    ColorPoint { color: c, point: hsl_to_point_spec(c, inverted), inverted }
}

/// The color point built from a point: the color is derived.
pub open spec fn cp_from_point(p: Point3, inverted: bool) -> ColorPoint {
    ColorPoint { color: point_to_hsl_spec(p, inverted), point: p, inverted }
}

/// A color with its hue moved by `angle` degrees, landed in `[0, 360)`.
pub open spec fn shift_hue_spec(c: Hsl, angle: int) -> Hsl {
    Hsl {
        h: ((sat_add_spec(c.h as int, angle) as int) % (FX_DEG360 as int)) as i64,
        s: c.s,
        l: c.l,
    }
}

impl ColorPoint {
    /// Build from a color, deriving the point.
    pub fn from_hsl(hsl: Hsl, inverted: bool) -> (r: Self)
        ensures
            r == cp_from_hsl(hsl, inverted),
    {
        ColorPoint { color: hsl, point: Point3::from_hsl(&hsl, inverted), inverted }
    }

    /// Build from a point, deriving the color.
    pub fn from_point(point: Point3, inverted: bool) -> (r: Self)
        ensures
            r == cp_from_point(point, inverted),
    {
        ColorPoint { color: Hsl::from_point(&point, inverted), point, inverted }
    }

    /// Change the inversion flag, re-deriving the point from the color so
    /// the two representations keep agreeing.
    pub fn set_inverted(&mut self, inverted: bool)
        ensures
            *final(self) == cp_from_hsl(old(self).color, inverted),
    {
        self.inverted = inverted;
        self.point = Point3::from_hsl(&self.color, inverted);
    }

    /// Move the point, re-deriving the color under the point's own flag.
    pub fn set_postion(&mut self, point: Point3)
        ensures
            *final(self) == cp_from_point(point, old(self).inverted),
    {
        self.color = Hsl::from_point(&point, self.inverted);
        self.point = point;
    }

    /// Change the color, re-deriving the point under the point's own flag.
    pub fn set_hsl(&mut self, hsl: Hsl)
        ensures
            *final(self) == cp_from_hsl(hsl, old(self).inverted),
    {
        self.point = Point3::from_hsl(&hsl, self.inverted);
        self.color = hsl;
    }

    /// Move the hue by `angle` degrees and re-derive the point.
    pub fn shift_hue(&mut self, angle: i64)
        ensures
            *final(self) == cp_from_hsl(
                shift_hue_spec(old(self).color, angle as int),
                old(self).inverted,
            ),
    {
        let h: i64 = fx_mod(sat_add(self.color.h, angle), FX_DEG360);
        let shifted: Hsl = Hsl { h, s: self.color.s, l: self.color.l };
        self.color = shifted;
        self.point = Point3::from_hsl(&shifted, self.inverted);
    }

    /// The CSS form `hsl(H, S%, L%)` of the color: the hue zero-padded with
    /// two decimals rounded half to even, saturation and lightness as the
    /// exact unrounded percentages of the stored values.
    pub fn css_string(&self) -> (r: String)
        ensures
            r@ == css_chars(self.color),
    {
        let mut out: String = String::new();
        out.append("hsl(");
        push_fixed(&mut out, self.color.h);
        out.append(", ");
        push_plain_scaled(&mut out, self.color.s);
        out.append("%, ");
        push_plain_scaled(&mut out, self.color.l);
        out.append("%)");
        proof {
            assert(out@ =~= css_chars(self.color));
        }
        out
    }
}

/// Either representation of a color, for queries that accept both.
pub enum PointOrHsl {
    Point(Point3),
    Hsl(Hsl),
}

/// A 3-tuple of optionally-present coordinates for masked distance
/// comparisons: an absent pair of coordinates contributes nothing.
#[derive(Clone, Copy, Debug)]
pub struct PartialPoint3(pub Option<i64>, pub Option<i64>, pub Option<i64>);

/// The signed difference `b - a` of one plain axis, 0 when either side is
/// absent.
pub open spec fn delta_rev_spec(a: Option<i64>, b: Option<i64>) -> i64 {
    match (a, b) {
        (Some(x), Some(y)) => sat_sub_spec(y as int, x as int),
        _ => 0,
    }
}

/// The first-axis term: a plain signed difference `a - b`, or in circular
/// mode the shorter way around a 360-degree circle, scaled down by 360.
pub open spec fn hue_term_spec(a: Option<i64>, b: Option<i64>, circular: bool) -> i64 {
    match (a, b) {
        (Some(x), Some(y)) => if circular {
            let da = clip64(abs_i(sat_sub_spec(x as int, y as int) as int)) as int;
            let alt = sat_sub_spec(FX_DEG360 as int, da) as int;
            fx_div_spec(
                if da <= alt {
                    da
                } else {
                    alt
                },
                FX_DEG360 as int,
            )
        } else {
            sat_sub_spec(x as int, y as int)
        },
        _ => 0,
    }
}

/// The Euclidean norm of the three axis terms.
pub open spec fn distance_spec(p: PartialPoint3, q: PartialPoint3, hue_mode: Option<bool>) -> i64 {
    let circular = match hue_mode {
        Some(b) => b,
        None => false,
    };
    let a = hue_term_spec(p.0, q.0, circular) as int;
    let b = delta_rev_spec(p.1, q.1) as int;
    let c = delta_rev_spec(p.2, q.2) as int;
    clip64(sqrt_floor(a * a + b * b + c * c))
}

/// The square of an `i64`, exact in `u128`.
fn square_u128(t: i64) -> (r: u128)
    ensures
        r as int == (t as int) * (t as int),
        r <= 0x4000_0000_0000_0000_0000_0000_0000_0000u128,
{
    let a: u64 = abs_u(t);
    proof {
        assert((a as int) * (a as int) == (t as int) * (t as int)) by (nonlinear_arith)
            requires
                a as int == abs_i(t as int),
        ;
        assert((a as int) * (a as int) <= 0x4000_0000_0000_0000_0000_0000_0000_0000)
            by (nonlinear_arith)
            requires
                0 <= a as int <= 0x8000_0000_0000_0000,
        ;
    }
    (a as u128) * (a as u128)
}

impl PartialPoint3 {
    /// The view of a color for masked comparison: all three axes present.
    pub fn from_hsl(value: &Hsl) -> (r: Self)
        ensures
            r.0 == Some(value.h),
            r.1 == Some(value.s),
            r.2 == Some(value.l),
    {
        PartialPoint3(Some(value.h), Some(value.s), Some(value.l))
    }

    /// The view of a point for masked comparison: all three axes present.
    pub fn from_point(value: &Point3) -> (r: Self)
        ensures
            r.0 == Some(value.x),
            r.1 == Some(value.y),
            r.2 == Some(value.z),
    {
        PartialPoint3(Some(value.x), Some(value.y), Some(value.z))
    }

    /// The partial Euclidean/circular distance to `other`.  `hue_mode`
    /// enables the circular first-axis metric; absent it is off.
    pub fn distance(&self, other: &PartialPoint3, hue_mode: Option<bool>) -> (r: i64)
        ensures
            r == distance_spec(*self, *other, hue_mode),
            r >= 0,
    {
        let circular: bool = match hue_mode {
            Some(b) => b,
            None => false,
        };
        let a: i64 = match (self.0, other.0) {
            (Some(x), Some(y)) => {
                if circular {
                    let d: i64 = sat_sub(x, y);
                    let da: u64 = abs_u(d);
                    let dai: i64 = if da > i64::MAX as u64 {
                        i64::MAX
                    } else {
                        da as i64
                    };
                    let alt: i64 = sat_sub(FX_DEG360, dai);
                    let m: i64 = if dai <= alt {
                        dai
                    } else {
                        alt
                    };
                    crate::fx::fx_div(m, FX_DEG360)
                } else {
                    sat_sub(x, y)
                }
            },
            _ => 0,
        };
        let b: i64 = match (self.1, other.1) {
            (Some(x), Some(y)) => sat_sub(y, x),
            _ => 0,
        };
        let c: i64 = match (self.2, other.2) {
            (Some(x), Some(y)) => sat_sub(y, x),
            _ => 0,
        };
        let sum: u128 = square_u128(a) + square_u128(b) + square_u128(c);
        let root: u64 = isqrt128(sum);
        proof {
            lemma_sqrt_of(sum as int, root as int);
        }
        if root > i64::MAX as u64 {
            i64::MAX
        } else {
            root as i64
        }
    }
}

/// Saturation survives a color-to-point-to-color round trip exactly, under
/// either inversion flag: it rides along as the third coordinate, untouched
/// by the polar mapping of the other two.
pub proof fn lemma_saturation_round_trip(c: Hsl, inverted: bool)
    ensures
        point_to_hsl_spec(hsl_to_point_spec(c, inverted), inverted).s == c.s,
{
}

/// Hue shifting is addition modulo 360 degrees, so shifting by 180 degrees
/// twice restores any color whose hue lies in `[0, 360)` exactly.
pub proof fn lemma_shift_hue_round_trip(c: Hsl)
    requires
        0 <= c.h < FX_DEG360,
    ensures
        shift_hue_spec(shift_hue_spec(c, FX_DEG180 as int), FX_DEG180 as int) == c,
{
    let m = FX_DEG360 as int;
    let h = c.h as int;
    if h < FX_DEG180 as int {
        vstd::arithmetic::div_mod::lemma_small_mod((h + FX_DEG180 as int) as nat, m as nat);
        let h1 = h + FX_DEG180 as int;
        assert(h1 + FX_DEG180 as int == 1 * m + h) by (nonlinear_arith)
            requires
                h1 == h + FX_DEG180 as int,
                m == FX_DEG360 as int,
                FX_DEG360 as int == 2 * (FX_DEG180 as int),
        ;
        vstd::arithmetic::div_mod::lemma_fundamental_div_mod_converse(
            h1 + FX_DEG180 as int,
            m,
            1,
            h,
        );
    } else {
        assert(h + FX_DEG180 as int == 1 * m + (h - FX_DEG180 as int)) by (nonlinear_arith)
            requires
                m == 2 * (FX_DEG180 as int),
        ;
        vstd::arithmetic::div_mod::lemma_fundamental_div_mod_converse(
            h + FX_DEG180 as int,
            m,
            1,
            h - FX_DEG180 as int,
        );
        let h1 = h - FX_DEG180 as int;
        vstd::arithmetic::div_mod::lemma_small_mod((h1 + FX_DEG180 as int) as nat, m as nat);
    }
}

/// The whole color-point returns to exactly the same value after two
/// half-turn hue shifts, since the re-derived point depends on the color and
/// the flag alone.
pub proof fn lemma_shift_hue_round_trip_cp(c: Hsl, inverted: bool)
    requires
        0 <= c.h < FX_DEG360,
    ensures
        cp_from_hsl(
            shift_hue_spec(shift_hue_spec(c, FX_DEG180 as int), FX_DEG180 as int),
            inverted,
        ) == cp_from_hsl(c, inverted),
{
    lemma_shift_hue_round_trip(c);
}

/// 60 degrees, Q32.32.
pub const FX_DEG60: i64 = 0x3C_0000_0000;

/// Three quarters, Q32.32.
pub const FX_THREE_QUARTERS: i64 = 0xC000_0000;

/// One fifth, Q32.32 (truncated).
pub const FX_FIFTH: i64 = 0x3333_3333;

pub assume_specification<T>[ rand::random::<T> ]() -> (r: T)
    where
        rand::distributions::Standard: rand::distributions::Distribution<T>,
;

/// A uniformly random Q32.32 value in `[0, 1)`: the low 32 bits of one draw
/// from the process-wide uniform source.
fn rand_unit() -> (r: i64)
    ensures
        0 <= r < FX_ONE,
{
    let x: u64 = rand::random::<u64>();
    (x % (FX_ONE as u64)) as i64
}

impl Point2 {
    /// A point with both coordinates uniformly random in `[0, 1)`.
    pub fn random() -> (r: Self)
        ensures
            0 <= r.x < FX_ONE,
            0 <= r.y < FX_ONE,
    {
        Point2 { x: rand_unit(), y: rand_unit() }
    }
}

impl Point3 {
    /// A point with all three coordinates uniformly random in `[0, 1)`.
    pub fn random() -> (r: Self)
        ensures
            0 <= r.x < FX_ONE,
            0 <= r.y < FX_ONE,
            0 <= r.z < FX_ONE,
    {
        Point3 { x: rand_unit(), y: rand_unit(), z: rand_unit() }
    }
}

/// The ingredients of a random pair of anchor colors.  Supplying a value of
/// this type fixes the starting hue and the per-anchor saturations and
/// lightnesses, so tests can bypass the randomness of `default`.
pub struct HslPairInit {
    pub start_hue: i64,
    pub saturation: Point2,
    pub lightness: Point2,
}

/// The ingredients of a random triple of anchor colors.
pub struct HslTripleInit {
    pub start_hue: i64,
    pub saturation: Point3,
    pub lightness: Point3,
}

/// A lightness drawn uniformly from the bright band `[3/4, 19/20)`.
fn random_lightness() -> (r: i64)
    ensures
        FX_THREE_QUARTERS <= r <= FX_THREE_QUARTERS + FX_FIFTH,
{
    let u: i64 = rand_unit();
    proof {
        crate::fx::lemma_fx_mul_le_right(u as int, FX_FIFTH as int);
    }
    sat_add(FX_THREE_QUARTERS, fx_mul(u, FX_FIFTH))
}

/// The hue `r` sits a 60-to-240-degree step past `h` around the circle:
/// the fixed 60 degrees plus some slice `m` of a further 180.
pub open spec fn hue_stepped(h: int, r: int) -> bool {
    exists|m: int|
        0 <= m < FX_DEG180 as int && r == (sat_add_spec(
            sat_add_spec(h, FX_DEG60 as int) as int,
            m,
        ) as int) % (FX_DEG360 as int)
}

/// A hue moved forward by 60 degrees plus a uniformly random slice of 180
/// degrees, landed in `[0, 360)`.
fn random_hue_step(h: i64) -> (r: i64)
    ensures
        0 <= r < FX_DEG360,
        hue_stepped(h as int, r as int),
{
    let u: i64 = rand_unit();
    let step: i64 = fx_mul(u, FX_DEG180);
    proof {
        crate::fx::lemma_fx_mul_le_right(u as int, FX_DEG180 as int);
        assert(FX_DEG180 as int == 180 * (FX_ONE as int)) by (nonlinear_arith);
        assert((u as int) * (FX_DEG180 as int) <= ((FX_ONE as int) - 1) * (FX_DEG180 as int))
            by (nonlinear_arith)
            requires
                0 <= (u as int) <= (FX_ONE as int) - 1,
        ;
        assert(((FX_ONE as int) - 1) * (FX_DEG180 as int) == ((FX_DEG180 as int) - 180) * (
        FX_ONE as int)) by (nonlinear_arith)
            requires
                FX_DEG180 as int == 180 * (FX_ONE as int),
        ;
        vstd::arithmetic::div_mod::lemma_div_is_ordered(
            (u as int) * (FX_DEG180 as int),
            ((FX_DEG180 as int) - 180) * (FX_ONE as int),
            FX_ONE as int,
        );
        vstd::arithmetic::div_mod::lemma_div_by_multiple(
            (FX_DEG180 as int) - 180,
            FX_ONE as int,
        );
        assert(0 <= step < FX_DEG180);
    }
    let r: i64 = fx_mod(sat_add(sat_add(h, FX_DEG60), step), FX_DEG360);
    proof {
        assert(hue_stepped(h as int, r as int)) by {
            assert(0 <= (step as int) < FX_DEG180 as int && r as int == (sat_add_spec(
                sat_add_spec(h as int, FX_DEG60 as int) as int,
                step as int,
            ) as int) % (FX_DEG360 as int));
        }
    }
    r
}

impl Default for HslPairInit {
    /// Random ingredients: a uniform starting hue, uniform saturations, and
    /// lightnesses kept in the bright band `[3/4, 19/20)`.
    fn default() -> (r: Self)
        ensures
            0 <= r.start_hue < FX_DEG360,
            0 <= r.saturation.x < FX_ONE,
            0 <= r.saturation.y < FX_ONE,
            FX_THREE_QUARTERS <= r.lightness.x <= FX_THREE_QUARTERS + FX_FIFTH,
            FX_THREE_QUARTERS <= r.lightness.y <= FX_THREE_QUARTERS + FX_FIFTH,
    {
        let u: i64 = rand_unit();
        proof {
            assert((u as int) * (FX_DEG360 as int) == (360 * (u as int)) * (FX_ONE as int))
                by (nonlinear_arith)
                requires
                    FX_DEG360 as int == 360 * (FX_ONE as int),
            ;
            vstd::arithmetic::div_mod::lemma_div_by_multiple(360 * (u as int), FX_ONE as int);
            assert(360 * (u as int) < FX_DEG360 as int) by (nonlinear_arith)
                requires
                    0 <= (u as int) < FX_ONE as int,
                    FX_DEG360 as int == 360 * (FX_ONE as int),
            ;
            assert(360 * (u as int) >= 0) by (nonlinear_arith)
                requires
                    u >= 0,
            ;
        }
        HslPairInit {
            start_hue: fx_mul(u, FX_DEG360),
            saturation: Point2::random(),
            lightness: Point2 { x: random_lightness(), y: random_lightness() },
        }
    }
}

impl Default for HslTripleInit {
    /// Random ingredients for three anchors, mirroring the pair form with a
    /// dimmer middle lightness.
    fn default() -> (r: Self)
        ensures
            0 <= r.start_hue < FX_DEG360,
            0 <= r.saturation.x < FX_ONE,
            0 <= r.saturation.y < FX_ONE,
            0 <= r.saturation.z < FX_ONE,
            FX_THREE_QUARTERS <= r.lightness.x <= FX_THREE_QUARTERS + FX_FIFTH,
            0 <= r.lightness.y <= FX_FIFTH,
            FX_THREE_QUARTERS <= r.lightness.z <= FX_THREE_QUARTERS + FX_FIFTH,
    {
        let u: i64 = rand_unit();
        proof {
            assert((u as int) * (FX_DEG360 as int) == (360 * (u as int)) * (FX_ONE as int))
                by (nonlinear_arith)
                requires
                    FX_DEG360 as int == 360 * (FX_ONE as int),
            ;
            vstd::arithmetic::div_mod::lemma_div_by_multiple(360 * (u as int), FX_ONE as int);
            assert(360 * (u as int) < FX_DEG360 as int) by (nonlinear_arith)
                requires
                    0 <= (u as int) < FX_ONE as int,
                    FX_DEG360 as int == 360 * (FX_ONE as int),
            ;
            assert(360 * (u as int) >= 0) by (nonlinear_arith)
                requires
                    u >= 0,
            ;
        }
        let mid: i64 = rand_unit();
        proof {
            crate::fx::lemma_fx_mul_le_right(mid as int, FX_FIFTH as int);
        }
        HslTripleInit {
            start_hue: fx_mul(u, FX_DEG360),
            saturation: Point3::random(),
            lightness: Point3 {
                x: random_lightness(),
                y: fx_mul(mid, FX_FIFTH),
                z: random_lightness(),
            },
        }
    }
}

impl Hsl {
    /// Two anchor colors from the given ingredients: the first takes the
    /// starting hue, the second sits 60 to 240 degrees further around the
    /// circle.
    pub fn random_pair(init: HslPairInit) -> (r: [Hsl; 2])
        ensures
            r[0] == (Hsl { h: init.start_hue, s: init.saturation.x, l: init.lightness.x }),
            r[1].s == init.saturation.y,
            r[1].l == init.lightness.y,
            0 <= r[1].h < FX_DEG360,
            hue_stepped(init.start_hue as int, r[1].h as int),
    {
        let second: i64 = random_hue_step(init.start_hue);
        [
            Hsl { h: init.start_hue, s: init.saturation.x, l: init.lightness.x },
            Hsl { h: second, s: init.saturation.y, l: init.lightness.y },
        ]
    }

    /// Three anchor colors from the given ingredients, each hue stepped
    /// independently from the starting hue.
    pub fn random_triple(init: HslTripleInit) -> (r: [Hsl; 3])
        ensures
            r[0] == (Hsl { h: init.start_hue, s: init.saturation.x, l: init.lightness.x }),
            r[1].s == init.saturation.y,
            r[1].l == init.lightness.y,
            0 <= r[1].h < FX_DEG360,
            hue_stepped(init.start_hue as int, r[1].h as int),
            r[2].s == init.saturation.z,
            r[2].l == init.lightness.z,
            0 <= r[2].h < FX_DEG360,
            hue_stepped(init.start_hue as int, r[2].h as int),
    {
        let second: i64 = random_hue_step(init.start_hue);
        let third: i64 = random_hue_step(init.start_hue);
        [
            Hsl { h: init.start_hue, s: init.saturation.x, l: init.lightness.x },
            Hsl { h: second, s: init.saturation.y, l: init.lightness.y },
            Hsl { h: third, s: init.saturation.z, l: init.lightness.z },
        ]
    }
}

} // verus!
