//! Q32.32 fixed-point arithmetic.
//!
//! A value models the real number `bits / 2^32`.  Multiplication and division
//! truncate toward zero; every operation saturates at the `i64` range instead
//! of wrapping, so all of them are total.

use vstd::arithmetic::div_mod::lemma_fundamental_div_mod;
use vstd::arithmetic::div_mod::lemma_fundamental_div_mod_converse;
use vstd::prelude::*;

verus! {

/// The fixed-point representation of 1.
pub const FX_ONE: i64 = 0x1_0000_0000;

/// The fixed-point representation of 1/2.
pub const FX_HALF: i64 = 0x8000_0000;

/// The fixed-point representation of 3.
pub const FX_THREE: i64 = 0x3_0000_0000;

/// Absolute value, as a mathematical integer.
pub open spec fn abs_i(v: int) -> int {
    if v < 0 {
        -v
    } else {
        v
    }
}

/// Clamp a mathematical integer to the `i64` range.
pub open spec fn sat64(v: int) -> int {
    if v > i64::MAX as int {
        i64::MAX as int
    } else if v < i64::MIN as int {
        i64::MIN as int
    } else {
        v
    }
}

/// `sat64`, landed back in `i64`.
pub open spec fn clip64(v: int) -> i64 {
    sat64(v) as i64
}

/// Quotient of `p / d` truncated toward zero (`d != 0`).
pub open spec fn div_trunc(p: int, d: int) -> int {
    if (p < 0) != (d < 0) {
        -(abs_i(p) / abs_i(d))
    } else {
        abs_i(p) / abs_i(d)
    }
}

/// The fixed-point product of `a` and `b`.
pub open spec fn fx_mul_spec(a: int, b: int) -> i64 {
    clip64(div_trunc(a * b, FX_ONE as int))
}

/// The fixed-point quotient of `a` by `b` (`b != 0`).
pub open spec fn fx_div_spec(a: int, b: int) -> i64 {
    clip64(div_trunc(a * (FX_ONE as int), b))
}

/// The saturating sum of `a` and `b`.
pub open spec fn sat_add_spec(a: int, b: int) -> i64 {
    clip64(a + b)
}

/// The saturating difference of `a` and `b`.
pub open spec fn sat_sub_spec(a: int, b: int) -> i64 {
    clip64(a - b)
}

/// `r` is the integer square root of `x`.
pub open spec fn is_sqrt(x: int, r: int) -> bool {
    0 <= r && r * r <= x < (r + 1) * (r + 1)
}

/// The integer square root of a nonnegative `x`.
pub open spec fn sqrt_floor(x: int) -> int {
    choose|r: int| is_sqrt(x, r)
}

/// The fixed-point square root of a nonnegative fixed-point `x`:
/// the integer square root of `x * 2^32` is again a Q32.32 value.
pub open spec fn fx_sqrt_spec(x: int) -> i64 {
    clip64(sqrt_floor(x * (FX_ONE as int)))
}

/// A product of two factors from `[0, 1]` stays in `[0, 1]`.
pub proof fn lemma_fx_mul_in_unit(a: int, b: int)
    requires
        0 <= a <= FX_ONE as int,
        0 <= b <= FX_ONE as int,
    ensures
        0 <= fx_mul_spec(a, b) <= FX_ONE,
        fx_mul_spec(a, b) as int == (a * b) / (FX_ONE as int),
{
    let s = FX_ONE as int;
    let p = a * b;
    assert(0 <= p <= s * s) by (nonlinear_arith)
        requires
            0 <= a <= s,
            0 <= b <= s,
            p == a * b,
    ;
    vstd::arithmetic::div_mod::lemma_div_is_ordered(p, s * s, s);
    vstd::arithmetic::div_mod::lemma_div_by_multiple(s, s);
    vstd::arithmetic::div_mod::lemma_div_pos_is_pos(p, s);
}

/// A product with a factor from `[0, 1]` never exceeds the other factor,
/// and is the plain floored product.
pub proof fn lemma_fx_mul_le_right(a: int, b: int)
    requires
        0 <= a <= FX_ONE as int,
        0 <= b <= i64::MAX as int,
    ensures
        0 <= fx_mul_spec(a, b) <= b,
        fx_mul_spec(a, b) as int == (a * b) / (FX_ONE as int),
{
    let s = FX_ONE as int;
    let p = a * b;
    assert(0 <= p <= s * b) by (nonlinear_arith)
        requires
            0 <= a <= s,
            0 <= b,
            p == a * b,
    ;
    assert(s * b == b * s) by (nonlinear_arith);
    vstd::arithmetic::div_mod::lemma_div_is_ordered(p, b * s, s);
    vstd::arithmetic::div_mod::lemma_div_by_multiple(b, s);
    vstd::arithmetic::div_mod::lemma_div_pos_is_pos(p, s);
}

/// Multiplying by 1 is the identity (up to the `i64` clamp).
pub proof fn lemma_fx_mul_one(a: int)
    ensures
        fx_mul_spec(FX_ONE as int, a) == clip64(a),
        fx_mul_spec(a, FX_ONE as int) == clip64(a),
{
    let s = FX_ONE as int;
    assert(a * s == s * a) by (nonlinear_arith);
    if a >= 0 {
        assert(s * a >= 0) by (nonlinear_arith)
            requires
                a >= 0,
                s > 0,
        ;
        assert(abs_i(s * a) == abs_i(a) * s) by (nonlinear_arith)
            requires
                a >= 0,
                s > 0,
        ;
    } else {
        assert(s * a < 0) by (nonlinear_arith)
            requires
                a < 0,
                s > 0,
        ;
        assert(abs_i(s * a) == abs_i(a) * s) by (nonlinear_arith)
            requires
                a < 0,
                s > 0,
        ;
    }
    vstd::arithmetic::div_mod::lemma_div_by_multiple(abs_i(a), s);
}

/// Multiplying by 0 gives 0.
pub proof fn lemma_fx_mul_zero(a: int)
    ensures
        fx_mul_spec(0, a) == 0,
        fx_mul_spec(a, 0) == 0,
{
    assert(0 * a == 0) by (nonlinear_arith);
    assert(a * 0 == 0) by (nonlinear_arith);
    vstd::arithmetic::div_mod::lemma_div_of0(FX_ONE as int);
}

/// Pin `sqrt_floor` from a witness.
pub proof fn lemma_sqrt_of(x: int, r: int)
    requires
        is_sqrt(x, r),
    ensures
        sqrt_floor(x) == r,
{
    assert(is_sqrt(x, sqrt_floor(x))) by {
        assert(is_sqrt(x, r));
    }
    lemma_sqrt_unique(x, sqrt_floor(x), r);
}

pub proof fn lemma_sqrt_unique(x: int, r1: int, r2: int)
    requires
        is_sqrt(x, r1),
        is_sqrt(x, r2),
    ensures
        r1 == r2,
{
    if r1 < r2 {
        assert((r1 + 1) * (r1 + 1) <= r2 * r2) by (nonlinear_arith)
            requires
                0 <= r1 < r2,
        ;
    }
    if r2 < r1 {
        assert((r2 + 1) * (r2 + 1) <= r1 * r1) by (nonlinear_arith)
            requires
                0 <= r2 < r1,
        ;
    }
}

/// The magnitude of an `i64`, exact also at `i64::MIN`.
pub fn abs_u(a: i64) -> (r: u64)
    ensures
        r as int == abs_i(a as int),
{
    if a >= 0 {
        a as u64
    } else if a == i64::MIN {
        0x8000_0000_0000_0000u64
    } else {
        (-a) as u64
    }
}

/// Land a magnitude-and-sign result in `i64`, saturating.
fn sat_from_u128(q: u128, neg: bool) -> (r: i64)
    ensures
        r as int == sat64(
            if neg {
                -(q as int)
            } else {
                q as int
            },
        ),
{
    if neg {
        if q >= 0x8000_0000_0000_0000u128 {
            i64::MIN
        } else {
            -(q as i64)
        }
    } else {
        if q > i64::MAX as u128 {
            i64::MAX
        } else {
            q as i64
        }
    }
}

/// Fixed-point multiplication, truncating toward zero and saturating.
pub fn fx_mul(a: i64, b: i64) -> (r: i64)
    ensures
        r == fx_mul_spec(a as int, b as int),
{
    let neg: bool = (a < 0) != (b < 0);
    let aa: u128 = abs_u(a) as u128;
    let bb: u128 = abs_u(b) as u128;
    proof {
        assert((aa as int) * (bb as int) <= u128::MAX as int) by (nonlinear_arith)
            requires
                0 <= aa as int <= 0x8000_0000_0000_0000,
                0 <= bb as int <= 0x8000_0000_0000_0000,
        ;
    }
    let p: u128 = aa * bb;
    let q: u128 = p / (FX_ONE as u128);
    proof {
        assert(abs_i(a as int) * abs_i(b as int) == abs_i((a as int) * (b as int)))
            by (nonlinear_arith);
        assert((a as int) * (b as int) < 0 ==> (a < 0) != (b < 0)) by (nonlinear_arith);
        assert((a as int) * (b as int) > 0 ==> (a < 0) == (b < 0)) by (nonlinear_arith);
    }
    sat_from_u128(q, neg)
}

/// Fixed-point division, truncating toward zero and saturating.
pub fn fx_div(a: i64, b: i64) -> (r: i64)
    requires
        b != 0,
    ensures
        r == fx_div_spec(a as int, b as int),
{
    let neg: bool = (a < 0) != (b < 0);
    let aa: u128 = abs_u(a) as u128;
    let bb: u128 = abs_u(b) as u128;
    let p: u128 = aa * (FX_ONE as u128);
    let q: u128 = p / bb;
    proof {
        assert(abs_i(a as int) * (FX_ONE as int) == abs_i((a as int) * (FX_ONE as int)))
            by (nonlinear_arith);
        assert((a as int) * (FX_ONE as int) < 0 ==> a < 0) by (nonlinear_arith);
        assert((a as int) * (FX_ONE as int) > 0 ==> a > 0) by (nonlinear_arith);
    }
    sat_from_u128(q, neg)
}

/// Saturating addition.
pub fn sat_add(a: i64, b: i64) -> (r: i64)
    ensures
        r == sat_add_spec(a as int, b as int),
{
    let s: i128 = a as i128 + b as i128;
    if s > i64::MAX as i128 {
        i64::MAX
    } else if s < i64::MIN as i128 {
        i64::MIN
    } else {
        s as i64
    }
}

/// Saturating subtraction.
pub fn sat_sub(a: i64, b: i64) -> (r: i64)
    ensures
        r == sat_sub_spec(a as int, b as int),
{
    let s: i128 = a as i128 - b as i128;
    if s > i64::MAX as i128 {
        i64::MAX
    } else if s < i64::MIN as i128 {
        i64::MIN
    } else {
        s as i64
    }
}

/// Euclidean remainder: the result is always in `[0, m)`.
pub fn fx_mod(a: i64, m: i64) -> (r: i64)
    requires
        m > 0,
    ensures
        r as int == (a as int) % (m as int),
        0 <= r < m,
{
    let am: u64 = abs_u(a) % (m as u64);
    if a >= 0 {
        am as i64
    } else {
        let k: u64 = abs_u(a);
        let q: u64 = k / (m as u64);
        proof {
            lemma_fundamental_div_mod(k as int, m as int);
            assert((k as int) == (m as int) * ((k as int) / (m as int)) + (k as int) % (m as int));
        }
        if am == 0 {
            proof {
                assert((a as int) == (-(q as int)) * (m as int) + 0) by (nonlinear_arith)
                    requires
                        (a as int) == -(k as int),
                        (k as int) == (m as int) * (q as int) + (am as int),
                        am == 0,
                ;
                lemma_fundamental_div_mod_converse(a as int, m as int, -(q as int), 0);
            }
            0
        } else {
            proof {
                assert((a as int) == (-(q as int) - 1) * (m as int) + ((m as int) - (am as int)))
                    by (nonlinear_arith)
                    requires
                        (a as int) == -(k as int),
                        (k as int) == (m as int) * (q as int) + (am as int),
                ;
                lemma_fundamental_div_mod_converse(
                    a as int,
                    m as int,
                    -(q as int) - 1,
                    m - am,
                );
            }
            m - (am as i64)
        }
    }
}

/// Integer square root of a `u128`, by binary search on the root.
pub fn isqrt128(x: u128) -> (r: u64)
    ensures
        is_sqrt(x as int, r as int),
{
    let mut lo: u64 = 0;
    let mut hi: u64 = u64::MAX;
    proof {
        assert((hi as int + 1) * (hi as int + 1) > (x as int)) by (nonlinear_arith)
            requires
                hi == u64::MAX,
                x <= u128::MAX,
        ;
    }
    while lo < hi
        invariant
            lo <= hi,
            (lo as int) * (lo as int) <= (x as int),
            (x as int) < (hi as int + 1) * (hi as int + 1),
        decreases hi - lo,
    {
        let mid: u64 = lo + (hi - lo) / 2 + 1;
        proof {
            assert((mid as int) * (mid as int) <= u128::MAX as int) by (nonlinear_arith)
                requires
                    0 <= mid as int <= u64::MAX as int,
            ;
        }
        let sq: u128 = (mid as u128) * (mid as u128);
        if sq <= x {
            lo = mid;
        } else {
            hi = mid - 1;
        }
    }
    lo
}

/// Fixed-point square root of a nonnegative fixed-point value.
pub fn fx_sqrt(x: i64) -> (r: i64)
    requires
        x >= 0,
    ensures
        r == fx_sqrt_spec(x as int),
        r >= 0,
{
    proof {
        assert((x as int) * (FX_ONE as int) <= u128::MAX as int) by (nonlinear_arith)
            requires
                0 <= x as int <= i64::MAX as int,
        ;
    }
    let wide: u128 = (x as u128) * (FX_ONE as u128);
    let root: u64 = isqrt128(wide);
    proof {
        let w = (x as int) * (FX_ONE as int);
        assert((root as int) * (root as int) <= w < (root as int + 1) * (root as int + 1));
        assert(is_sqrt(w, sqrt_floor(w))) by {
            assert(is_sqrt(w, root as int));
        }
        lemma_sqrt_unique(w, root as int, sqrt_floor(w));
        assert((root as int) <= i64::MAX as int) by (nonlinear_arith)
            requires
                (root as int) * (root as int) <= w,
                w <= (i64::MAX as int) * (FX_ONE as int),
        ;
    }
    root as i64
}

} // verus!
