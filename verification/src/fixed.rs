//! Fixed-point scalar arithmetic.
//!
//! Every optical quantity (length, direction component, refractive index,
//! curvature) is an `i64` counting billionths of a unit: the value `v`
//! stands for the real number `v / SCALE`. Multiplication, division and
//! square root truncate toward zero. Each operation returns `None` instead
//! of a result that would leave the `i64` range, so callers see an explicit
//! out-of-range outcome rather than a silently wrapped value.

use vstd::prelude::*;
use vstd::arithmetic::mul::lemma_mul_nonnegative;
use vstd::arithmetic::mul::lemma_mul_unary_negation;
use vstd::arithmetic::mul::lemma_mul_inequality;
use vstd::arithmetic::mul::lemma_mul_upper_bound;
use vstd::arithmetic::mul::lemma_mul_is_commutative;

verus! {

/// Number of fixed-point units in one whole unit: nine decimal places.
pub const SCALE: i64 = 1_000_000_000;

/// One half, in fixed-point units.
pub const HALF: i64 = 500_000_000;

/// Whether a mathematical integer fits in an `i64`.
pub open spec fn in64(x: int) -> bool {
    i64::MIN <= x <= i64::MAX
}

/// Absolute value of a mathematical integer.
pub open spec fn iabs(a: int) -> int {
    if a < 0 {
        -a
    } else {
        a
    }
}

/// Integer division truncated toward zero (the rounding used by every
/// fixed-point operation), defined for any nonzero divisor.
pub open spec fn tdiv(a: int, b: int) -> int
    recommends
        b != 0,
{
    if (a < 0) == (b < 0) {
        iabs(a) / iabs(b)
    } else {
        -(iabs(a) / iabs(b))
    }
}

/// The exact fixed-point product of `a` and `b`, before any range check.
pub open spec fn mul_val(a: int, b: int) -> int {
    tdiv(a * b, SCALE as int)
}

/// The exact fixed-point quotient of `a` by `b`, before any range check.
pub open spec fn div_val(a: int, b: int) -> int
    recommends
        b != 0,
{
    tdiv(a * (SCALE as int), b)
}

/// Packs a mathematical integer back into `i64`, or `None` if out of range.
pub open spec fn chk(v: int) -> Option<i64> {
    if in64(v) {
        Some(v as i64)
    } else {
        None
    }
}

/// What fixed-point addition returns.
pub open spec fn s_fx_add(a: i64, b: i64) -> Option<i64> {
    chk(a + b)
}

/// What fixed-point subtraction returns.
pub open spec fn s_fx_sub(a: i64, b: i64) -> Option<i64> {
    chk(a - b)
}

/// What fixed-point multiplication returns.
pub open spec fn s_fx_mul(a: i64, b: i64) -> Option<i64> {
    chk(mul_val(a as int, b as int))
}

/// What fixed-point division returns; `None` on a zero divisor.
pub open spec fn s_fx_div(a: i64, b: i64) -> Option<i64> {
    if b == 0 {
        None
    } else {
        chk(div_val(a as int, b as int))
    }
}

/// `r` is the integer square root of `x`.
pub open spec fn is_isqrt(r: int, x: int) -> bool {
    0 <= r && r * r <= x && x < (r + 1) * (r + 1)
}

/// The integer square root of `x` (meaningful for `x >= 0`,
/// see `lemma_isqrt_exists`).
pub open spec fn isqrt_of(x: int) -> int {
    choose|r: int| is_isqrt(r, x)
}

/// The fixed-point square root of `a`: the represented value is within one
/// truncation step of the real square root of `a / SCALE`.
pub open spec fn sqrt_val(a: int) -> int {
    isqrt_of(a * (SCALE as int))
}

/// What the fixed-point square root returns; `None` on negative input.
pub open spec fn s_fx_sqrt(a: i64) -> Option<i64> {
    if a < 0 {
        None
    } else {
        Some(sqrt_val(a as int) as i64)
    }
}

/// An integer square root exists for every nonnegative integer, so
/// `isqrt_of(x)` satisfies its defining property.
pub proof fn lemma_isqrt_exists(x: int)
    requires
        0 <= x,
    ensures
        is_isqrt(isqrt_of(x), x),
    decreases x,
{
    if x == 0 {
        assert(is_isqrt(0, 0));
    } else {
        lemma_isqrt_exists(x - 1);
        let r = isqrt_of(x - 1);
        if x < (r + 1) * (r + 1) {
            assert(is_isqrt(r, x));
        } else {
            assert(x == (r + 1) * (r + 1));
            assert((r + 1) * (r + 1) < (r + 2) * (r + 2)) by (nonlinear_arith)
                requires
                    0 <= r,
            ;
            assert(is_isqrt(r + 1, x));
        }
    }
    assert(exists|r: int| is_isqrt(r, x));
}

/// The integer square root is unique.
pub proof fn lemma_isqrt_unique(r: int, x: int)
    requires
        is_isqrt(r, x),
    ensures
        r == isqrt_of(x),
{
    assert(is_isqrt(isqrt_of(x), x)) by {
        lemma_isqrt_exists(x);
    }
    let s = isqrt_of(x);
    assert(r == s) by (nonlinear_arith)
        requires
            0 <= r,
            0 <= s,
            r * r <= x,
            x < (r + 1) * (r + 1),
            s * s <= x,
            x < (s + 1) * (s + 1),
    ;
}

/// The absolute value of a product is the product of absolute values.
pub proof fn lemma_iabs_mul(a: int, b: int)
    ensures
        iabs(a * b) == iabs(a) * iabs(b),
{
    if a >= 0 && b >= 0 {
        lemma_mul_nonnegative(a, b);
    } else if a >= 0 && b < 0 {
        lemma_mul_nonnegative(a, -b);
        lemma_mul_unary_negation(a, b);
    } else if a < 0 && b >= 0 {
        lemma_mul_nonnegative(-a, b);
        lemma_mul_unary_negation(b, a);
        lemma_mul_is_commutative(a, b);
        lemma_mul_is_commutative(-a, b);
    } else {
        lemma_mul_nonnegative(-a, -b);
        vstd::arithmetic::mul::lemma_mul_cancels_negatives(a, b);
    }
}

/// A product of factors with differing signs is nonpositive.
proof fn lemma_mixed_sign_product(a: int, b: int)
    requires
        (a < 0) != (b < 0),
    ensures
        a * b <= 0,
{
    if a < 0 {
        lemma_mul_nonnegative(-a, b);
        lemma_mul_unary_negation(b, a);
        lemma_mul_is_commutative(a, b);
        lemma_mul_is_commutative(-a, b);
    } else {
        lemma_mul_nonnegative(a, -b);
        lemma_mul_unary_negation(a, b);
    }
}

/// Dividing any nonzero value by itself gives exactly one: the fixed-point
/// quotient `n / n` is `SCALE` with no truncation loss.
pub proof fn lemma_fx_div_self(n: i64)
    requires
        n != 0,
    ensures
        s_fx_div(n, n) == Some(SCALE),
{
    lemma_iabs_mul(n as int, SCALE as int);
    if n > 0 {
        lemma_mul_inequality(1, n as int, SCALE as int);
    } else {
        lemma_mul_inequality(n as int, -1, SCALE as int);
    }
    vstd::arithmetic::div_mod::lemma_div_multiples_vanish(SCALE as int, iabs(n as int));
    assert(div_val(n as int, n as int) == SCALE as int);
}

/// Magnitude of an `i64` as a `u64`, exact even at `i64::MIN`.
pub fn mag64(a: i64) -> (r: u64)
    ensures
        r as int == iabs(a as int),
{
    if a < 0 {
        (-(a as i128)) as u64
    } else {
        a as u64
    }
}

/// Builds a signed fixed-point value out of a magnitude, or `None` if it
/// leaves the `i64` range.
fn from_mag(q: u128, neg: bool) -> (r: Option<i64>)
    ensures
        r == chk(if neg { -(q as int) } else { q as int }),
{
    if neg {
        if q <= i64::MAX as u128 {
            Some(-(q as i64))
        } else if q == (i64::MAX as u128) + 1 {
            Some(i64::MIN)
        } else {
            None
        }
    } else {
        if q <= i64::MAX as u128 {
            Some(q as i64)
        } else {
            None
        }
    }
}

/// Fixed-point addition.
pub fn fx_add(a: i64, b: i64) -> (r: Option<i64>)
    ensures
        r == s_fx_add(a, b),
{
    let s: i128 = a as i128 + b as i128;
    if i64::MIN as i128 <= s && s <= i64::MAX as i128 {
        Some(s as i64)
    } else {
        None
    }
}

/// Fixed-point subtraction.
pub fn fx_sub(a: i64, b: i64) -> (r: Option<i64>)
    ensures
        r == s_fx_sub(a, b),
{
    let s: i128 = a as i128 - b as i128;
    if i64::MIN as i128 <= s && s <= i64::MAX as i128 {
        Some(s as i64)
    } else {
        None
    }
}

/// Fixed-point multiplication, truncated toward zero.
pub fn fx_mul(a: i64, b: i64) -> (r: Option<i64>)
    ensures
        r == s_fx_mul(a, b),
{
    let am: u128 = mag64(a) as u128;
    let bm: u128 = mag64(b) as u128;
    proof {
        lemma_mul_upper_bound(
            am as int,
            0x8000000000000000,
            bm as int,
            0x8000000000000000,
        );
    }
    let p: u128 = am * bm;
    let q: u128 = p / (SCALE as u128);
    let neg: bool = (a < 0) != (b < 0);
    proof {
        lemma_iabs_mul(a as int, b as int);
        let prod = (a as int) * (b as int);
        if neg {
            lemma_mixed_sign_product(a as int, b as int);
            if prod == 0 {
                assert(mul_val(a as int, b as int) == 0);
                assert(q == 0);
            } else {
                assert(mul_val(a as int, b as int) == -(q as int));
            }
        } else {
            if a < 0 {
                lemma_mul_nonnegative(-(a as int), -(b as int));
                vstd::arithmetic::mul::lemma_mul_cancels_negatives(a as int, b as int);
            } else {
                lemma_mul_nonnegative(a as int, b as int);
            }
            assert(mul_val(a as int, b as int) == q as int);
        }
        assert(chk(mul_val(a as int, b as int)) == chk(
            if neg {
                -(q as int)
            } else {
                q as int
            },
        ));
    }
    from_mag(q, neg)
}

/// Fixed-point division, truncated toward zero; `None` on a zero divisor.
pub fn fx_div(a: i64, b: i64) -> (r: Option<i64>)
    ensures
        r == s_fx_div(a, b),
{
    if b == 0 {
        return None;
    }
    let am: u128 = mag64(a) as u128;
    let bm: u128 = mag64(b) as u128;
    proof {
        lemma_mul_upper_bound(am as int, 0x8000000000000000, SCALE as int, SCALE as int);
    }
    let p: u128 = am * (SCALE as u128);
    let q: u128 = p / bm;
    let neg: bool = (a < 0) != (b < 0);
    proof {
        lemma_iabs_mul(a as int, SCALE as int);
        let num = (a as int) * (SCALE as int);
        if a == 0 {
            assert(num == 0);
            assert(q == 0);
            assert(div_val(a as int, b as int) == 0);
        } else {
            if a < 0 {
                lemma_mixed_sign_product(a as int, SCALE as int);
                lemma_mul_inequality(a as int, -1, SCALE as int);
                assert(num < 0);
            } else {
                lemma_mul_inequality(1, a as int, SCALE as int);
                assert(num > 0);
            }
            assert(div_val(a as int, b as int) == if neg {
                -(q as int)
            } else {
                q as int
            });
        }
        assert(chk(div_val(a as int, b as int)) == chk(
            if neg {
                -(q as int)
            } else {
                q as int
            },
        ));
    }
    from_mag(q, neg)
}

/// Integer square root of a `u128` below `2^94`, by bracketed bisection.
pub fn isqrt_u128(x: u128) -> (r: u128)
    requires
        x < 0x400000000000000000000000u128,
    ensures
        is_isqrt(r as int, x as int),
{
    let mut lo: u128 = 0;
    let mut hi: u128 = 0x800000000000u128;
    assert(0x800000000000u128 * 0x800000000000u128 == 0x400000000000000000000000u128)
        by (bit_vector);
    while lo + 1 < hi
        invariant
            lo < hi,
            hi <= 0x800000000000u128,
            (lo as int) * (lo as int) <= x as int,
            (x as int) < (hi as int) * (hi as int),
        decreases hi - lo,
    {
        let mid: u128 = lo + (hi - lo) / 2;
        proof {
            lemma_mul_upper_bound(mid as int, 0x800000000000, mid as int, 0x800000000000);
        }
        if mid * mid <= x {
            lo = mid;
        } else {
            hi = mid;
        }
    }
    lo
}

/// Fixed-point square root; `None` on negative input.
pub fn fx_sqrt(a: i64) -> (r: Option<i64>)
    ensures
        r == s_fx_sqrt(a),
{
    if a < 0 {
        return None;
    }
    proof {
        lemma_mul_upper_bound(a as int, 0x8000000000000000, SCALE as int, SCALE as int);
    }
    let x: u128 = (a as u128) * (SCALE as u128);
    let s: u128 = isqrt_u128(x);
    proof {
        lemma_isqrt_unique(s as int, x as int);
        assert((s as int) <= 0x7fffffffffffffff) by (nonlinear_arith)
            requires
                0 <= s as int,
                (s as int) * (s as int) <= x as int,
                (x as int) < 0x400000000000000000000000,
        ;
    }
    Some(s as i64)
}

} // verus!
