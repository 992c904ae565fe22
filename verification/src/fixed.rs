//! Fixed-point scalar arithmetic.
//!
//! Every scalar of the simulation — a coordinate, a throttle, a sine — is an
//! `i64` counting millionths of a unit. Multiplication rescales its product
//! by [`FX_ONE`] with the quotient rounded toward zero, the rounding of
//! Rust's integer division, so every operation has an exact mathematical
//! statement.

use vstd::prelude::*;

verus! {

use vstd::arithmetic::div_mod::lemma_div_is_ordered;
use vstd::arithmetic::div_mod::lemma_div_pos_is_pos;

/// Raw steps in one unit: scalars are stored as millionths.
pub const FX_ONE: i64 = 1_000_000;

/// Largest raw magnitude this crate admits for a world coordinate
/// (a million units), leaving ample headroom below `i64::MAX` for the
/// intermediate values of the geometric formulas.
pub const MAX_COORD: i64 = 1_000_000_000_000;

/// `x` is representable as an `i64`.
pub open spec fn fits_i64(x: int) -> bool {
    i64::MIN <= x <= i64::MAX
}

/// Magnitude of an integer.
pub open spec fn abs_int(x: int) -> int {
    if x >= 0 {
        x
    } else {
        -x
    }
}

/// Quotient of `p` by `d` rounded toward zero, the rounding Rust's `/`
/// performs on machine integers.
pub open spec fn div_to_zero(p: int, d: int) -> int
    recommends
        d > 0,
{
    if p >= 0 {
        p / d
    } else {
        -((-p) / d)
    }
}

/// The exact meaning of [`fx_mul`]: the integer product rescaled by
/// [`FX_ONE`], rounded toward zero.
pub open spec fn fx_mul_spec(a: int, b: int) -> int {
    div_to_zero(a * b, FX_ONE as int)
}

/// Rounding toward zero never grows the magnitude of a quotient:
/// `|p / d|` is at most `|p| / d`, hence at most any `m / d` with `|p| <= m`.
pub proof fn lemma_div_to_zero_bound(p: int, d: int, m: int)
    requires
        d >= 1,
        abs_int(p) <= m,
    ensures
        abs_int(div_to_zero(p, d)) <= m / d,
        abs_int(div_to_zero(p, d)) <= m,
{
    if p >= 0 {
        lemma_div_pos_is_pos(p, d);
        lemma_div_is_ordered(p, m, d);
    } else {
        lemma_div_pos_is_pos(-p, d);
        lemma_div_is_ordered(-p, m, d);
    }
    lemma_div_is_ordered(m / d, m, 1);
    assert(m / 1 == m) by (nonlinear_arith);
}

/// A magnitude bound for the rescaled product: with `|a| <= aa` and
/// `|b| <= bb`, the result of `fx_mul` lies within `(aa * bb) / FX_ONE`.
pub proof fn lemma_fx_mul_bound(a: int, b: int, aa: int, bb: int)
    requires
        abs_int(a) <= aa,
        abs_int(b) <= bb,
    ensures
        abs_int(fx_mul_spec(a, b)) <= (aa * bb) / (FX_ONE as int),
        abs_int(fx_mul_spec(a, b)) <= aa * bb,
{
    assert(abs_int(a * b) <= aa * bb) by (nonlinear_arith)
        requires
            abs_int(a) <= aa,
            abs_int(b) <= bb,
    ;
    lemma_div_to_zero_bound(a * b, FX_ONE as int, aa * bb);
}

/// Fixed-point multiplication: `(a * b) / FX_ONE` with the quotient rounded
/// toward zero. The product is formed in `i128`, so the only demand is that
/// the rescaled result fit back into an `i64`.
pub fn fx_mul(a: i64, b: i64) -> (r: i64)
    requires
        fits_i64(fx_mul_spec(a as int, b as int)),
    ensures
        r as int == fx_mul_spec(a as int, b as int),
{
    proof {
        assert(i128::MIN <= (a as int) * (b as int) <= i128::MAX) by (nonlinear_arith)
            requires
                i64::MIN <= a as int <= i64::MAX,
                i64::MIN <= b as int <= i64::MAX,
        ;
    }
    let p: i128 = (a as i128) * (b as i128);
    proof {
        lemma_div_to_zero_bound(p as int, FX_ONE as int, abs_int(p as int));
    }
    let q: i128 = p.checked_div(FX_ONE as i128).unwrap();
    q as i64
}

/// Fixed-point division: `(a * FX_ONE) / d` with the quotient rounded toward
/// zero, so that `fx_div(a, d)` is the fixed-point ratio of `a` to `d`.
pub fn fx_div(a: i64, d: i64) -> (r: i64)
    requires
        d > 0,
        fits_i64(div_to_zero(a as int * FX_ONE as int, d as int)),
    ensures
        r as int == div_to_zero(a as int * FX_ONE as int, d as int),
{
    proof {
        assert(i128::MIN <= (a as int) * (FX_ONE as int) <= i128::MAX) by (nonlinear_arith)
            requires
                i64::MIN <= a as int <= i64::MAX,
                FX_ONE as int == 1_000_000,
        ;
    }
    let p: i128 = (a as i128) * (FX_ONE as i128);
    proof {
        lemma_div_to_zero_bound(p as int, d as int, abs_int(p as int));
    }
    let q: i128 = p.checked_div(d as i128).unwrap();
    q as i64
}

/// `r` is the integer square root of `n`.
pub open spec fn is_sqrt_of(n: int, r: int) -> bool {
    &&& 0 <= r
    &&& r * r <= n
    &&& n < (r + 1) * (r + 1)
}

/// The integer square root is unique: the characterization in
/// [`is_sqrt_of`] pins a single value.
pub proof fn lemma_sqrt_unique(n: int, r1: int, r2: int)
    requires
        is_sqrt_of(n, r1),
        is_sqrt_of(n, r2),
    ensures
        r1 == r2,
{
    assert(r1 == r2) by (nonlinear_arith)
        requires
            0 <= r1,
            r1 * r1 <= n,
            n < (r1 + 1) * (r1 + 1),
            0 <= r2,
            r2 * r2 <= n,
            n < (r2 + 1) * (r2 + 1),
    ;
}

/// The integer square root, defined by digit recursion: the root of `n` is
/// twice the root of `n / 4`, corrected upward by one where the square still
/// fits.
pub open spec fn isqrt_spec(n: int) -> int
    decreases n,
{
    if n <= 0 {
        0
    } else {
        let r = 2 * isqrt_spec(n / 4);
        if (r + 1) * (r + 1) <= n {
            r + 1
        } else {
            r
        }
    }
}

/// [`isqrt_spec`] satisfies the square-root characterization.
pub proof fn lemma_isqrt_spec_correct(n: int)
    requires
        0 <= n,
    ensures
        is_sqrt_of(n, isqrt_spec(n)),
    decreases n,
{
    if n == 0 {
        assert(is_sqrt_of(0, 0)) by (nonlinear_arith);
    } else {
        lemma_isqrt_spec_correct(n / 4);
        let r0 = isqrt_spec(n / 4);
        let r = 2 * r0;
        assert(n == 4 * (n / 4) + n % 4 && 0 <= n % 4 < 4) by (nonlinear_arith)
            requires
                n >= 1,
        ;
        assert(r * r <= n && n < (r + 2) * (r + 2)) by (nonlinear_arith)
            requires
                r == 2 * r0,
                0 <= r0,
                r0 * r0 <= n / 4,
                n / 4 < (r0 + 1) * (r0 + 1),
                n == 4 * (n / 4) + n % 4,
                0 <= n % 4 < 4,
        ;
        if (r + 1) * (r + 1) <= n {
            assert(is_sqrt_of(n, r + 1));
        } else {
            assert(is_sqrt_of(n, r));
        }
    }
}

/// Integer square root by bisection.
pub fn isqrt_u128(n: u128) -> (r: u128)
    requires
        (n as int) < 0x4000_0000_0000_0000_0000_0000_0000_0000,
    ensures
        is_sqrt_of(n as int, r as int),
        r as int == isqrt_spec(n as int),
{
    let mut lo: u128 = 0;
    let mut hi: u128 = 0x8000_0000_0000_0000;
    proof {
        assert((hi as int) * (hi as int) == 0x4000_0000_0000_0000_0000_0000_0000_0000)
            by (nonlinear_arith)
            requires
                hi as int == 0x8000_0000_0000_0000,
        ;
    }
    while hi - lo > 1
        invariant
            0 <= lo < hi <= 0x8000_0000_0000_0000u128,
            (lo as int) * (lo as int) <= n as int,
            (n as int) < (hi as int) * (hi as int),
        decreases hi as int - lo as int,
    {
        let mid: u128 = lo + (hi - lo) / 2;
        proof {
            assert((mid as int) * (mid as int)
                <= 0x4000_0000_0000_0000_0000_0000_0000_0000) by (nonlinear_arith)
                requires
                    0 <= mid as int <= 0x8000_0000_0000_0000,
            ;
        }
        if mid * mid <= n {
            lo = mid;
        } else {
            hi = mid;
        }
    }
    proof {
        lemma_isqrt_spec_correct(n as int);
        lemma_sqrt_unique(n as int, lo as int, isqrt_spec(n as int));
    }
    lo
}

} // verus!
