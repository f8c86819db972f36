//! Fixed-point scalar arithmetic.
//!
//! A scalar is an `i64` holding `value * SCALE`, so the representable grid
//! has spacing `1 / SCALE`.  Multiplication and division rescale and round
//! toward zero; every operation saturates to the `i64` range, so all of the
//! arithmetic here is total and exactly described by the spec functions
//! below.

use vstd::prelude::*;

verus! {

/// One, as a fixed-point scalar: raw values hold `value * SCALE`.
pub const SCALE: i64 = 65536;

/// One half, as a fixed-point scalar.
pub const HALF: i64 = 32768;

/// Magnitude of a mathematical integer.
pub open spec fn abs_spec(a: int) -> int {
    if a < 0 {
        -a
    } else {
        a
    }
}

/// Division rounding toward zero, the rounding that the magnitude-based
/// executable routines below implement.  Unspecified for `b == 0`.
pub open spec fn tdiv(a: int, b: int) -> int {
    let q = abs_spec(a) / abs_spec(b);
    if (a < 0) != (b < 0) {
        -q
    } else {
        q
    }
}

/// Saturate a mathematical integer to the `i64` range.
pub open spec fn clip(a: int) -> int {
    if a < i64::MIN {
        i64::MIN as int
    } else if a > i64::MAX {
        i64::MAX as int
    } else {
        a
    }
}

/// Fixed-point sum: saturating `a + b`.
pub open spec fn fadd_spec(a: i64, b: i64) -> i64 {
    clip(a + b) as i64
}

/// Fixed-point difference: saturating `a - b`.
pub open spec fn fsub_spec(a: i64, b: i64) -> i64 {
    clip(a - b) as i64
}

/// Fixed-point negation: saturating `-a`.
pub open spec fn fneg_spec(a: i64) -> i64 {
    clip(-a) as i64
}

/// Fixed-point product: `a * b` rescaled, rounded toward zero, saturated.
pub open spec fn fmul_spec(a: i64, b: i64) -> i64 {
    clip(tdiv(a * b, SCALE as int)) as i64
}

/// Fixed-point quotient: `a / b` rescaled, rounded toward zero, saturated.
/// Unspecified for `b == 0`.
pub open spec fn fdiv_spec(a: i64, b: i64) -> i64 {
    clip(tdiv(a * SCALE, b as int)) as i64
}

/// `r` is the integer square root of `n`.
pub open spec fn is_isqrt(n: int, r: int) -> bool {
    0 <= r && r * r <= n && n < (r + 1) * (r + 1)
}

/// The integer square root, as a function.  Well defined for `n >= 0`
/// because the root exists and is unique (`lemma_isqrt_unique`).
pub open spec fn isqrt_spec(n: int) -> int {
    choose|r: int| is_isqrt(n, r)
}

/// Fixed-point square root of a nonnegative scalar: since raw values hold
/// `value * SCALE`, the root of `a` is the integer square root of
/// `a * SCALE`.
pub open spec fn fsqrt_spec(a: i64) -> i64 {
    isqrt_spec(a * SCALE) as i64
}

/// The magnitude of a product is the product of the magnitudes, and its
/// sign is determined by the operands' signs.
pub proof fn lemma_mul_abs(a: int, b: int)
    ensures
        abs_spec(a * b) == abs_spec(a) * abs_spec(b),
        (a * b == 0) <==> (a == 0 || b == 0),
        (a != 0 && b != 0) ==> ((a * b < 0) <==> ((a < 0) != (b < 0))),
{
    assert(abs_spec(a * b) == abs_spec(a) * abs_spec(b)
        && ((a * b == 0) <==> (a == 0 || b == 0))
        && ((a != 0 && b != 0) ==> ((a * b < 0) <==> ((a < 0) != (b < 0))))) by (nonlinear_arith);
}

/// Integer square roots are unique.
pub proof fn lemma_isqrt_unique(n: int, r1: int, r2: int)
    requires
        is_isqrt(n, r1),
        is_isqrt(n, r2),
    ensures
        r1 == r2,
{
    assert(r1 == r2) by (nonlinear_arith)
        requires
            0 <= r1 && r1 * r1 <= n && n < (r1 + 1) * (r1 + 1),
            0 <= r2 && r2 * r2 <= n && n < (r2 + 1) * (r2 + 1),
    ;
}

/// A fixed-point product is the exact product rescaled, up to less than
/// one grid step, as long as the exact product stays in range: scaled
/// back up by `SCALE`, the result sits within `SCALE` of `a * b`, and
/// truncation toward zero never grows the magnitude.
pub proof fn lemma_fmul_error(a: i64, b: i64)
    requires
        abs_spec((a as int) * (b as int)) <= 0x4000000000000000,
    ensures
        abs_spec((SCALE as int) * (fmul_spec(a, b) as int) - (a as int) * (b as int)) < SCALE,
        abs_spec(fmul_spec(a, b) as int) * (SCALE as int) <= abs_spec((a as int) * (b as int)),
{
    let p = (a as int) * (b as int);
    let ap = abs_spec(p);
    let q0 = ap / 65536;
    vstd::arithmetic::div_mod::lemma_fundamental_div_mod(ap, 65536);
    assert(0 <= ap % 65536 < 65536) by {
        vstd::arithmetic::div_mod::lemma_mod_bound(ap, 65536);
    }
    assert(q0 * 65536 <= ap) by (nonlinear_arith)
        requires
            ap == 65536 * q0 + ap % 65536,
            0 <= ap % 65536,
    ;
    assert(q0 <= 0x4000000000000000int / 65536) by {
        vstd::arithmetic::div_mod::lemma_div_is_ordered(ap, 0x4000000000000000int, 65536);
    }
}

/// Division toward zero is monotone in the numerator for a positive
/// denominator.
pub proof fn lemma_tdiv_monotone(x: int, y: int, b: int)
    requires
        x <= y,
        b > 0,
    ensures
        tdiv(x, b) <= tdiv(y, b),
{
    if x >= 0 {
        vstd::arithmetic::div_mod::lemma_div_is_ordered(x, y, b);
    } else if y < 0 {
        vstd::arithmetic::div_mod::lemma_div_is_ordered(-y, -x, b);
    } else {
        vstd::arithmetic::div_mod::lemma_div_pos_is_pos(-x, b);
        vstd::arithmetic::div_mod::lemma_div_pos_is_pos(y, b);
    }
}

/// Fixed-point division is monotone in the numerator for a positive
/// denominator.
pub proof fn lemma_fdiv_monotone(x: i64, y: i64, b: i64)
    requires
        x <= y,
        b > 0,
    ensures
        fdiv_spec(x, b) <= fdiv_spec(y, b),
{
    assert((x as int) * (SCALE as int) <= (y as int) * (SCALE as int)) by (nonlinear_arith)
        requires
            x <= y,
            SCALE == 65536,
    ;
    lemma_tdiv_monotone(x * SCALE, y * SCALE, b as int);
}

/// The fixed-point square root of a nonnegative scalar is nonnegative
/// (and fits the scalar range).
pub proof fn lemma_fsqrt_nonneg(a: i64)
    requires
        a >= 0,
    ensures
        fsqrt_spec(a) >= 0,
        fsqrt_spec(a) == isqrt_spec(a * SCALE),
{
    let n = (a as int) * (SCALE as int);
    assert(0 <= n < 1208925819614629174706176) by (nonlinear_arith)
        requires
            0 <= a < 0x8000000000000000,
            SCALE == 65536,
            n == (a as int) * (SCALE as int),
    ;
    lemma_isqrt_exists(n);
    let r = isqrt_spec(n);
    assert(r < 1099511627776) by (nonlinear_arith)
        requires
            0 <= r,
            r * r <= n,
            n < 1208925819614629174706176,
    ;
}

/// Every nonnegative integer has an integer square root, so `isqrt_spec`
/// denotes it.
pub proof fn lemma_isqrt_exists(n: int)
    requires
        n >= 0,
    ensures
        is_isqrt(n, isqrt_spec(n)),
    decreases n,
{
    if n == 0 {
        assert(is_isqrt(0, 0));
    } else {
        lemma_isqrt_exists(n - 1);
        let r = isqrt_spec(n - 1);
        assert(is_isqrt(n - 1, r));
        if (r + 1) * (r + 1) <= n {
            assert((r + 2) * (r + 2) > n) by (nonlinear_arith)
                requires
                    n - 1 < (r + 1) * (r + 1),
                    r >= 0,
            ;
            assert(is_isqrt(n, r + 1));
        } else {
            assert(is_isqrt(n, r));
        }
    }
    assert(exists|r: int| is_isqrt(n, r));
}

/// Magnitude of an `i64`, as a `u64` (covers `i64::MIN`).
fn mag(a: i64) -> (m: u64)
    ensures
        m == abs_spec(a as int),
{
    if a >= 0 {
        a as u64
    } else {
        (-(a as i128)) as u64
    }
}

/// Saturate `q` (or `-q` when `neg`) to the `i64` range.
fn sign_clip(neg: bool, q: u128) -> (r: i64)
    ensures
        r == clip(if neg { -(q as int) } else { q as int }),
{
    if neg {
        if q >= 9223372036854775808u128 {
            i64::MIN
        } else {
            -(q as i64)
        }
    } else {
        if q > i64::MAX as u128 {
            i64::MAX
        } else {
            q as i64
        }
    }
}

/// Saturating fixed-point addition.
pub fn fadd(a: i64, b: i64) -> (r: i64)
    ensures
        r == fadd_spec(a, b),
{
    let s: i128 = a as i128 + b as i128;
    if s > i64::MAX as i128 {
        i64::MAX
    } else if s < i64::MIN as i128 {
        i64::MIN
    } else {
        s as i64
    }
}

/// Saturating fixed-point subtraction.
pub fn fsub(a: i64, b: i64) -> (r: i64)
    ensures
        r == fsub_spec(a, b),
{
    let s: i128 = a as i128 - b as i128;
    if s > i64::MAX as i128 {
        i64::MAX
    } else if s < i64::MIN as i128 {
        i64::MIN
    } else {
        s as i64
    }
}

/// Saturating fixed-point negation.
pub fn fneg(a: i64) -> (r: i64)
    ensures
        r == fneg_spec(a),
{
    if a == i64::MIN {
        i64::MAX
    } else {
        -a
    }
}

/// Fixed-point multiplication: rescales by `SCALE`, rounds toward zero,
/// saturates.
pub fn fmul(a: i64, b: i64) -> (r: i64)
    ensures
        r == fmul_spec(a, b),
{
    let ma = mag(a) as u128;
    let mb = mag(b) as u128;
    proof {
        assert(ma * mb <= 0x8000000000000000 * 0x8000000000000000) by (nonlinear_arith)
            requires
                0 <= ma <= 0x8000000000000000,
                0 <= mb <= 0x8000000000000000,
        ;
    }
    let q: u128 = (ma * mb) / (SCALE as u128);
    let neg = (a < 0) != (b < 0);
    proof {
        lemma_mul_abs(a as int, b as int);
    }
    let r = sign_clip(neg && !(a == 0 || b == 0), q);
    r
}

/// Fixed-point division: rescales by `SCALE`, rounds toward zero,
/// saturates.
pub fn fdiv(a: i64, b: i64) -> (r: i64)
    requires
        b != 0,
    ensures
        r == fdiv_spec(a, b),
{
    let ma = mag(a) as u128 * (SCALE as u128);
    let mb = mag(b) as u128;
    let q: u128 = ma / mb;
    let neg = (a < 0) != (b < 0);
    proof {
        lemma_mul_abs(a as int, SCALE as int);
    }
    let r = sign_clip(neg && a != 0, q);
    r
}

/// Integer square root by bisection.
fn isqrt(n: u128) -> (r: u64)
    requires
        n < 1208925819614629174706176,  // 2^80
    ensures
        is_isqrt(n as int, r as int),
        r == isqrt_spec(n as int),
{
    let mut lo: u128 = 0;
    let mut hi: u128 = 1099511627776;  // 2^40
    proof {
        assert(hi * hi == 1208925819614629174706176) by (nonlinear_arith)
            requires
                hi == 1099511627776,
        ;
    }
    while hi - lo > 1
        invariant
            lo < hi,
            hi <= 1099511627776,
            lo * lo <= n,
            n < hi * hi,
        decreases hi - lo,
    {
        let mid = lo + (hi - lo) / 2;
        proof {
            assert(mid * mid <= 1099511627776 * 1099511627776) by (nonlinear_arith)
                requires
                    0 <= mid <= 1099511627776,
            ;
        }
        if mid * mid <= n {
            lo = mid;
        } else {
            hi = mid;
        }
    }
    proof {
        assert(is_isqrt(n as int, lo as int));
        let w = choose|r: int| is_isqrt(n as int, r);
        lemma_isqrt_unique(n as int, w, lo as int);
    }
    lo as u64
}

/// Fixed-point square root of a nonnegative scalar.
pub fn fsqrt(a: i64) -> (r: i64)
    requires
        a >= 0,
    ensures
        r == fsqrt_spec(a),
        is_isqrt(a * SCALE, r as int),
        0 <= r,
{
    proof {
        assert((a as int) * (SCALE as int) < 1208925819614629174706176) by (nonlinear_arith)
            requires
                0 <= a < 0x8000000000000000,
                SCALE == 65536,
        ;
    }
    let n: u128 = (a as u128) * (SCALE as u128);
    let r = isqrt(n);
    proof {
        assert((r as int) * (r as int) <= n < 1208925819614629174706176 ==> r < 1099511627776)
            by (nonlinear_arith);
    }
    r as i64
}

/// Saturating magnitude of a scalar.
pub open spec fn fabs_spec(a: i64) -> i64 {
    clip(abs_spec(a as int)) as i64
}

/// Saturating magnitude of a scalar.
pub fn fabs(a: i64) -> (r: i64)
    ensures
        r == fabs_spec(a),
        r >= 0,
{
    if a == i64::MIN {
        i64::MAX
    } else if a < 0 {
        -a
    } else {
        a
    }
}

/// The smaller of two scalars.
pub fn fmin(a: i64, b: i64) -> (r: i64)
    ensures
        r == if a < b { a } else { b },
{
    if a < b {
        a
    } else {
        b
    }
}

/// The larger of two scalars.
pub fn fmax(a: i64, b: i64) -> (r: i64)
    ensures
        r == if a > b { a } else { b },
{
    if a > b {
        a
    } else {
        b
    }
}

/// Clamp a scalar to `[lo, hi]`.
pub open spec fn fclamp_spec(a: i64, lo: i64, hi: i64) -> i64 {
    if a < lo {
        lo
    } else if a > hi {
        hi
    } else {
        a
    }
}

/// Clamp a scalar to `[lo, hi]`.
pub fn fclamp(a: i64, lo: i64, hi: i64) -> (r: i64)
    ensures
        r == fclamp_spec(a, lo, hi),
{
    if a < lo {
        lo
    } else if a > hi {
        hi
    } else {
        a
    }
}

/// Multiplying by one is exact.
pub proof fn lemma_fmul_one(a: i64)
    ensures
        fmul_spec(SCALE, a) == a,
        fmul_spec(a, SCALE) == a,
{
    lemma_mul_abs(a as int, SCALE as int);
    assert(abs_spec(a as int) * (SCALE as int) / (SCALE as int) == abs_spec(a as int))
        by (nonlinear_arith)
        requires
            SCALE == 65536,
    ;
    assert(a * SCALE == SCALE * a) by (nonlinear_arith);
}

/// Multiplying by zero is exactly zero.
pub proof fn lemma_fmul_zero(a: i64)
    ensures
        fmul_spec(0, a) == 0,
        fmul_spec(a, 0) == 0,
{
    assert(0 * a == 0) by (nonlinear_arith);
    assert(a * 0 == 0) by (nonlinear_arith);
}

/// A product of a scalar with itself is nonnegative.
pub proof fn lemma_fmul_square_nonneg(a: i64)
    ensures
        fmul_spec(a, a) >= 0,
{
    assert(a * a >= 0) by (nonlinear_arith);
    assert(abs_spec(a * a) / (SCALE as int) >= 0) by (nonlinear_arith)
        requires
            abs_spec(a * a) >= 0,
            SCALE == 65536,
    ;
}

} // verus!
