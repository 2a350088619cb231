//! Fixed-point arithmetic helpers: truncating and floor division by a
//! positive divisor, widening multiplication, and an integer square root.

use vstd::prelude::*;
use vstd::arithmetic::div_mod::{
    lemma_fundamental_div_mod, lemma_fundamental_div_mod_converse,
};

verus! {

/// Division of `a` by a positive `b`, rounded toward zero.
pub open spec fn tdiv(a: int, b: int) -> int {
    if a >= 0 {
        a / b
    } else {
        -((-a) / b)
    }
}

/// Division of `a` by a positive `b`, rounded toward negative infinity.
/// For `b > 0` this is the Euclidean `/` of specification arithmetic.
pub open spec fn fdiv(a: int, b: int) -> int {
    a / b
}

/// Division of `a` by a positive `b`, rounded toward positive infinity.
pub open spec fn cdiv(a: int, b: int) -> int {
    -((-a) / b)
}

/// The absolute value of an integer.
pub open spec fn abs(a: int) -> int {
    if a >= 0 {
        a
    } else {
        -a
    }
}

/// A product of values bounded in magnitude is bounded by the product of
/// the bounds.
pub proof fn lemma_mul_bound(a: int, b: int, bound_a: int, bound_b: int)
    by (nonlinear_arith)
    requires
        abs(a) <= bound_a,
        abs(b) <= bound_b,
    ensures
        abs(a * b) <= bound_a * bound_b,
        a * b == b * a,
{
}

/// Widening multiplication: the mathematical product of two `i64` values
/// always fits in an `i128`.
pub fn mul_wide(a: i64, b: i64) -> (r: i128)
    ensures
        r == a * b,
{
    proof {
        lemma_mul_bound(a as int, b as int, 0x8000_0000_0000_0000, 0x8000_0000_0000_0000);
    }
    (a as i128) * (b as i128)
}

/// Division of `a` by a positive `b`, rounded toward zero.
pub fn div_trunc(a: i64, b: i64) -> (r: i64)
    requires
        b > 0,
        a > i64::MIN,
    ensures
        r == tdiv(a as int, b as int),
{
    if a >= 0 {
        ((a as u64) / (b as u64)) as i64
    } else {
        let m: u64 = (-a) as u64;
        let q: u64 = m / (b as u64);
        -(q as i64)
    }
}

/// Division of `a` by a positive `b`, rounded toward negative infinity.
pub fn div_floor(a: i64, b: i64) -> (r: i64)
    requires
        b > 0,
        a > i64::MIN,
    ensures
        r == fdiv(a as int, b as int),
{
    if a >= 0 {
        ((a as u64) / (b as u64)) as i64
    } else {
        let m: u64 = (-a) as u64;
        let q: u64 = m / (b as u64);
        let rem: u64 = m % (b as u64);
        proof {
            lemma_fundamental_div_mod(m as int, b as int);
            if rem == 0 {
                assert(a == -(q as int) * b + 0) by (nonlinear_arith)
                    requires
                        a == -(m as int),
                        m == q * b + rem,
                        rem == 0,
                {
                }
                lemma_fundamental_div_mod_converse(a as int, b as int, -(q as int), 0);
            } else {
                assert(a == (-(q as int) - 1) * b + (b - rem)) by (nonlinear_arith)
                    requires
                        a == -(m as int),
                        m == q * b + rem,
                {
                }
                lemma_fundamental_div_mod_converse(
                    a as int,
                    b as int,
                    -(q as int) - 1,
                    b - rem,
                );
            }
        }
        if rem == 0 {
            -(q as i64)
        } else {
            -(q as i64) - 1
        }
    }
}

/// Division of `a` by a positive `b`, rounded toward positive infinity.
pub fn div_ceil(a: i64, b: i64) -> (r: i64)
    requires
        b > 0,
        i64::MIN < a < i64::MAX,
    ensures
        r == cdiv(a as int, b as int),
{
    if a <= 0 {
        let m: u64 = (-a) as u64;
        let q: u64 = m / (b as u64);
        proof {
            lemma_fundamental_div_mod(m as int, b as int);
            assert(q <= m) by (nonlinear_arith)
                requires
                    m == b * q + (m as int) % (b as int),
                    (m as int) % (b as int) >= 0,
                    b >= 1,
                    q >= 0,
            {
            }
        }
        -(q as i64)
    } else {
        let q: u64 = (a as u64) / (b as u64);
        let rem: u64 = (a as u64) % (b as u64);
        proof {
            lemma_fundamental_div_mod(a as int, b as int);
            if rem != 0 {
                assert(-(a as int) == (-(q as int) - 1) * b + (b - rem)) by (nonlinear_arith)
                    requires
                        a == b * q + rem,
                {
                }
                lemma_fundamental_div_mod_converse(
                    -(a as int),
                    b as int,
                    -(q as int) - 1,
                    b - rem,
                );
            } else {
                assert(-(a as int) == -(q as int) * b + 0) by (nonlinear_arith)
                    requires
                        a == b * q + rem,
                        rem == 0,
                {
                }
                lemma_fundamental_div_mod_converse(-(a as int), b as int, -(q as int), 0);
            }
        }
        if rem == 0 {
            q as i64
        } else {
            (q as i64) + 1
        }
    }
}

/// The integer square root: the greatest integer whose square does not
/// exceed `n`.
pub open spec fn sqrt_spec(n: nat) -> nat
    decreases n,
{
    if n == 0 {
        0
    } else {
        let s = sqrt_spec((n - 1) as nat);
        if (s + 1) * (s + 1) <= n {
            s + 1
        } else {
            s
        }
    }
}

/// `r` is the integer square root of `n`: it squares to at most `n`, and
/// the next integer squares to more than `n`.
pub open spec fn is_sqrt(n: int, r: int) -> bool {
    0 <= r && r * r <= n && n < (r + 1) * (r + 1)
}

/// `sqrt_spec(n)` squares to at most `n`, and the next integer squares to
/// more than `n`.
pub proof fn lemma_sqrt_spec_bracket(n: nat)
    ensures
        is_sqrt(n as int, sqrt_spec(n) as int),
    decreases n,
{
    if n > 0 {
        lemma_sqrt_spec_bracket((n - 1) as nat);
        let s = sqrt_spec((n - 1) as nat);
        assert(s * s <= n - 1);
        assert(n - 1 < (s + 1) * (s + 1));
        if (s + 1) * (s + 1) <= n {
            assert(sqrt_spec(n) == s + 1);
            assert((s + 1) * (s + 1) < (s + 2) * (s + 2)) by (nonlinear_arith)
                requires
                    s >= 0,
            {
            }
        } else {
            assert(sqrt_spec(n) == s);
        }
    } else {
        assert(sqrt_spec(n) == 0);
        assert(is_sqrt(0, 0)) by (nonlinear_arith);
    }
}

/// Any integer bracketed like `sqrt_spec(n)` is `sqrt_spec(n)`.
pub proof fn lemma_sqrt_unique(n: nat, r: nat)
    requires
        is_sqrt(n as int, r as int),
    ensures
        r == sqrt_spec(n),
{
    lemma_sqrt_spec_bracket(n);
    let s = sqrt_spec(n);
    if r < s {
        lemma_mul_bound(r + 1 as int, r + 1 as int, s as int, s as int);
        assert(s * s <= n);
        assert(false);
    } else if s < r {
        lemma_mul_bound(s + 1 as int, s + 1 as int, r as int, r as int);
        assert(r * r <= n);
        assert(false);
    }
}

/// Binary-search integer square root over the full `u128` range.
pub fn isqrt(n: u128) -> (r: u128)
    ensures
        r == sqrt_spec(n as nat),
        is_sqrt(n as int, r as int),
{
    let mut lo: u128 = 0;
    let mut hi: u128 = 0x1_0000_0000_0000_0000;
    while lo + 1 < hi
        invariant
            lo < hi <= 0x1_0000_0000_0000_0000,
            lo * lo <= n,
            hi == 0x1_0000_0000_0000_0000 || n < hi * hi,
        decreases hi - lo,
    {
        let mid: u128 = lo + (hi - lo) / 2;
        proof {
            lemma_mul_bound(mid as int, mid as int, 0xffff_ffff_ffff_ffff, 0xffff_ffff_ffff_ffff);
        }
        if mid * mid <= n {
            lo = mid;
        } else {
            hi = mid;
        }
    }
    proof {
        if hi == 0x1_0000_0000_0000_0000 {
            assert(lo == 0xffff_ffff_ffff_ffff);
            assert(n < hi * hi) by (nonlinear_arith)
                requires
                    n <= u128::MAX,
                    hi == 0x1_0000_0000_0000_0000,
            {
            }
        }
        lemma_sqrt_unique(n as nat, lo as nat);
        lemma_sqrt_spec_bracket(n as nat);
    }
    lo
}

} // verus!
