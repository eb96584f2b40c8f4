//! Fixed-point scalars: the engine's numeric abstraction.
//!
//! Every sample, parameter and coefficient is an `i64` holding the value
//! scaled by [`FX_ONE`]. Products are truncated toward zero, as
//! [`fx_mul_spec`] states, so every operation on the audio path has an exact
//! integer meaning and the engine is bit-for-bit reproducible.

use vstd::prelude::*;
use vstd::arithmetic::div_mod::{lemma_div_is_ordered, lemma_div_pos_is_pos, lemma_div_multiples_vanish};

verus! {

/// The fixed-point representation of 1.0.
pub const FX_ONE: i64 = 65536;

/// Magnitude bound for every value held on the audio path; small enough that
/// sums and scaled products of in-range values stay well inside `i64`.
pub const FX_MAX: i64 = 0x100_0000_0000;

/// A value that the audio path may hold.
pub open spec fn fx_in_range(v: int) -> bool {
    -(FX_MAX as int) <= v <= FX_MAX as int
}

/// The product of two fixed-point values: `a * b / FX_ONE`, truncated toward
/// zero (the quotient of the magnitudes, with the sign of the product).
pub open spec fn fx_mul_spec(a: int, b: int) -> int {
    if a * b >= 0 {
        (a * b) / (FX_ONE as int)
    } else {
        -((-(a * b)) / (FX_ONE as int))
    }
}

/// A quotient truncated toward zero: the magnitudes are divided and the sign
/// of the numerator is restored, as the engine's scalings compute it.
pub open spec fn trunc_div_spec(num: int, den: int) -> int {
    if num >= 0 {
        num / den
    } else {
        -((-num) / den)
    }
}

/// Clamping into the audio range, the engine's defensive guard at the points
/// where a derived value could leave it.
pub open spec fn fx_clamp_spec(v: int) -> int {
    if v > FX_MAX as int {
        FX_MAX as int
    } else if v < -(FX_MAX as int) {
        -(FX_MAX as int)
    } else {
        v
    }
}

/// Fixed-point multiplication.
pub fn fx_mul(a: i64, b: i64) -> (r: i64)
    requires
        -0x7fff_ffff_ffff_ffff <= fx_mul_spec(a as int, b as int) <= 0x7fff_ffff_ffff_ffff,
    ensures
        r as int == fx_mul_spec(a as int, b as int),
{
    let neg: bool = (a < 0) != (b < 0);
    let ma: u64 = if a < 0 {
        (-(a as i128)) as u64
    } else {
        a as u64
    };
    let mb: u64 = if b < 0 {
        (-(b as i128)) as u64
    } else {
        b as u64
    };
    proof {
        assert((ma as int) * (mb as int) <= (u64::MAX as int) * (u64::MAX as int))
            by (nonlinear_arith)
            requires 0 <= ma as int <= u64::MAX as int, 0 <= mb as int <= u64::MAX as int;
    }
    let p: u128 = (ma as u128) * (mb as u128);
    proof {
        assert(p == if (a as int) * (b as int) >= 0 { (a as int) * (b as int) } else { -((a as int) * (b as int)) })
            by (nonlinear_arith)
            requires
                ma == if a < 0 { -(a as int) } else { a as int },
                mb == if b < 0 { -(b as int) } else { b as int },
                p == ma as int * mb as int;
    }
    let q: u128 = p / (FX_ONE as u128);
    if neg {
        proof {
            if a as int * b as int > 0 {
                assert(!((a < 0) != (b < 0))) by (nonlinear_arith)
                    requires a as int * b as int > 0;
            }
            assert(a as int * b as int <= 0);
            if a as int * b as int == 0 {
                assert(fx_mul_spec(a as int, b as int) == 0);
            }
        }
        let r: i64 = -(q as i64);
        r
    } else {
        proof {
            if (a as int) * (b as int) < 0 {
                assert((a < 0) != (b < 0)) by (nonlinear_arith)
                    requires (a as int) * (b as int) < 0;
            }
            assert(a as int * b as int >= 0);
        }
        q as i64
    }
}

/// Clamps a value into the audio range.
pub fn fx_clamp(v: i64) -> (r: i64)
    ensures
        r as int == fx_clamp_spec(v as int),
        fx_in_range(r as int),
{
    if v > FX_MAX {
        FX_MAX
    } else if v < -FX_MAX {
        -FX_MAX
    } else {
        v
    }
}

/// Scaling by zero yields zero.
pub proof fn lemma_fx_mul_zero(a: int)
    ensures
        fx_mul_spec(a, 0) == 0,
        fx_mul_spec(0, a) == 0,
{
}

/// Scaling by `FX_ONE` is the identity.
pub proof fn lemma_fx_mul_one(a: int)
    ensures
        fx_mul_spec(a, FX_ONE as int) == a,
{
    let f = FX_ONE as int;
    if a >= 0 {
        lemma_div_multiples_vanish(a, f);
        assert(a * f == f * a) by (nonlinear_arith);
    } else {
        assert(a * f < 0) by (nonlinear_arith)
            requires a < 0, f > 0;
        assert(-(a * f) == (-a) * f) by (nonlinear_arith);
        lemma_div_multiples_vanish(-a, f);
        assert((-a) * f == f * (-a)) by (nonlinear_arith);
    }
}

/// Scaling by a factor in `[0, FX_ONE]` cannot grow a value's magnitude.
pub proof fn lemma_fx_mul_frac_bound(a: int, b: int, m: int)
    requires
        0 <= b <= FX_ONE as int,
        -m <= a <= m,
        0 <= m,
    ensures
        -m <= fx_mul_spec(a, b) <= m,
        a >= 0 ==> 0 <= fx_mul_spec(a, b) <= a,
        a < 0 ==> a <= fx_mul_spec(a, b) <= 0,
{
    let f = FX_ONE as int;
    if a >= 0 {
        assert(0 <= a * b <= a * f) by (nonlinear_arith)
            requires 0 <= a, 0 <= b <= f;
        lemma_div_pos_is_pos(a * b, f);
        lemma_div_is_ordered(a * b, a * f, f);
        lemma_div_multiples_vanish(a, f);
        assert(a * f == f * a) by (nonlinear_arith);
    } else {
        assert(0 <= -(a * b) <= (-a) * f) by (nonlinear_arith)
            requires a < 0, 0 <= b <= f;
        lemma_div_pos_is_pos(-(a * b), f);
        lemma_div_is_ordered(-(a * b), (-a) * f, f);
        lemma_div_multiples_vanish(-a, f);
        assert((-a) * f == f * (-a)) by (nonlinear_arith);
        if a * b >= 0 {
            assert(a * b == 0) by (nonlinear_arith)
                requires a < 0, b >= 0, a * b >= 0;
        }
    }
}

/// Scaling a bounded value by a signed fraction in `[-FX_ONE, FX_ONE]` keeps
/// it within its bound.
pub proof fn lemma_fx_mul_signed_bound(a: int, b: int, m: int)
    requires
        -(FX_ONE as int) <= a <= FX_ONE as int,
        -m <= b <= m,
        0 <= m,
    ensures
        -m <= fx_mul_spec(a, b) <= m,
        -m <= fx_mul_spec(b, a) <= m,
{
    let f = FX_ONE as int;
    let p = a * b;
    assert(-(m * f) <= p <= m * f) by (nonlinear_arith)
        requires -f <= a <= f, -m <= b <= m, 0 <= m, f >= 1, p == a * b;
    if p >= 0 {
        lemma_div_pos_is_pos(p, f);
        lemma_div_is_ordered(p, m * f, f);
        lemma_div_multiples_vanish(m, f);
        assert(m * f == f * m) by (nonlinear_arith);
    } else {
        lemma_div_pos_is_pos(-p, f);
        lemma_div_is_ordered(-p, m * f, f);
        lemma_div_multiples_vanish(m, f);
        assert(m * f == f * m) by (nonlinear_arith);
    }
    assert(b * a == p) by (nonlinear_arith)
        requires p == a * b;
}

/// The scaled product of two values that are not negative is not negative.
pub proof fn lemma_fx_mul_nonneg(a: int, b: int)
    requires
        0 <= a,
        0 <= b,
    ensures
        0 <= fx_mul_spec(a, b),
{
    let f = FX_ONE as int;
    assert(a * b >= 0) by (nonlinear_arith)
        requires a >= 0, b >= 0;
    lemma_div_pos_is_pos(a * b, f);
}

} // verus!
