//! The pitch-shift calculator.
//!
//! Five independent contributions — octaves, semitones, cents, pitch bend and
//! frequency modulation — are stored in fixed-point semitone units and
//! combined additively before a single exponentiation: the frequency
//! multiplier is two to the power of the total shift in octaves. The
//! multiplier is exact at whole octaves, monotonic in the total shift (each
//! octave is crossed by linear interpolation between the neighbouring powers
//! of two), clamped to twenty-four octaves either way, and always strictly
//! positive.

use vstd::prelude::*;
use vstd::arithmetic::div_mod::{
    lemma_div_by_self, lemma_div_is_ordered, lemma_div_of0, lemma_div_pos_is_pos,
    lemma_basic_div, lemma_div_multiples_vanish, lemma_fundamental_div_mod,
    lemma_fundamental_div_mod_converse, lemma_mod_division_less_than_divisor,
    lemma_mod_multiples_basic, lemma_mod_self_0,
    lemma_multiply_divide_lt,
};
use vstd::arithmetic::power2::{lemma2_to64, lemma2_to64_rest, lemma_pow2_adds, lemma_pow2_pos, lemma_pow2_strictly_increases, pow2};
use crate::fixed::FX_ONE;

verus! {

/// One octave in fixed-point semitone units.
pub const OCTAVE_FX: i64 = 12 * FX_ONE;

/// Magnitude bound for each stored contribution: sixteen octaves of shift.
pub const SHIFT_LIMIT: i64 = 192 * FX_ONE;

/// The multiplier saturates at this many octaves of total shift either way.
pub const OCTAVE_CLAMP: i64 = 24;

/// Calculates the pitch shift multiplier from the following contributions:
/// a number of octaves, a number of semitones, a number of cents of semitone,
/// the pitch bend and the frequency modulation. All are held pre-scaled to
/// fixed-point semitone units.
pub struct OscPitchShift {
    /// shift in semitones for the number of octaves
    pub octaves_shift: i64,
    /// shift in semitones
    pub semitones_shift: i64,
    /// shift in semitones for the cents
    pub cents_shift: i64,
    /// pitch bend
    pub pitch_bend: i64,
    /// frequency modulation (exponential)
    pub modulation: i64,
}

/// Two to the power of `n` octaves, in fixed point: `pow2(n + 16)` for
/// `n >= -16` (since `FX_ONE` is two to the sixteenth), floored at one so
/// the multiplier can never collapse to zero.
pub open spec fn pow2_fx_spec(n: int) -> int {
    if n >= -16 {
        pow2((n + 16) as nat) as int
    } else {
        1
    }
}

/// The frequency multiplier for a total shift of `total` fixed-point
/// semitones: the shift is clamped to [`OCTAVE_CLAMP`] octaves either way and
/// split into whole octaves `n` and a remainder `r`; the result is
/// `2^n` scaled up linearly towards `2^(n+1)` by `r`'s fraction of an octave.
pub open spec fn multiplier_spec(total: int) -> int {
    let octave = OCTAVE_FX as int;
    let lo = -(OCTAVE_CLAMP as int) * octave;
    let hi = (OCTAVE_CLAMP as int) * octave;
    let tc = if total < lo {
        lo
    } else if total > hi {
        hi
    } else {
        total
    };
    let n = tc / octave;
    let r = tc % octave;
    let base = pow2_fx_spec(n);
    base + (base * r) / octave
}

impl Default for OscPitchShift {
    /// A shift of nothing: every contribution at zero.
    fn default() -> (r: OscPitchShift)
        ensures
            r.octaves_shift == 0,
            r.semitones_shift == 0,
            r.cents_shift == 0,
            r.pitch_bend == 0,
            r.modulation == 0,
            r.wf(),
    {
        OscPitchShift {
            octaves_shift: 0,
            semitones_shift: 0,
            cents_shift: 0,
            pitch_bend: 0,
            modulation: 0,
        }
    }
}

impl OscPitchShift {
    pub open spec fn wf(self) -> bool {
        &&& -SHIFT_LIMIT <= self.octaves_shift <= SHIFT_LIMIT
        &&& -SHIFT_LIMIT <= self.semitones_shift <= SHIFT_LIMIT
        &&& -SHIFT_LIMIT <= self.cents_shift <= SHIFT_LIMIT
        &&& -SHIFT_LIMIT <= self.pitch_bend <= SHIFT_LIMIT
        &&& -SHIFT_LIMIT <= self.modulation <= SHIFT_LIMIT
    }

    /// The combined shift, in fixed-point semitones.
    pub open spec fn total_shift_spec(self) -> int {
        self.octaves_shift as int + self.semitones_shift as int + self.cents_shift as int
            + self.pitch_bend as int + self.modulation as int
    }

    /// Set the shift for the octaves, given in fixed-point octaves.
    pub fn set_octaves(&mut self, octaves: i64)
        requires
            old(self).wf(),
            -16 * FX_ONE <= octaves <= 16 * FX_ONE,
        ensures
            *final(self) == (OscPitchShift { octaves_shift: ((12 * octaves) as i64), ..*old(self) }),
            final(self).wf(),
    {
        self.octaves_shift = octaves * 12;
    }

    /// Set the semitones shift, given in fixed-point semitones.
    pub fn set_semitones(&mut self, semitones: i64)
        requires
            old(self).wf(),
            -SHIFT_LIMIT <= semitones <= SHIFT_LIMIT,
        ensures
            *final(self) == (OscPitchShift { semitones_shift: semitones, ..*old(self) }),
            final(self).wf(),
    {
        self.semitones_shift = semitones;
    }

    /// Set the shift for the cents, given in fixed-point cents: a hundredth
    /// of a semitone each, truncated toward zero.
    pub fn set_cents(&mut self, cents: i64)
        requires
            old(self).wf(),
            -100 * SHIFT_LIMIT <= cents <= 100 * SHIFT_LIMIT,
        ensures
            final(self).cents_shift as int == if cents >= 0 {
                cents as int / 100
            } else {
                -((-(cents as int)) / 100)
            },
            final(self).octaves_shift == old(self).octaves_shift,
            final(self).semitones_shift == old(self).semitones_shift,
            final(self).pitch_bend == old(self).pitch_bend,
            final(self).modulation == old(self).modulation,
            final(self).wf(),
    {
        let shift: i64 = if cents >= 0 {
            proof {
                lemma_div_is_ordered(cents as int, 100 * SHIFT_LIMIT as int, 100);
                lemma_div_pos_is_pos(cents as int, 100);
                lemma_div_multiples_vanish(SHIFT_LIMIT as int, 100);
            }
            ((cents as u64) / 100) as i64
        } else {
            proof {
                lemma_div_is_ordered(-(cents as int), 100 * SHIFT_LIMIT as int, 100);
                lemma_div_pos_is_pos(-(cents as int), 100);
                lemma_div_multiples_vanish(SHIFT_LIMIT as int, 100);
            }
            -((((-(cents as i128)) as u64) / 100) as i64)
        };
        self.cents_shift = shift;
    }

    /// Set the pitch bend, given in fixed-point semitones.
    pub fn set_pitch_bend(&mut self, pitch_bend: i64)
        requires
            old(self).wf(),
            -SHIFT_LIMIT <= pitch_bend <= SHIFT_LIMIT,
        ensures
            *final(self) == (OscPitchShift { pitch_bend, ..*old(self) }),
            final(self).wf(),
    {
        self.pitch_bend = pitch_bend;
    }

    /// Set the frequency modulation, given in fixed-point semitones.
    pub fn set_modulation(&mut self, modulation: i64)
        requires
            old(self).wf(),
            -SHIFT_LIMIT <= modulation <= SHIFT_LIMIT,
        ensures
            *final(self) == (OscPitchShift { modulation, ..*old(self) }),
            final(self).wf(),
    {
        self.modulation = modulation;
    }

    /// The multiplier for the configured pitch shift: recomputed fresh from
    /// the stored contributions on every call, never cached.
    pub fn multiplier(&self) -> (r: i64)
        requires
            self.wf(),
        ensures
            r as int == multiplier_spec(self.total_shift_spec()),
            1 <= r,
    {
        let total = self.octaves_shift + self.semitones_shift + self.cents_shift + self.pitch_bend
            + self.modulation;
        let lo = -OCTAVE_CLAMP * OCTAVE_FX;
        let hi = OCTAVE_CLAMP * OCTAVE_FX;
        let tc: i64 = if total < lo {
            lo
        } else if total > hi {
            hi
        } else {
            total
        };
        let octave = OCTAVE_FX as u64;
        let (n, rem): (i64, u64) = if tc >= 0 {
            ((tc as u64 / octave) as i64, tc as u64 % octave)
        } else {
            let m = (-(tc as i128)) as u64;
            let q = m / octave;
            let r0 = m % octave;
            proof {
                lemma_fundamental_div_mod(m as int, octave as int);
            }
            if r0 == 0 {
                proof {
                    lemma_fundamental_div_mod_converse(tc as int, octave as int, -(q as int), 0);
                }
                (-(q as i64), 0u64)
            } else {
                proof {
                    lemma_fundamental_div_mod_converse(
                        tc as int,
                        octave as int,
                        -(q as int) - 1,
                        octave as int - r0 as int,
                    );
                }
                (-(q as i64) - 1, octave - r0)
            }
        };
        proof {
            assert(n == (tc as int) / (octave as int));
            assert(rem == (tc as int) % (octave as int));
            lemma_div_is_ordered(-(OCTAVE_CLAMP as int) * (octave as int), tc as int, octave as int);
            lemma_div_is_ordered(tc as int, (OCTAVE_CLAMP as int) * (octave as int), octave as int);
            lemma_div_multiples_vanish(-(OCTAVE_CLAMP as int), octave as int);
            lemma_div_multiples_vanish(OCTAVE_CLAMP as int, octave as int);
            assert(-24 <= n <= 24);
        }
        let e: u32 = if n >= -16 {
            (n + 16) as u32
        } else {
            0
        };
        let mut base: u64 = 1;
        let mut k: u32 = 0;
        proof {
            lemma2_to64();
            lemma2_to64_rest();
            if e < 40 {
                lemma_pow2_strictly_increases(e as nat, 40);
            }
        }
        while k < e
            invariant
                k <= e,
                e <= 40,
                base == pow2(k as nat),
                pow2(e as nat) <= 0x100_0000_0000,
            decreases e - k,
        {
            proof {
                lemma2_to64();
                lemma2_to64_rest();
                lemma_pow2_adds(k as nat, 1);
                if k + 1 < e {
                    lemma_pow2_strictly_increases((k + 1) as nat, e as nat);
                }
            }
            base = base * 2;
            k = k + 1;
        }
        proof {
            lemma_pow2_pos(e as nat);
        }
        if n < -16 {
            proof {
                lemma_basic_div(rem as int, octave as int);
                assert(1 * (rem as int) == rem as int);
            }
            1i64
        } else {
            proof {
                assert(base == pow2_fx_spec(n as int));
                assert((base as int) * (rem as int) < (base as int) * (octave as int))
                    by (nonlinear_arith)
                    requires base as int >= 1, 0 <= (rem as int) < octave as int;
                assert((base as int) * (octave as int) <= 0x100_0000_0000 * (octave as int))
                    by (nonlinear_arith)
                    requires 0 < base as int <= 0x100_0000_0000, octave as int > 0;
                lemma_multiply_divide_lt((base as int) * (rem as int), base as int, octave as int);
                lemma_div_pos_is_pos((base as int) * (rem as int), octave as int);
                assert((base as int) * (rem as int) >= 0) by (nonlinear_arith)
                    requires base as int >= 0, rem as int >= 0;
            }
            let interp: u64 = (base * rem) / octave;
            base as i64 + interp as i64
        }
    }
}

/// With every contribution at zero the multiplier is exactly one.
pub proof fn lemma_multiplier_at_zero()
    ensures
        multiplier_spec(0) == FX_ONE,
{
    let octave = OCTAVE_FX as int;
    lemma_div_of0(octave);
    lemma2_to64();
    assert(0int % octave == 0) by {
        lemma_mod_division_less_than_divisor(0, octave);
        lemma_fundamental_div_mod(0, octave);
    }
    assert((pow2(16) as int * 0) / octave == 0) by {
        lemma_div_of0(octave);
    }
}

/// A shift of exactly one octave — whether set as one octave or as twelve
/// semitones — doubles the frequency: the multiplier at a total of twelve
/// semitones is exactly two.
pub proof fn lemma_multiplier_one_octave()
    ensures
        multiplier_spec(12 * FX_ONE as int) == 2 * FX_ONE,
{
    let octave = OCTAVE_FX as int;
    lemma_div_by_self(octave);
    lemma_mod_self_0(octave);
    lemma2_to64();
    assert((pow2(17) as int * 0) / octave == 0) by {
        lemma_div_of0(octave);
    }
}

/// The multiplier is always strictly positive, whatever the total shift: the
/// guard at the point of derivation never lets it collapse to zero.
pub proof fn lemma_multiplier_positive(total: int)
    ensures
        multiplier_spec(total) >= 1,
{
    let octave = OCTAVE_FX as int;
    let lo = -(OCTAVE_CLAMP as int) * octave;
    let hi = (OCTAVE_CLAMP as int) * octave;
    let tc = if total < lo {
        lo
    } else if total > hi {
        hi
    } else {
        total
    };
    let n = tc / octave;
    let r = tc % octave;
    let base = pow2_fx_spec(n);
    if n >= -16 {
        lemma_pow2_pos((n + 16) as nat);
    }
    lemma_mod_division_less_than_divisor(tc, octave);
    assert(base * r >= 0) by (nonlinear_arith)
        requires base >= 1, r >= 0;
    lemma_div_pos_is_pos(base * r, octave);
}

/// The interpolation term stays below the base: one octave's crossfade never
/// reaches the next power of two.
proof fn lemma_interp_below_base(base: int, r: int)
    requires
        base >= 1,
        0 <= r < OCTAVE_FX as int,
    ensures
        0 <= (base * r) / (OCTAVE_FX as int) <= base - 1,
{
    let octave = OCTAVE_FX as int;
    assert(base * r >= 0) by (nonlinear_arith)
        requires base >= 1, r >= 0;
    lemma_div_pos_is_pos(base * r, octave);
    assert(base * r < octave * base) by (nonlinear_arith)
        requires base >= 1, 0 <= r < octave;
    lemma_multiply_divide_lt(base * r, octave, base);
}

/// At a whole number of octaves the multiplier is exactly the corresponding
/// power of two: no interpolation error at the octave marks.
pub proof fn lemma_multiplier_octaves(k: int)
    requires
        -24 <= k <= 24,
    ensures
        multiplier_spec(k * OCTAVE_FX as int) == pow2_fx_spec(k),
{
    let octave = OCTAVE_FX as int;
    assert(OCTAVE_CLAMP == 24);
    assert(FX_ONE == 65536);
    assert(OCTAVE_FX == 786432);
    assert(-24 * octave <= k * octave <= 24 * octave) by (nonlinear_arith)
        requires -24 <= k <= 24, octave > 0;
    assert(k * octave == octave * k) by (nonlinear_arith);
    lemma_div_multiples_vanish(k, octave);
    lemma_mod_multiples_basic(k, octave);
    assert(pow2_fx_spec(k) * 0 == 0) by (nonlinear_arith);
    lemma_div_of0(octave);
}

/// The multiplier never decreases when the total shift grows; since the five
/// contributions combine additively, it is monotonic in each contribution
/// independently. (With the discrete fixed-point representation, totals
/// closer together than the representation's step can share a multiplier, so
/// monotonicity holds in the weak sense.)
pub proof fn lemma_multiplier_monotonic(t1: int, t2: int)
    requires
        t1 <= t2,
    ensures
        multiplier_spec(t1) <= multiplier_spec(t2),
{
    let octave = OCTAVE_FX as int;
    let lo = -(OCTAVE_CLAMP as int) * octave;
    let hi = (OCTAVE_CLAMP as int) * octave;
    assert(OCTAVE_CLAMP == 24);
    assert(FX_ONE == 65536);
    assert(OCTAVE_FX == 786432);
    assert(lo == -18874368 && hi == 18874368);
    let tc1 = if t1 < lo { lo } else if t1 > hi { hi } else { t1 };
    let tc2 = if t2 < lo { lo } else if t2 > hi { hi } else { t2 };
    assert(tc1 <= tc2);
    let n1 = tc1 / octave;
    let n2 = tc2 / octave;
    let r1 = tc1 % octave;
    let r2 = tc2 % octave;
    let base1 = pow2_fx_spec(n1);
    let base2 = pow2_fx_spec(n2);
    lemma_div_is_ordered(tc1, tc2, octave);
    lemma_mod_division_less_than_divisor(tc1, octave);
    lemma_mod_division_less_than_divisor(tc2, octave);
    if n1 >= -16 {
        lemma_pow2_pos((n1 + 16) as nat);
    }
    if n2 >= -16 {
        lemma_pow2_pos((n2 + 16) as nat);
    }
    lemma_interp_below_base(base1, r1);
    lemma_interp_below_base(base2, r2);
    if n1 == n2 {
        lemma_fundamental_div_mod(tc1, octave);
        lemma_fundamental_div_mod(tc2, octave);
        assert(r1 <= r2);
        assert(base1 * r1 <= base1 * r2) by (nonlinear_arith)
            requires base1 >= 1, r1 <= r2;
        lemma_div_is_ordered(base1 * r1, base1 * r2, octave);
    } else {
        assert(n1 < n2);
        if n2 <= -17 {
            assert(base1 == 1 && base2 == 1);
        } else if n1 < -16 {
            lemma_pow2_pos((n2 + 16) as nat);
        } else {
            lemma_pow2_adds((n1 + 16) as nat, 1);
            lemma2_to64();
            if n1 + 17 < n2 + 16 {
                lemma_pow2_strictly_increases((n1 + 17) as nat, (n2 + 16) as nat);
            }
            assert(2 * base1 <= base2);
        }
    }
}

/// Monotonicity contribution by contribution: growing any one of the five
/// stored shifts while the others stay put cannot lower the multiplier.
pub proof fn lemma_multiplier_monotonic_in_each(s1: OscPitchShift, s2: OscPitchShift)
    requires
        s1.octaves_shift <= s2.octaves_shift,
        s1.semitones_shift <= s2.semitones_shift,
        s1.cents_shift <= s2.cents_shift,
        s1.pitch_bend <= s2.pitch_bend,
        s1.modulation <= s2.modulation,
    ensures
        multiplier_spec(s1.total_shift_spec()) <= multiplier_spec(s2.total_shift_spec()),
{
    lemma_multiplier_monotonic(s1.total_shift_spec(), s2.total_shift_spec());
}

} // verus!
