//! Oscillators: periodic waveforms driven by a wrapping phase accumulator.
//!
//! The phase runs in `[0, PHASE_ONE)` and advances by a per-sample increment
//! derived from the frequency; it wraps at the period boundary. The waveform
//! shapes are a closed tagged set dispatched by a single match — shape
//! selection reaches the engine as an opaque index. Every waveform value is
//! exact fixed-point arithmetic in `[-FX_ONE, FX_ONE]`; the sine is the
//! standard piecewise-parabolic approximation, zero exactly at the half-period
//! boundaries so the fundamental frequency is carried by the phase alone.

use vstd::prelude::*;
use vstd::arithmetic::div_mod::{
    lemma_div_is_ordered, lemma_div_multiples_vanish, lemma_div_pos_is_pos,
    lemma_multiply_divide_lt,
};
use crate::fixed::{FX_ONE, FX_MAX, fx_mul, fx_mul_spec};
use crate::pitch::{
    multiplier_spec, OscPitchShift, OCTAVE_FX, lemma_multiplier_monotonic,
    lemma_multiplier_octaves, lemma_multiplier_positive,
};

verus! {

/// One full period of phase.
pub const PHASE_ONE: u64 = 0x1_0000_0000;

/// Half a period of phase.
pub const PHASE_HALF: u64 = 0x8000_0000;

/// Fixed-point frequency of the A above middle C, the tuning reference.
pub const A4_FREQ: i64 = 440 * FX_ONE;

/// The note number of the A above middle C.
pub const A4_PITCH: u8 = 69;

/// The closed set of oscillator shapes.
#[derive(Clone, Copy, PartialEq, Eq, Structural, Debug)]
pub enum Waveform {
    Sine,
    Triangle,
    Saw,
    Square,
}

/// The value of a waveform at a phase in `[0, PHASE_ONE)`, in fixed point.
pub open spec fn waveform_value_spec(shape: Waveform, phase: int) -> int {
    let one = PHASE_ONE as int;
    let half = PHASE_HALF as int;
    let f = FX_ONE as int;
    match shape {
        Waveform::Square => if phase < half {
            f
        } else {
            -f
        },
        Waveform::Saw => (2 * f * phase) / one - f,
        Waveform::Triangle => if phase < half {
            (4 * f * phase) / one - f
        } else {
            3 * f - (4 * f * phase) / one
        },
        Waveform::Sine => if phase < half {
            (16 * phase * (half - phase) * f) / (one * one)
        } else {
            -((16 * (phase - half) * (one - phase) * f) / (one * one))
        },
    }
}

/// A scaled phase ratio stays below its scale: `(c * phase) / PHASE_ONE < c`
/// for any phase inside the period.
proof fn lemma_phase_ratio_bounds(c: int, phase: int, lo: int)
    requires
        1 <= c,
        0 <= lo <= phase < PHASE_ONE as int,
    ensures
        0 <= (c * phase) / (PHASE_ONE as int),
        (c * phase) / (PHASE_ONE as int) < c,
        (c * lo) / (PHASE_ONE as int) <= (c * phase) / (PHASE_ONE as int),
{
    let one = PHASE_ONE as int;
    assert(0 <= c * lo <= c * phase) by (nonlinear_arith)
        requires 0 <= lo <= phase, c >= 1;
    lemma_div_pos_is_pos(c * phase, one);
    lemma_div_is_ordered(c * lo, c * phase, one);
    assert(c * phase < one * c) by (nonlinear_arith)
        requires phase < one, c >= 1, one >= 1;
    lemma_multiply_divide_lt(c * phase, one, c);
}

/// Every waveform value lies in the audio range `[-FX_ONE, FX_ONE]`.
pub proof fn lemma_waveform_value_range(shape: Waveform, phase: int)
    requires
        0 <= phase < PHASE_ONE as int,
    ensures
        -(FX_ONE as int) <= waveform_value_spec(shape, phase) <= FX_ONE as int,
{
    let one = PHASE_ONE as int;
    let half = PHASE_HALF as int;
    let f = FX_ONE as int;
    match shape {
        Waveform::Square => {},
        Waveform::Saw => {
            lemma_phase_ratio_bounds(2 * f, phase, 0);
        },
        Waveform::Triangle => {
            lemma_phase_ratio_bounds(4 * f, phase, 0);
            if phase >= half {
                lemma_phase_ratio_bounds(4 * f, phase, half);
                assert((4 * f) * half == one * (2 * f)) by (nonlinear_arith)
                    requires one == 2 * half;
                lemma_div_multiples_vanish(2 * f, one);
            }
        },
        Waveform::Sine => {
            if phase < half {
                assert(0 <= 16 * phase * (half - phase) * f <= (one * one) * f)
                    by (nonlinear_arith)
                    requires 0 <= phase < half, one == 2 * half, f >= 1;
                lemma_div_pos_is_pos(16 * phase * (half - phase) * f, one * one);
                lemma_div_is_ordered(16 * phase * (half - phase) * f, (one * one) * f, one * one);
                lemma_div_multiples_vanish(f, one * one);
            } else {
                assert(0 <= 16 * (phase - half) * (one - phase) * f <= (one * one) * f)
                    by (nonlinear_arith)
                    requires half <= phase < one, one == 2 * half, f >= 1;
                lemma_div_pos_is_pos(16 * (phase - half) * (one - phase) * f, one * one);
                lemma_div_is_ordered(
                    16 * (phase - half) * (one - phase) * f,
                    (one * one) * f,
                    one * one,
                );
                lemma_div_multiples_vanish(f, one * one);
            }
        },
    }
}

/// Computes the value of `shape` at `phase`.
pub fn waveform_value(shape: Waveform, phase: u64) -> (r: i64)
    requires
        phase < PHASE_ONE,
    ensures
        r as int == waveform_value_spec(shape, phase as int),
        -FX_ONE <= r <= FX_ONE,
{
    proof {
        lemma_waveform_value_range(shape, phase as int);
    }
    match shape {
        Waveform::Square => {
            if phase < PHASE_HALF {
                FX_ONE
            } else {
                -FX_ONE
            }
        },
        Waveform::Saw => {
            let q: u128 = (2 * FX_ONE as u128) * (phase as u128) / (PHASE_ONE as u128);
            proof {
                lemma_phase_ratio_bounds(2 * FX_ONE as int, phase as int, 0);
            }
            (q as i64) - FX_ONE
        },
        Waveform::Triangle => {
            let q: u128 = (4 * FX_ONE as u128) * (phase as u128) / (PHASE_ONE as u128);
            proof {
                lemma_phase_ratio_bounds(4 * FX_ONE as int, phase as int, 0);
            }
            if phase < PHASE_HALF {
                (q as i64) - FX_ONE
            } else {
                3 * FX_ONE - (q as i64)
            }
        },
        Waveform::Sine => {
            let den: u128 = 0x1_0000_0000_0000_0000;
            proof {
                assert(PHASE_ONE == 0x1_0000_0000);
                assert(den as int == (PHASE_ONE as int) * (PHASE_ONE as int)) by (nonlinear_arith)
                    requires den == 0x1_0000_0000_0000_0000, PHASE_ONE as int == 0x1_0000_0000;
            }
            if phase < PHASE_HALF {
                proof {
                    assert((phase as int) * ((PHASE_HALF - phase) as int) < 0x4000_0000_0000_0000)
                        by (nonlinear_arith)
                        requires
                            0 <= (phase as int) < 0x8000_0000,
                            0 <= (PHASE_HALF - phase) as int <= 0x8000_0000;
                }
                let arch: u128 = (phase as u128) * ((PHASE_HALF - phase) as u128);
                proof {
                    assert(16 * arch * (FX_ONE as int) == 16 * (phase as int) * ((PHASE_HALF
                        - phase) as int) * (FX_ONE as int)) by (nonlinear_arith)
                        requires arch == (phase as int) * ((PHASE_HALF - phase) as int);
                }
                let num: u128 = 16 * arch * (FX_ONE as u128);
                (num / den) as i64
            } else {
                proof {
                    assert(((phase - PHASE_HALF) as int) * ((PHASE_ONE - phase) as int)
                        < 0x4000_0000_0000_0000) by (nonlinear_arith)
                        requires
                            0 <= ((phase - PHASE_HALF) as int) < 0x8000_0000,
                            0 <= (PHASE_ONE - phase) as int <= 0x8000_0000;
                }
                let arch: u128 = ((phase - PHASE_HALF) as u128) * ((PHASE_ONE - phase) as u128);
                proof {
                    assert(16 * arch * (FX_ONE as int) == 16 * ((phase - PHASE_HALF) as int) * ((
                    PHASE_ONE - phase) as int) * (FX_ONE as int)) by (nonlinear_arith)
                        requires arch == ((phase - PHASE_HALF) as int) * ((PHASE_ONE - phase) as int);
                }
                let num: u128 = 16 * arch * (FX_ONE as u128);
                -((num / den) as i64)
            }
        },
    }
}

/// The per-sample phase increment for a fixed-point frequency at a sample
/// rate: `freq * PHASE_ONE / (sample_rate * FX_ONE)`, saturated just below a
/// full period as the guard against unplayable frequencies.
pub open spec fn phase_increment_spec(freq: int, sample_rate: int) -> int {
    let raw = freq * (PHASE_ONE as int / FX_ONE as int) / sample_rate;
    if raw >= PHASE_ONE as int {
        PHASE_ONE as int - 1
    } else {
        raw
    }
}

/// Computes the phase increment for a frequency.
pub fn phase_increment(freq: i64, sample_rate: u32) -> (r: u64)
    requires
        0 <= freq <= FX_MAX,
        sample_rate >= 1,
    ensures
        r as int == phase_increment_spec(freq as int, sample_rate as int),
        r < PHASE_ONE,
{
    let scale: u64 = PHASE_ONE / (FX_ONE as u64);
    proof {
        assert(PHASE_ONE == 0x1_0000_0000);
        assert(FX_ONE == 65536);
        assert(0x1_0000_0000int == 65536 * 65536) by (nonlinear_arith);
        lemma_div_multiples_vanish(65536int, 65536);
        assert(scale == 65536);
        assert((freq as int) * (scale as int) <= (FX_MAX as int) * 65536) by (nonlinear_arith)
            requires 0 <= freq as int <= FX_MAX as int, scale as int == 65536;
    }
    let raw: u128 = (freq as u128) * (scale as u128) / (sample_rate as u128);
    proof {
        lemma_div_pos_is_pos((freq as int) * (scale as int), sample_rate as int);
    }
    if raw >= PHASE_ONE as u128 {
        PHASE_ONE - 1
    } else {
        raw as u64
    }
}

/// An oscillator: a shape and the phase it has accumulated.
#[derive(Clone, Copy, PartialEq, Eq, Structural, Debug)]
pub struct Oscillator {
    pub shape: Waveform,
    pub phase: u64,
}

impl Oscillator {
    pub open spec fn wf(self) -> bool {
        self.phase < PHASE_ONE
    }

    /// The phase after advancing by `increment`, wrapping at the period.
    pub open spec fn next_phase_spec(self, increment: int) -> int {
        if self.phase + increment >= PHASE_ONE {
            self.phase + increment - PHASE_ONE
        } else {
            self.phase as int + increment
        }
    }

    /// A new oscillator at phase zero.
    pub fn new(shape: Waveform) -> (r: Oscillator)
        ensures
            r.shape == shape,
            r.phase == 0,
            r.wf(),
    {
        Oscillator { shape, phase: 0 }
    }

    /// Emits the sample at the current phase, then advances the phase by
    /// `increment`, wrapping at the period boundary.
    pub fn step(&mut self, increment: u64) -> (r: i64)
        requires
            old(self).wf(),
            increment < PHASE_ONE,
        ensures
            r as int == waveform_value_spec(old(self).shape, old(self).phase as int),
            -FX_ONE <= r <= FX_ONE,
            final(self).phase as int == old(self).next_phase_spec(increment as int),
            final(self).shape == old(self).shape,
            final(self).wf(),
    {
        let sample = waveform_value(self.shape, self.phase);
        let advanced = self.phase + increment;
        self.phase = if advanced >= PHASE_ONE {
            advanced - PHASE_ONE
        } else {
            advanced
        };
        sample
    }
}

/// The frequency a note number sounds at: the tuning reference scaled by the
/// equal-tempered multiplier for the note's distance from it in semitones.
pub open spec fn note_frequency_spec(pitch: u8) -> int {
    fx_mul_spec(A4_FREQ as int, multiplier_spec((pitch as int - A4_PITCH as int) * (FX_ONE as int)))
}

/// The multiplier for any playable note distance stays within five doublings
/// either way of the reference, so every note frequency is in the audio range.
pub proof fn lemma_note_frequency_range(pitch: u8)
    requires
        pitch <= 127,
    ensures
        0 < note_frequency_spec(pitch) <= 0x4000_0000,
{
    let f = FX_ONE as int;
    let shift = (pitch as int - A4_PITCH as int) * f;
    assert(-69 * f <= shift <= 58 * f) by (nonlinear_arith)
        requires 0 <= pitch as int <= 127, shift == (pitch as int - 69) * f, f == 65536;
    lemma_multiplier_positive(shift);
    lemma_multiplier_monotonic(shift, 5 * (12 * f));
    assert(5 * (12 * f) == 5 * OCTAVE_FX as int);
    lemma_multiplier_octaves(5);
    let m = multiplier_spec(shift);
    assert(m <= 0x20_0000) by {
        vstd::arithmetic::power2::lemma2_to64();
    }
    let p = (A4_FREQ as int) * m;
    assert(0 < p <= (A4_FREQ as int) * 0x20_0000) by (nonlinear_arith)
        requires 0 < m <= 0x20_0000, A4_FREQ as int >= 1, p == (A4_FREQ as int) * m;
    lemma_div_pos_is_pos(p, f);
    lemma_div_is_ordered(p, (A4_FREQ as int) * 0x20_0000, f);
    assert((A4_FREQ as int) * 0x20_0000 / f == 440 * 0x20_0000) by {
        assert((A4_FREQ as int) * 0x20_0000 == f * (440 * 0x20_0000)) by (nonlinear_arith)
            requires A4_FREQ as int == 440 * f;
        lemma_div_multiples_vanish(440int * 0x20_0000, f);
    }
    assert(fx_mul_spec(A4_FREQ as int, m) == p / f);
}

/// Computes the frequency of a note number.
pub fn note_frequency(pitch: u8) -> (r: i64)
    requires
        pitch <= 127,
    ensures
        r as int == note_frequency_spec(pitch),
        0 < r <= 0x4000_0000,
{
    let distance: i64 = (pitch as i64) - (A4_PITCH as i64);
    let shift = OscPitchShift {
        octaves_shift: 0,
        semitones_shift: distance * FX_ONE,
        cents_shift: 0,
        pitch_bend: 0,
        modulation: 0,
    };
    let m = shift.multiplier();
    proof {
        lemma_note_frequency_range(pitch);
    }
    fx_mul(A4_FREQ, m)
}

/// The display name of the waveform an index selects; indexes beyond the
/// catalog read as empty.
pub fn waveform_name(index: usize) -> (r: String)
    ensures
        index == 0 ==> r@ == "sine"@,
        index == 1 ==> r@ == "triangle"@,
        index == 2 ==> r@ == "saw"@,
        index == 3 ==> r@ == "square"@,
        index >= 4 ==> r@ == Seq::<char>::empty(),
{
    let r: &str = if index == 0 {
        "sine"
    } else if index == 1 {
        "triangle"
    } else if index == 2 {
        "saw"
    } else if index == 3 {
        "square"
    } else {
        ""
    };
    proof {
        reveal_strlit("");
        assert(""@ =~= Seq::<char>::empty());
    }
    r.to_string()
}

/// The waveform an index selects; indexes beyond the catalog fall back to the
/// sine.
pub fn waveform_from_index(index: usize) -> (r: Waveform)
    ensures
        index == 0 ==> r == Waveform::Sine,
        index == 1 ==> r == Waveform::Triangle,
        index == 2 ==> r == Waveform::Saw,
        index == 3 ==> r == Waveform::Square,
        index >= 4 ==> r == Waveform::Sine,
{
    if index == 1 {
        Waveform::Triangle
    } else if index == 2 {
        Waveform::Saw
    } else if index == 3 {
        Waveform::Square
    } else {
        Waveform::Sine
    }
}

} // verus!
