//! A voice: the complete signal chain for one sounding note.
//!
//! Each voice runs oscillator → filter → amplifier/pan, driven by its
//! envelope generator and the shared LFO, and gated by the note-lifecycle
//! machine Free → Active → Releasing → Free. Note-on latches pitch and
//! velocity and starts the attack; note-off sends the envelope into its
//! release; the voice returns to the free pool only when the release has
//! fully run out, never by abrupt termination.

use vstd::prelude::*;
use vstd::arithmetic::div_mod::{
    lemma_div_is_ordered, lemma_div_nonincreasing, lemma_div_pos_is_pos,
};
use crate::fixed::{
    FX_ONE, FX_MAX, fx_clamp_spec, fx_mul, fx_mul_spec, trunc_div_spec,
    lemma_fx_mul_frac_bound, lemma_fx_mul_nonneg, lemma_fx_mul_signed_bound,
};
use crate::envelope::{EgStage, EnvGen, STAGE_SAMPLES_MAX};
use crate::oscillator::{
    A4_PITCH, Oscillator, note_frequency, note_frequency_spec, phase_increment,
    phase_increment_spec, waveform_value_spec,
};
use crate::pitch::{
    OscPitchShift, OCTAVE_FX, SHIFT_LIMIT, multiplier_spec, lemma_multiplier_monotonic,
    lemma_multiplier_octaves, lemma_multiplier_positive, pow2_fx_spec,
};
use crate::program::{FilterMode, Program};

verus! {

/// Two pi in fixed point, the angular-frequency scale of the filter.
pub const TAU_FX: i64 = 411775;

/// The note lifecycle of a voice.
#[derive(Clone, Copy, PartialEq, Eq, Structural, Debug)]
pub enum VoiceState {
    Free,
    Active,
    Releasing,
}

/// One note's signal-processing state.
#[derive(Clone, Copy, PartialEq, Eq, Structural, Debug)]
pub struct Voice {
    pub state: VoiceState,
    pub pitch: u8,
    /// Velocity, a fraction in `[0, FX_ONE]`.
    pub velocity: i64,
    /// Samples since the note started, for the steal policy; saturating.
    pub age: u64,
    pub osc: Oscillator,
    pub eg: EnvGen,
    /// The one-pole filter's memory, in `[-FX_ONE, FX_ONE]`.
    pub filter_state: i64,
}

/// Converts fixed-point seconds to a stage duration in samples, floored at
/// one sample and capped at the longest stage.
pub open spec fn seconds_to_samples_spec(seconds: int, sample_rate: int) -> int {
    let raw = seconds * sample_rate / (FX_ONE as int);
    if raw < 1 {
        1
    } else if raw > STAGE_SAMPLES_MAX as int {
        STAGE_SAMPLES_MAX as int
    } else {
        raw
    }
}

/// Converts fixed-point seconds to samples.
pub fn seconds_to_samples(seconds: i64, sample_rate: u32) -> (r: u64)
    requires
        0 <= seconds <= FX_MAX,
        sample_rate >= 1,
    ensures
        r as int == seconds_to_samples_spec(seconds as int, sample_rate as int),
        1 <= r <= STAGE_SAMPLES_MAX,
{
    proof {
        assert((seconds as int) * (sample_rate as int) <= (FX_MAX as int) * (u32::MAX as int))
            by (nonlinear_arith)
            requires
                0 <= seconds as int <= FX_MAX as int,
                0 <= sample_rate as int <= u32::MAX as int;
        lemma_div_pos_is_pos((seconds as int) * (sample_rate as int), FX_ONE as int);
    }
    let raw: u128 = (seconds as u128) * (sample_rate as u128) / (FX_ONE as u128);
    if raw < 1 {
        1
    } else if raw > STAGE_SAMPLES_MAX as u128 {
        STAGE_SAMPLES_MAX
    } else {
        raw as u64
    }
}

/// The envelope a fresh note gets from the program at a sample rate.
pub open spec fn eg_from_program_spec(p: Program, sample_rate: int) -> EnvGen {
    EnvGen {
        stage: EgStage::Idle,
        pos: 0,
        level: 0,
        release_start: 0,
        attack_samples: seconds_to_samples_spec(p.eg.attack as int, sample_rate) as u64,
        decay_samples: seconds_to_samples_spec(p.eg.decay as int, sample_rate) as u64,
        sustain_level: p.eg.sustain,
        release_samples: seconds_to_samples_spec(p.eg.release as int, sample_rate) as u64,
    }
}

/// The LFO's contribution to the pitch shift, in fixed-point semitones.
pub open spec fn pitch_mod_spec(p: Program, lfo: int) -> int {
    fx_mul_spec(lfo, p.lfo.osc_pitch_mod as int)
}

/// The total pitch shift a voice sees: octaves, semitones and cents from the
/// program plus the LFO's modulation, in fixed-point semitones.
pub open spec fn voice_shift_spec(p: Program, lfo: int) -> int {
    12 * p.osc.octaves as int + p.osc.semitones as int + trunc_div_spec(p.osc.cents as int, 100)
        + pitch_mod_spec(p, lfo)
}

/// The frequency a voice's oscillator runs at: the note frequency scaled by
/// the pitch-shift multiplier, clamped into the audio range.
pub open spec fn voice_freq_spec(pitch: u8, p: Program, lfo: int) -> int {
    fx_clamp_spec(
        fx_mul_spec(note_frequency_spec(pitch), multiplier_spec(voice_shift_spec(p, lfo))),
    )
}

/// The one-pole low-pass coefficient for an effective cutoff: the angular
/// frequency per sample, capped at one.
pub open spec fn alpha_spec(cutoff: int, sample_rate: int) -> int {
    let raw = cutoff * (TAU_FX as int) / (sample_rate * (FX_ONE as int));
    if raw > FX_ONE as int {
        FX_ONE as int
    } else {
        raw
    }
}

/// The effective cutoff: the program's cutoff plus the LFO's contribution,
/// clamped into the cutoff range.
pub open spec fn effective_cutoff_spec(p: Program, lfo: int) -> int {
    let c = p.filter.cutoff as int + fx_mul_spec(lfo, p.lfo.filter_cutoff_mod as int);
    if c < 0 {
        0
    } else if c > 20000 * FX_ONE as int {
        20000 * FX_ONE as int
    } else {
        c
    }
}

/// One filter step: bypass hands the sample through; the low-pass moves its
/// memory toward the sample by the coefficient's fraction of the distance.
/// Returns the new memory and the filtered sample.
pub open spec fn filter_step_spec(mode: FilterMode, memory: int, alpha: int, sample: int) -> (
    int,
    int,
) {
    match mode {
        FilterMode::Bypass => (memory, sample),
        FilterMode::LowPass => {
            let next = memory + fx_mul_spec(alpha, sample - memory);
            (next, next)
        },
    }
}

/// The amplifier gain: the program's amplitude plus the LFO's contribution
/// (clamped to a fraction), scaled by velocity and by the envelope level
/// through the envelope's amplifier intensity.
pub open spec fn amp_spec(p: Program, lfo: int, velocity: int, env_level: int) -> int {
    let base = p.dca.amplitude as int + fx_mul_spec(lfo, p.lfo.dca_amp_mod as int);
    let base_c = if base < 0 {
        0
    } else if base > FX_ONE as int {
        FX_ONE as int
    } else {
        base
    };
    fx_mul_spec(fx_mul_spec(base_c, velocity), fx_mul_spec(env_level, p.eg.dca_intensity as int))
}

/// The pan position: the program's pan plus the LFO's contribution, clamped.
pub open spec fn pan_spec(p: Program, lfo: int) -> int {
    let pan = p.dca.pan as int + fx_mul_spec(lfo, p.lfo.dca_pan_mod as int);
    if pan < -(FX_ONE as int) {
        -(FX_ONE as int)
    } else if pan > FX_ONE as int {
        FX_ONE as int
    } else {
        pan
    }
}

impl Voice {
    pub open spec fn wf(self) -> bool {
        &&& self.pitch <= 127
        &&& 0 <= self.velocity <= FX_ONE
        &&& self.osc.wf()
        &&& self.eg.wf()
        &&& -FX_ONE <= self.filter_state <= FX_ONE
    }

    /// The voice after a note-on: pitch and velocity latched, the oscillator
    /// reset, the envelope in its attack, the lifecycle Active.
    pub open spec fn note_on_spec(self, pitch: u8, velocity: i64, p: Program, sample_rate: int)
        -> Voice {
        Voice {
            state: VoiceState::Active,
            pitch,
            velocity,
            age: 0,
            osc: Oscillator { shape: p.osc.shape, phase: 0 },
            eg: eg_from_program_spec(p, sample_rate).note_on_spec(),
            filter_state: 0,
        }
    }

    /// The voice after a note-off: an Active voice starts releasing; any
    /// other state is left as it is.
    pub open spec fn note_off_spec(self) -> Voice {
        if self.state == VoiceState::Active {
            Voice { state: VoiceState::Releasing, eg: self.eg.note_off_spec(), ..self }
        } else {
            self
        }
    }

    /// The voice and its stereo contribution after one sample: the signal
    /// chain runs oscillator → filter → amplifier/pan, the envelope and age
    /// advance, and a Releasing voice whose envelope has gone idle returns to
    /// Free.
    pub open spec fn render_spec(self, p: Program, sample_rate: int, lfo: int) -> (Voice, int, int) {
        if self.state == VoiceState::Free {
            (self, 0, 0)
        } else {
            let inc = phase_increment_spec(voice_freq_spec(self.pitch, p, lfo), sample_rate);
            let s = waveform_value_spec(self.osc.shape, self.osc.phase as int);
            let osc_next = Oscillator {
                shape: self.osc.shape,
                phase: self.osc.next_phase_spec(inc) as u64,
            };
            let alpha = alpha_spec(effective_cutoff_spec(p, lfo), sample_rate);
            let filtered = filter_step_spec(p.filter.mode, self.filter_state as int, alpha, s);
            let eg_next = self.eg.step_spec();
            let amp = amp_spec(p, lfo, self.velocity as int, eg_next.level as int);
            let out = fx_mul_spec(filtered.1, amp);
            let pan = pan_spec(p, lfo);
            let lgain = (FX_ONE as int - pan) / 2;
            let rgain = (FX_ONE as int + pan) / 2;
            let state_next = if self.state == VoiceState::Releasing && eg_next.stage
                == EgStage::Idle {
                VoiceState::Free
            } else {
                self.state
            };
            let age_next = if self.age < u64::MAX {
                (self.age + 1) as u64
            } else {
                self.age
            };
            (
                Voice {
                    state: state_next,
                    age: age_next,
                    osc: osc_next,
                    eg: eg_next,
                    filter_state: filtered.0 as i64,
                    ..self
                },
                fx_mul_spec(out, lgain),
                fx_mul_spec(out, rgain),
            )
        }
    }

    /// The silent voice as a value.
    pub open spec fn initial_spec() -> Voice {
        Voice {
            state: VoiceState::Free,
            pitch: A4_PITCH,
            velocity: 0,
            age: 0,
            osc: Oscillator { shape: crate::oscillator::Waveform::Sine, phase: 0 },
            eg: EnvGen {
                stage: EgStage::Idle,
                pos: 0,
                level: 0,
                release_start: 0,
                attack_samples: 1,
                decay_samples: 1,
                sustain_level: FX_ONE,
                release_samples: 1,
            },
            filter_state: 0,
        }
    }

    /// A silent voice in the free pool.
    pub fn new() -> (r: Voice)
        ensures
            r == Voice::initial_spec(),
            r.state == VoiceState::Free,
            r.wf(),
    {
        Voice {
            state: VoiceState::Free,
            pitch: A4_PITCH,
            velocity: 0,
            age: 0,
            osc: Oscillator { shape: crate::oscillator::Waveform::Sine, phase: 0 },
            eg: EnvGen::new(1, 1, FX_ONE, 1),
            filter_state: 0,
        }
    }

    /// Latches a note and starts the voice sounding.
    pub fn note_on(&mut self, pitch: u8, velocity: i64, p: &Program, sample_rate: u32)
        requires
            old(self).wf(),
            p.wf(),
            pitch <= 127,
            0 <= velocity <= FX_ONE,
            sample_rate >= 1,
        ensures
            *final(self) == old(self).note_on_spec(pitch, velocity, *p, sample_rate as int),
            final(self).state == VoiceState::Active,
            final(self).wf(),
    {
        proof {
            assert(FX_ONE == 65536);
            assert(FX_MAX == 0x100_0000_0000);
            assert(0 <= p.eg.attack <= FX_MAX && 0 <= p.eg.decay <= FX_MAX && 0 <= p.eg.release
                <= FX_MAX);
        }
        let mut eg = EnvGen::new(
            seconds_to_samples(p.eg.attack, sample_rate),
            seconds_to_samples(p.eg.decay, sample_rate),
            p.eg.sustain,
            seconds_to_samples(p.eg.release, sample_rate),
        );
        eg.note_on();
        self.state = VoiceState::Active;
        self.pitch = pitch;
        self.velocity = velocity;
        self.age = 0;
        self.osc = Oscillator { shape: p.osc.shape, phase: 0 };
        self.eg = eg;
        self.filter_state = 0;
    }

    /// Sends an Active voice into its release; a no-op on any other state.
    pub fn note_off(&mut self)
        requires
            old(self).wf(),
        ensures
            *final(self) == old(self).note_off_spec(),
            final(self).wf(),
    {
        if matches!(self.state, VoiceState::Active) {
            self.eg.note_off();
            self.state = VoiceState::Releasing;
        }
    }

    /// Advances the voice one sample and returns its stereo contribution.
    pub fn render(&mut self, p: &Program, sample_rate: u32, lfo_value: i64) -> (out: (i64, i64))
        requires
            old(self).wf(),
            p.wf(),
            sample_rate >= 1,
            -FX_ONE <= lfo_value <= FX_ONE,
        ensures
            *final(self) == old(self).render_spec(*p, sample_rate as int, lfo_value as int).0,
            out.0 as int == old(self).render_spec(*p, sample_rate as int, lfo_value as int).1,
            out.1 as int == old(self).render_spec(*p, sample_rate as int, lfo_value as int).2,
            -FX_ONE <= out.0 <= FX_ONE,
            -FX_ONE <= out.1 <= FX_ONE,
            final(self).wf(),
    {
        if matches!(self.state, VoiceState::Free) {
            return (0, 0);
        }
        proof {
            assert(FX_ONE == 65536);
            assert(OCTAVE_FX == 786432);
            assert(SHIFT_LIMIT == 12582912);
        }
        // Pitch: program shift plus LFO modulation, one multiplier query.
        proof {
            lemma_fx_mul_signed_bound(lfo_value as int, p.lfo.osc_pitch_mod as int, (12 * 65536) as int);
        }
        let pitch_mod = fx_mul(lfo_value, p.lfo.osc_pitch_mod);
        let mut shift = OscPitchShift::default();
        shift.set_octaves(p.osc.octaves);
        shift.set_semitones(p.osc.semitones);
        shift.set_cents(p.osc.cents);
        shift.set_modulation(pitch_mod);
        let m = shift.multiplier();
        proof {
            assert(shift.total_shift_spec() == voice_shift_spec(*p, lfo_value as int));
            lemma_voice_multiplier_bound(*p, lfo_value as int);
            crate::oscillator::lemma_note_frequency_range(self.pitch);
            let nf = note_frequency_spec(self.pitch);
            let prod = nf * (m as int);
            assert(0 <= prod <= 0x4000_0000 * 0x100_0000) by (nonlinear_arith)
                requires 0 <= nf <= 0x4000_0000, 0 < m as int <= 0x100_0000, prod == nf * (m as int);
            lemma_div_pos_is_pos(prod, FX_ONE as int);
            lemma_div_nonincreasing(prod, FX_ONE as int);
        }
        let freq = crate::fixed::fx_clamp(fx_mul(note_frequency(self.pitch), m));
        proof {
            lemma_fx_mul_nonneg(note_frequency_spec(self.pitch), m as int);
        }
        let inc = phase_increment(freq, sample_rate);
        let s = self.osc.step(inc);
        // Filter: bypass or one-pole low-pass with LFO-modulated cutoff.
        let filtered: i64 = match self.filter_mode_of(p) {
            FilterMode::Bypass => s,
            FilterMode::LowPass => {
                proof {
                    lemma_fx_mul_signed_bound(
                        lfo_value as int,
                        p.lfo.filter_cutoff_mod as int,
                        ((5000 * 65536) as int),
                    );
                }
                let cutoff_mod = fx_mul(lfo_value, p.lfo.filter_cutoff_mod);
                let summed = p.filter.cutoff + cutoff_mod;
                let cutoff: i64 = if summed < 0 {
                    0
                } else if summed > 20000 * FX_ONE {
                    20000 * FX_ONE
                } else {
                    summed
                };
                proof {
                    assert((cutoff as int) * (TAU_FX as int) <= 20000 * 65536 * (TAU_FX as int))
                        by (nonlinear_arith)
                        requires 0 <= cutoff as int <= 20000 * 65536;
                    assert((sample_rate as int) * (FX_ONE as int) >= 1) by (nonlinear_arith)
                        requires sample_rate as int >= 1, FX_ONE as int == 65536;
                    assert((sample_rate as int) * (FX_ONE as int) <= 0x1_0000_0000_0000_0000)
                        by (nonlinear_arith)
                        requires 1 <= sample_rate as int <= 0x1_0000_0000, FX_ONE as int == 65536;
                    lemma_div_pos_is_pos(
                        (cutoff as int) * (TAU_FX as int),
                        (sample_rate as int) * (FX_ONE as int),
                    );
                }
                let den: u128 = (sample_rate as u128) * (FX_ONE as u128);
                let raw: u128 = (cutoff as u128) * (TAU_FX as u128) / den;
                let alpha: i64 = if raw > FX_ONE as u128 {
                    FX_ONE
                } else {
                    raw as u64 as i64
                };
                proof {
                    assert(alpha as int == alpha_spec(
                        effective_cutoff_spec(*p, lfo_value as int),
                        sample_rate as int,
                    ));
                    lemma_fx_mul_frac_bound(s as int - self.filter_state as int, alpha as int, 2
                        * (FX_ONE as int));
                }
                let delta = fx_mul(s - self.filter_state, alpha);
                let next = self.filter_state + delta;
                proof {
                    if s >= self.filter_state {
                        assert(self.filter_state as int <= next as int <= s as int);
                    } else {
                        assert(s as int <= next as int <= self.filter_state as int);
                    }
                }
                self.filter_state = next;
                next
            },
        };
        // Envelope and amplifier.
        let env_level = self.eg.step();
        proof {
            lemma_fx_mul_signed_bound(lfo_value as int, p.lfo.dca_amp_mod as int, 65536);
        }
        let amp_base_raw = p.dca.amplitude + fx_mul(lfo_value, p.lfo.dca_amp_mod);
        let amp_base: i64 = if amp_base_raw < 0 {
            0
        } else if amp_base_raw > FX_ONE {
            FX_ONE
        } else {
            amp_base_raw
        };
        proof {
            lemma_fx_mul_frac_bound(amp_base as int, self.velocity as int, FX_ONE as int);
            lemma_fx_mul_frac_bound(env_level as int, p.eg.dca_intensity as int, FX_ONE as int);
        }
        let env_scaled = fx_mul(env_level, p.eg.dca_intensity);
        let vel_scaled = fx_mul(amp_base, self.velocity);
        proof {
            lemma_fx_mul_frac_bound(vel_scaled as int, env_scaled as int, FX_ONE as int);
        }
        let amp = fx_mul(vel_scaled, env_scaled);
        proof {
            lemma_fx_mul_frac_bound(filtered as int, amp as int, FX_ONE as int);
        }
        let out = fx_mul(filtered, amp);
        // Pan.
        proof {
            lemma_fx_mul_signed_bound(lfo_value as int, p.lfo.dca_pan_mod as int, 65536);
        }
        let pan_raw = p.dca.pan + fx_mul(lfo_value, p.lfo.dca_pan_mod);
        let pan: i64 = if pan_raw < -FX_ONE {
            -FX_ONE
        } else if pan_raw > FX_ONE {
            FX_ONE
        } else {
            pan_raw
        };
        let lgain = (((FX_ONE - pan) as u64) / 2) as i64;
        let rgain = (((FX_ONE + pan) as u64) / 2) as i64;
        proof {
            lemma_div_is_ordered((FX_ONE - pan) as int, 2 * FX_ONE as int, 2);
            lemma_div_is_ordered((FX_ONE + pan) as int, 2 * FX_ONE as int, 2);
            lemma_div_pos_is_pos((FX_ONE - pan) as int, 2);
            lemma_div_pos_is_pos((FX_ONE + pan) as int, 2);
            vstd::arithmetic::div_mod::lemma_div_multiples_vanish(FX_ONE as int, 2);
            lemma_fx_mul_frac_bound(out as int, lgain as int, FX_ONE as int);
            lemma_fx_mul_frac_bound(out as int, rgain as int, FX_ONE as int);
        }
        let left = fx_mul(out, lgain);
        let right = fx_mul(out, rgain);
        // Lifecycle: a released voice whose envelope has gone idle is free.
        if matches!(self.state, VoiceState::Releasing) && !self.eg.is_sounding() {
            self.state = VoiceState::Free;
        }
        if self.age < u64::MAX {
            self.age = self.age + 1;
        }
        (left, right)
    }

    /// Reads the filter mode out of the program.
    fn filter_mode_of(&self, p: &Program) -> (r: FilterMode)
        ensures
            r == p.filter.mode,
    {
        p.filter.mode
    }
}

/// The pitch-shift multiplier a voice can see is bounded by eight octaves:
/// every contribution is range-clamped, so their sum stays under it.
pub proof fn lemma_voice_multiplier_bound(p: Program, lfo: int)
    requires
        p.wf(),
        -(FX_ONE as int) <= lfo <= FX_ONE as int,
    ensures
        1 <= multiplier_spec(voice_shift_spec(p, lfo)) <= 0x100_0000,
{
    let f = FX_ONE as int;
    assert(FX_ONE == 65536);
    assert(OCTAVE_FX == 786432);
    lemma_fx_mul_signed_bound(lfo, p.lfo.osc_pitch_mod as int, 12 * f);
    let cents = trunc_div_spec(p.osc.cents as int, 100);
    assert(-100 * f <= p.osc.cents <= 100 * f);
    if p.osc.cents >= 0 {
        lemma_div_pos_is_pos(p.osc.cents as int, 100);
        lemma_div_is_ordered(p.osc.cents as int, 100 * f, 100);
        vstd::arithmetic::div_mod::lemma_div_multiples_vanish(f, 100);
    } else {
        lemma_div_pos_is_pos(-(p.osc.cents as int), 100);
        lemma_div_is_ordered(-(p.osc.cents as int), 100 * f, 100);
        vstd::arithmetic::div_mod::lemma_div_multiples_vanish(f, 100);
    }
    assert(-f <= cents <= f);
    let total = voice_shift_spec(p, lfo);
    assert(-8 * (OCTAVE_FX as int) <= total <= 8 * (OCTAVE_FX as int));
    lemma_multiplier_positive(total);
    lemma_multiplier_monotonic(total, 8 * (OCTAVE_FX as int));
    assert(8 * (OCTAVE_FX as int) == 8 * OCTAVE_FX as int);
    lemma_multiplier_octaves(8);
    assert(pow2_fx_spec(8) == 0x100_0000) by {
        vstd::arithmetic::power2::lemma2_to64();
    }
}

/// Note-on always yields an Active voice with the note's pitch and velocity
/// latched — a note is never rejected by the lifecycle itself.
pub proof fn lemma_note_on_activates(v: Voice, pitch: u8, velocity: i64, p: Program, sr: int)
    ensures
        v.note_on_spec(pitch, velocity, p, sr).state == VoiceState::Active,
        v.note_on_spec(pitch, velocity, p, sr).pitch == pitch,
        v.note_on_spec(pitch, velocity, p, sr).velocity == velocity,
{
}

/// Note-off moves an Active voice to Releasing, and is a no-op on a voice
/// already Free — a second note-off for a finished note changes nothing.
pub proof fn lemma_note_off_lifecycle(v: Voice)
    ensures
        v.state == VoiceState::Active ==> v.note_off_spec().state == VoiceState::Releasing,
        v.state == VoiceState::Free ==> v.note_off_spec() == v,
        v.state == VoiceState::Releasing ==> v.note_off_spec() == v,
{
}

/// The voice after `n` renders under a fixed program and LFO value.
pub open spec fn voice_after_renders(v: Voice, p: Program, sr: int, lfo: int, n: nat) -> Voice
    decreases n,
{
    if n == 0 {
        v
    } else {
        voice_after_renders(v, p, sr, lfo, (n - 1) as nat).render_spec(p, sr, lfo).0
    }
}

/// A Releasing voice returns to Free exactly when its envelope's release runs
/// out: after the remaining release samples it is Free, and it was Releasing
/// the whole way there.
pub proof fn lemma_release_completes(v: Voice, p: Program, sr: int, lfo: int)
    requires
        v.state == VoiceState::Releasing,
        v.eg.stage == EgStage::Release,
        v.eg.pos < v.eg.release_samples,
    ensures
        voice_after_renders(v, p, sr, lfo, (v.eg.release_samples - v.eg.pos) as nat).state
            == VoiceState::Free,
    decreases v.eg.release_samples - v.eg.pos,
{
    let n = (v.eg.release_samples - v.eg.pos) as nat;
    let next = v.render_spec(p, sr, lfo).0;
    assert(voice_after_renders(v, p, sr, lfo, 1) == next) by {
        assert(voice_after_renders(v, p, sr, lfo, 0) == v);
    }
    if v.eg.pos + 1 >= v.eg.release_samples {
        assert(next.eg.stage == EgStage::Idle);
        assert(next.state == VoiceState::Free);
        assert(n == 1);
    } else {
        assert(next.state == VoiceState::Releasing);
        assert(next.eg.stage == EgStage::Release);
        assert(next.eg.pos == v.eg.pos + 1);
        assert(next.eg.release_samples == v.eg.release_samples);
        lemma_release_completes(next, p, sr, lfo);
        lemma_after_renders_adds(v, p, sr, lfo, 1, (next.eg.release_samples - next.eg.pos) as nat);
    }
}

/// Render counts compose: `m + k` renders are `k` renders after `m`.
pub proof fn lemma_after_renders_adds(v: Voice, p: Program, sr: int, lfo: int, m: nat, k: nat)
    ensures
        voice_after_renders(v, p, sr, lfo, (m + k) as nat) == voice_after_renders(
            voice_after_renders(v, p, sr, lfo, m),
            p,
            sr,
            lfo,
            k,
        ),
    decreases k,
{
    if k > 0 {
        lemma_after_renders_adds(v, p, sr, lfo, m, (k - 1) as nat);
    }
}

} // verus!
