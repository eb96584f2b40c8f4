//! The envelope generator: a staged attack/decay/sustain/release modulation
//! source gated by note events.
//!
//! The stage machine runs Idle → Attack → Decay → Sustain → Release → Idle:
//! note-on starts the attack, note-off sends any sounding stage into Release,
//! and the end of the release returns the generator to Idle, which signals
//! the allocator that the voice is free. Each timed stage advances linearly
//! over its configured duration in samples; the output level always stays in
//! `[0, FX_ONE]`.

use vstd::prelude::*;
use vstd::arithmetic::div_mod::{
    lemma_div_is_ordered, lemma_div_multiples_vanish, lemma_div_pos_is_pos,
};
use crate::fixed::{FX_ONE, trunc_div_spec};

verus! {

/// Longest stage duration, in samples.
pub const STAGE_SAMPLES_MAX: u64 = 0x1_0000_0000;

/// The stage an envelope generator is in.
#[derive(Clone, Copy, PartialEq, Eq, Structural, Debug)]
pub enum EgStage {
    Idle,
    Attack,
    Decay,
    Sustain,
    Release,
}

/// A per-voice envelope generator with linear attack, decay and release
/// segments and a held sustain level.
#[derive(Clone, Copy, PartialEq, Eq, Structural, Debug)]
pub struct EnvGen {
    /// Current stage of the machine.
    pub stage: EgStage,
    /// Samples spent in the current timed stage.
    pub pos: u64,
    /// Current output level, in `[0, FX_ONE]`.
    pub level: i64,
    /// Level at the moment the release began.
    pub release_start: i64,
    /// Attack duration in samples, at least one.
    pub attack_samples: u64,
    /// Decay duration in samples, at least one.
    pub decay_samples: u64,
    /// Sustain level, in `[0, FX_ONE]`.
    pub sustain_level: i64,
    /// Release duration in samples, at least one.
    pub release_samples: u64,
}

/// The linear ramp `position / duration` of the way from `from` to `to`, in
/// fixed point, the fractional part truncated toward zero.
pub open spec fn ramp_spec(from: int, to: int, pos: int, dur: int) -> int {
    from + trunc_div_spec((to - from) * pos, dur)
}

impl EnvGen {
    pub open spec fn wf(self) -> bool {
        &&& 1 <= self.attack_samples <= STAGE_SAMPLES_MAX
        &&& 1 <= self.decay_samples <= STAGE_SAMPLES_MAX
        &&& 1 <= self.release_samples <= STAGE_SAMPLES_MAX
        &&& 0 <= self.sustain_level <= FX_ONE
        &&& 0 <= self.level <= FX_ONE
        &&& 0 <= self.release_start <= FX_ONE
        &&& self.pos <= STAGE_SAMPLES_MAX
    }

    /// Whether the generator is sounding: any stage but Idle.
    pub open spec fn is_sounding_spec(self) -> bool {
        self.stage != EgStage::Idle
    }

    /// The generator after a note-on: the attack starts from silence.
    pub open spec fn note_on_spec(self) -> EnvGen {
        EnvGen { stage: EgStage::Attack, pos: 0, level: 0, ..self }
    }

    /// The generator after a note-off: any sounding stage enters Release from
    /// its current level; Idle and Release are left as they are.
    pub open spec fn note_off_spec(self) -> EnvGen {
        if self.stage == EgStage::Attack || self.stage == EgStage::Decay || self.stage
            == EgStage::Sustain {
            EnvGen { stage: EgStage::Release, pos: 0, release_start: self.level, ..self }
        } else {
            self
        }
    }

    /// The generator advanced by one sample: each timed stage ramps linearly
    /// and hands over to the next stage when its duration has elapsed.
    pub open spec fn step_spec(self) -> EnvGen {
        match self.stage {
            EgStage::Idle => EnvGen { level: 0, ..self },
            EgStage::Attack => {
                if self.pos + 1 >= self.attack_samples {
                    EnvGen { stage: EgStage::Decay, pos: 0, level: FX_ONE, ..self }
                } else {
                    EnvGen {
                        pos: (self.pos + 1) as u64,
                        level: ramp_spec(
                            0,
                            FX_ONE as int,
                            self.pos + 1,
                            self.attack_samples as int,
                        ) as i64,
                        ..self
                    }
                }
            },
            EgStage::Decay => {
                if self.pos + 1 >= self.decay_samples {
                    EnvGen { stage: EgStage::Sustain, pos: 0, level: self.sustain_level, ..self }
                } else {
                    EnvGen {
                        pos: (self.pos + 1) as u64,
                        level: ramp_spec(
                            FX_ONE as int,
                            self.sustain_level as int,
                            self.pos + 1,
                            self.decay_samples as int,
                        ) as i64,
                        ..self
                    }
                }
            },
            EgStage::Sustain => EnvGen { level: self.sustain_level, ..self },
            EgStage::Release => {
                if self.pos + 1 >= self.release_samples {
                    EnvGen { stage: EgStage::Idle, pos: 0, level: 0, ..self }
                } else {
                    EnvGen {
                        pos: (self.pos + 1) as u64,
                        level: ramp_spec(
                            self.release_start as int,
                            0,
                            self.pos + 1,
                            self.release_samples as int,
                        ) as i64,
                        ..self
                    }
                }
            },
        }
    }

    /// A new generator in Idle with the given stage durations (in samples)
    /// and sustain level.
    pub fn new(attack_samples: u64, decay_samples: u64, sustain_level: i64, release_samples: u64) -> (r:
        EnvGen)
        requires
            1 <= attack_samples <= STAGE_SAMPLES_MAX,
            1 <= decay_samples <= STAGE_SAMPLES_MAX,
            1 <= release_samples <= STAGE_SAMPLES_MAX,
            0 <= sustain_level <= FX_ONE,
        ensures
            r == (EnvGen {
                stage: EgStage::Idle,
                pos: 0,
                level: 0,
                release_start: 0,
                attack_samples,
                decay_samples,
                sustain_level,
                release_samples,
            }),
            r.wf(),
    {
        EnvGen {
            stage: EgStage::Idle,
            pos: 0,
            level: 0,
            release_start: 0,
            attack_samples,
            decay_samples,
            sustain_level,
            release_samples,
        }
    }

    /// Whether the generator is sounding.
    pub fn is_sounding(&self) -> (r: bool)
        ensures
            r == self.is_sounding_spec(),
    {
        !matches!(self.stage, EgStage::Idle)
    }

    /// Gate on: enter Attack from silence.
    pub fn note_on(&mut self)
        requires
            old(self).wf(),
        ensures
            *final(self) == old(self).note_on_spec(),
            final(self).wf(),
            final(self).stage == EgStage::Attack,
    {
        self.stage = EgStage::Attack;
        self.pos = 0;
        self.level = 0;
    }

    /// Gate off: a sounding stage enters Release from its current level; on
    /// Idle or Release this is a no-op.
    pub fn note_off(&mut self)
        requires
            old(self).wf(),
        ensures
            *final(self) == old(self).note_off_spec(),
            final(self).wf(),
    {
        match self.stage {
            EgStage::Attack | EgStage::Decay | EgStage::Sustain => {
                self.release_start = self.level;
                self.stage = EgStage::Release;
                self.pos = 0;
            },
            _ => {},
        }
    }

    /// Advances the generator one sample and returns the new output level.
    pub fn step(&mut self) -> (r: i64)
        requires
            old(self).wf(),
        ensures
            *final(self) == old(self).step_spec(),
            r == final(self).level,
            final(self).wf(),
    {
        match self.stage {
            EgStage::Idle => {
                self.level = 0;
            },
            EgStage::Attack => {
                if self.pos + 1 >= self.attack_samples {
                    self.stage = EgStage::Decay;
                    self.pos = 0;
                    self.level = FX_ONE;
                } else {
                    self.pos = self.pos + 1;
                    self.level = ramp_up(self.pos, self.attack_samples);
                    proof {
                        lemma_ramp_range(0, FX_ONE as int, self.pos as int, self.attack_samples as int);
                    }
                }
            },
            EgStage::Decay => {
                if self.pos + 1 >= self.decay_samples {
                    self.stage = EgStage::Sustain;
                    self.pos = 0;
                    self.level = self.sustain_level;
                } else {
                    self.pos = self.pos + 1;
                    self.level = ramp_down(FX_ONE, self.sustain_level, self.pos, self.decay_samples);
                    proof {
                        lemma_ramp_range(
                            FX_ONE as int,
                            self.sustain_level as int,
                            self.pos as int,
                            self.decay_samples as int,
                        );
                    }
                }
            },
            EgStage::Sustain => {
                self.level = self.sustain_level;
            },
            EgStage::Release => {
                if self.pos + 1 >= self.release_samples {
                    self.stage = EgStage::Idle;
                    self.pos = 0;
                    self.level = 0;
                } else {
                    self.pos = self.pos + 1;
                    self.level = ramp_down(self.release_start, 0, self.pos, self.release_samples);
                    proof {
                        lemma_ramp_range(
                            self.release_start as int,
                            0,
                            self.pos as int,
                            self.release_samples as int,
                        );
                    }
                }
            },
        }
        self.level
    }
}

/// A linear ramp between two levels stays between them.
proof fn lemma_ramp_range(from: int, to: int, pos: int, dur: int)
    requires
        0 <= pos <= dur,
        1 <= dur,
    ensures
        from <= to ==> from <= ramp_spec(from, to, pos, dur) <= to,
        to <= from ==> to <= ramp_spec(from, to, pos, dur) <= from,
{
    let d = to - from;
    if d >= 0 {
        assert(0 <= d * pos <= d * dur) by (nonlinear_arith)
            requires 0 <= pos <= dur, d >= 0;
        lemma_div_pos_is_pos(d * pos, dur);
        lemma_div_is_ordered(d * pos, d * dur, dur);
        lemma_div_multiples_vanish(d, dur);
        assert(d * dur == dur * d) by (nonlinear_arith);
    } else {
        assert(0 <= (-d) * pos <= (-d) * dur) by (nonlinear_arith)
            requires 0 <= pos <= dur, d < 0;
        assert(-(d * pos) == (-d) * pos) by (nonlinear_arith);
        lemma_div_pos_is_pos((-d) * pos, dur);
        lemma_div_is_ordered((-d) * pos, (-d) * dur, dur);
        lemma_div_multiples_vanish(-d, dur);
        assert((-d) * dur == dur * (-d)) by (nonlinear_arith);
        assert(d * pos < 0 || d * pos == 0) by (nonlinear_arith)
            requires d < 0, pos >= 0;
    }
}

/// The rising attack ramp: `pos / dur` of the way from silence to full level.
fn ramp_up(pos: u64, dur: u64) -> (r: i64)
    requires
        1 <= dur,
        0 <= pos <= dur,
    ensures
        r as int == ramp_spec(0, FX_ONE as int, pos as int, dur as int),
{
    proof {
        lemma_ramp_range(0, FX_ONE as int, pos as int, dur as int);
        assert((FX_ONE as int) * (pos as int) >= 0) by (nonlinear_arith)
            requires pos as int >= 0;
        assert((FX_ONE as int - 0) * (pos as int) == (FX_ONE as int) * (pos as int));
    }
    ((FX_ONE as u128) * (pos as u128) / (dur as u128)) as i64
}

/// A falling ramp: `pos / dur` of the way from `from` down to `to`.
fn ramp_down(from: i64, to: i64, pos: u64, dur: u64) -> (r: i64)
    requires
        1 <= dur,
        0 <= pos <= dur,
        0 <= to <= from <= FX_ONE,
    ensures
        r as int == ramp_spec(from as int, to as int, pos as int, dur as int),
{
    proof {
        assert(((from - to) as int) * (pos as int) <= (FX_ONE as int) * (u64::MAX as int))
            by (nonlinear_arith)
            requires
                0 <= (from - to) as int <= FX_ONE as int,
                0 <= pos as int <= u64::MAX as int;
    }
    let drop: u128 = ((from - to) as u128) * (pos as u128) / (dur as u128);
    proof {
        let d = to as int - from as int;
        lemma_ramp_range(from as int, to as int, pos as int, dur as int);
        assert(((from - to) as int) * (pos as int) == -(d * (pos as int))) by (nonlinear_arith)
            requires d == to as int - from as int;
        assert(d * (pos as int) <= 0) by (nonlinear_arith)
            requires d <= 0, pos as int >= 0;
        if d * (pos as int) == 0 {
            vstd::arithmetic::div_mod::lemma_div_of0(dur as int);
        }
    }
    from - (drop as i64)
}

} // verus!
