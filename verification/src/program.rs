//! The program: the static, swappable definition of a patch.
//!
//! A [`Program`] holds the module parameters (oscillator, envelope, filter,
//! amplifier/pan, LFO, delay) and the modulation routing depths that say how
//! strongly the LFO scales each destination and how strongly the envelope
//! drives the amplifier. It is a plain value: the processor swaps it
//! atomically at a block boundary and never edits it in place while voices
//! read it. Parameter changes arrive as [`ParamRef`]/value pairs and are
//! clamped into the parameter's declared range at this boundary, so no
//! out-of-range value ever reaches the audio path.

use vstd::prelude::*;
use crate::event::ParamRef;
use crate::fixed::FX_ONE;
use crate::oscillator::Waveform;

verus! {

/// The filter modes the engine offers.
#[derive(Clone, Copy, PartialEq, Eq, Structural, Debug)]
pub enum FilterMode {
    Bypass,
    LowPass,
}

/// Oscillator parameters.
#[derive(Clone, Copy, PartialEq, Eq, Structural, Debug)]
pub struct OscParams {
    pub shape: Waveform,
    /// Pitch shift in fixed-point octaves.
    pub octaves: i64,
    /// Pitch shift in fixed-point semitones.
    pub semitones: i64,
    /// Pitch shift in fixed-point cents.
    pub cents: i64,
    /// Oscillator amplitude, a fraction in `[0, FX_ONE]`.
    pub amplitude: i64,
}

/// Envelope generator parameters, times in fixed-point seconds.
#[derive(Clone, Copy, PartialEq, Eq, Structural, Debug)]
pub struct EgParams {
    pub attack: i64,
    pub decay: i64,
    pub sustain: i64,
    pub release: i64,
    /// How strongly the envelope drives the amplifier.
    pub dca_intensity: i64,
}

/// Filter parameters.
#[derive(Clone, Copy, PartialEq, Eq, Structural, Debug)]
pub struct FilterParams {
    pub mode: FilterMode,
    /// Cutoff in fixed-point hertz.
    pub cutoff: i64,
    /// Resonance control, kept for the descriptor surface.
    pub q: i64,
}

/// Amplifier and panner parameters.
#[derive(Clone, Copy, PartialEq, Eq, Structural, Debug)]
pub struct DcaParams {
    /// Linear gain in `[0, FX_ONE]`.
    pub amplitude: i64,
    /// Pan position in `[-FX_ONE, FX_ONE]`, left negative.
    pub pan: i64,
}

/// LFO parameters and its modulation routing depths.
#[derive(Clone, Copy, PartialEq, Eq, Structural, Debug)]
pub struct LfoParams {
    pub shape: Waveform,
    /// Rate in fixed-point hertz.
    pub rate: i64,
    /// Starting phase, a fraction of a period in `[0, FX_ONE]`.
    pub phase: i64,
    /// Output depth, a fraction in `[0, FX_ONE]`.
    pub depth: i64,
    /// Routing depth into oscillator pitch, fixed-point semitones.
    pub osc_pitch_mod: i64,
    /// Routing depth into the filter cutoff, fixed-point hertz.
    pub filter_cutoff_mod: i64,
    /// Routing depth into the amplifier gain.
    pub dca_amp_mod: i64,
    /// Routing depth into the pan position.
    pub dca_pan_mod: i64,
}

/// Delay effect parameters.
#[derive(Clone, Copy, PartialEq, Eq, Structural, Debug)]
pub struct DelayParams {
    /// Delay time in fixed-point seconds.
    pub time: i64,
    pub feedback: i64,
    pub mix: i64,
}

/// A whole patch.
#[derive(Clone, Copy, PartialEq, Eq, Structural, Debug)]
pub struct Program {
    pub osc: OscParams,
    pub eg: EgParams,
    pub filter: FilterParams,
    pub dca: DcaParams,
    pub lfo: LfoParams,
    pub delay: DelayParams,
}

/// A parameter's description for UI binding.
#[derive(Clone, Copy, PartialEq, Eq, Structural, Debug)]
pub struct ParamDescriptor {
    pub param: ParamRef,
    pub min: i64,
    pub max: i64,
    pub step: i64,
    pub default: i64,
    pub origin: i64,
}

/// The declared range of each parameter, `(min, max)`.
pub open spec fn param_range_spec(param: ParamRef) -> (int, int) {
    let f = FX_ONE as int;
    match param {
        ParamRef::OscShape => (0, 3),
        ParamRef::OscOctaves => (-4 * f, 4 * f),
        ParamRef::OscSemitones => (-12 * f, 12 * f),
        ParamRef::OscCents => (-100 * f, 100 * f),
        ParamRef::OscAmplitude => (0, f),
        ParamRef::EgAttack => (0, 10 * f),
        ParamRef::EgDecay => (0, 10 * f),
        ParamRef::EgSustain => (0, f),
        ParamRef::EgRelease => (0, 10 * f),
        ParamRef::EgDcaIntensity => (0, f),
        ParamRef::FilterMode => (0, 1),
        ParamRef::FilterCutoff => (0, 20000 * f),
        ParamRef::FilterQ => (0, 10 * f),
        ParamRef::DcaAmplitude => (0, f),
        ParamRef::DcaPan => (-f, f),
        ParamRef::LfoShape => (0, 3),
        ParamRef::LfoRate => (0, 50 * f),
        ParamRef::LfoPhase => (0, f),
        ParamRef::LfoDepth => (0, f),
        ParamRef::LfoOscPitchMod => (-12 * f, 12 * f),
        ParamRef::LfoFilterCutoffMod => (-5000 * f, 5000 * f),
        ParamRef::LfoDcaAmpMod => (-f, f),
        ParamRef::LfoDcaPanMod => (-f, f),
        ParamRef::DelayTime => (0, f),
        ParamRef::DelayFeedback => (0, f),
        ParamRef::DelayMix => (0, f),
    }
}

/// The default value of each parameter: what a fresh program holds.
pub open spec fn param_default_spec(param: ParamRef) -> int {
    let f = FX_ONE as int;
    match param {
        ParamRef::OscAmplitude => f,
        ParamRef::EgSustain => f,
        ParamRef::EgDcaIntensity => f,
        ParamRef::FilterCutoff => 20000 * f,
        ParamRef::FilterQ => f,
        ParamRef::DcaAmplitude => f,
        ParamRef::LfoRate => f,
        _ => 0,
    }
}

/// The step each parameter's descriptor advertises: whole steps for the
/// discrete selectors, a hundredth otherwise.
pub open spec fn param_step_spec(param: ParamRef) -> int {
    match param {
        ParamRef::OscShape => 1,
        ParamRef::LfoShape => 1,
        ParamRef::FilterMode => 1,
        _ => FX_ONE as int / 100,
    }
}

/// The catalog order of the parameters.
pub open spec fn param_order_spec(i: int) -> ParamRef {
    if i == 0 { ParamRef::OscShape }
    else if i == 1 { ParamRef::OscOctaves }
    else if i == 2 { ParamRef::OscSemitones }
    else if i == 3 { ParamRef::OscCents }
    else if i == 4 { ParamRef::OscAmplitude }
    else if i == 5 { ParamRef::EgAttack }
    else if i == 6 { ParamRef::EgDecay }
    else if i == 7 { ParamRef::EgSustain }
    else if i == 8 { ParamRef::EgRelease }
    else if i == 9 { ParamRef::EgDcaIntensity }
    else if i == 10 { ParamRef::FilterMode }
    else if i == 11 { ParamRef::FilterCutoff }
    else if i == 12 { ParamRef::FilterQ }
    else if i == 13 { ParamRef::DcaAmplitude }
    else if i == 14 { ParamRef::DcaPan }
    else if i == 15 { ParamRef::LfoShape }
    else if i == 16 { ParamRef::LfoRate }
    else if i == 17 { ParamRef::LfoPhase }
    else if i == 18 { ParamRef::LfoDepth }
    else if i == 19 { ParamRef::LfoOscPitchMod }
    else if i == 20 { ParamRef::LfoFilterCutoffMod }
    else if i == 21 { ParamRef::LfoDcaAmpMod }
    else if i == 22 { ParamRef::LfoDcaPanMod }
    else if i == 23 { ParamRef::DelayTime }
    else if i == 24 { ParamRef::DelayFeedback }
    else { ParamRef::DelayMix }
}

/// A value clamped into a parameter's range.
pub open spec fn clamp_to_range_spec(value: int, param: ParamRef) -> int {
    let lo = param_range_spec(param).0;
    let hi = param_range_spec(param).1;
    if value < lo {
        lo
    } else if value > hi {
        hi
    } else {
        value
    }
}

/// The waveform a shape index selects; out-of-catalog indexes are the sine.
pub open spec fn waveform_of_index_spec(value: int) -> Waveform {
    if value == 1 {
        Waveform::Triangle
    } else if value == 2 {
        Waveform::Saw
    } else if value == 3 {
        Waveform::Square
    } else {
        Waveform::Sine
    }
}

/// The filter mode a value selects.
pub open spec fn filter_mode_of_index_spec(value: int) -> FilterMode {
    if value >= 1 {
        FilterMode::LowPass
    } else {
        FilterMode::Bypass
    }
}

/// The program after a parameter change: the value is clamped into the
/// parameter's range and written to the addressed field; everything else is
/// untouched.
pub open spec fn apply_param_spec(p: Program, param: ParamRef, value: int) -> Program {
    let v = clamp_to_range_spec(value, param);
    match param {
        ParamRef::OscShape => Program {
            osc: OscParams { shape: waveform_of_index_spec(v), ..p.osc },
            ..p
        },
        ParamRef::OscOctaves => Program { osc: OscParams { octaves: v as i64, ..p.osc }, ..p },
        ParamRef::OscSemitones => Program { osc: OscParams { semitones: v as i64, ..p.osc }, ..p },
        ParamRef::OscCents => Program { osc: OscParams { cents: v as i64, ..p.osc }, ..p },
        ParamRef::OscAmplitude => Program { osc: OscParams { amplitude: v as i64, ..p.osc }, ..p },
        ParamRef::EgAttack => Program { eg: EgParams { attack: v as i64, ..p.eg }, ..p },
        ParamRef::EgDecay => Program { eg: EgParams { decay: v as i64, ..p.eg }, ..p },
        ParamRef::EgSustain => Program { eg: EgParams { sustain: v as i64, ..p.eg }, ..p },
        ParamRef::EgRelease => Program { eg: EgParams { release: v as i64, ..p.eg }, ..p },
        ParamRef::EgDcaIntensity => Program {
            eg: EgParams { dca_intensity: v as i64, ..p.eg },
            ..p
        },
        ParamRef::FilterMode => Program {
            filter: FilterParams { mode: filter_mode_of_index_spec(v), ..p.filter },
            ..p
        },
        ParamRef::FilterCutoff => Program {
            filter: FilterParams { cutoff: v as i64, ..p.filter },
            ..p
        },
        ParamRef::FilterQ => Program { filter: FilterParams { q: v as i64, ..p.filter }, ..p },
        ParamRef::DcaAmplitude => Program { dca: DcaParams { amplitude: v as i64, ..p.dca }, ..p },
        ParamRef::DcaPan => Program { dca: DcaParams { pan: v as i64, ..p.dca }, ..p },
        ParamRef::LfoShape => Program {
            lfo: LfoParams { shape: waveform_of_index_spec(v), ..p.lfo },
            ..p
        },
        ParamRef::LfoRate => Program { lfo: LfoParams { rate: v as i64, ..p.lfo }, ..p },
        ParamRef::LfoPhase => Program { lfo: LfoParams { phase: v as i64, ..p.lfo }, ..p },
        ParamRef::LfoDepth => Program { lfo: LfoParams { depth: v as i64, ..p.lfo }, ..p },
        ParamRef::LfoOscPitchMod => Program {
            lfo: LfoParams { osc_pitch_mod: v as i64, ..p.lfo },
            ..p
        },
        ParamRef::LfoFilterCutoffMod => Program {
            lfo: LfoParams { filter_cutoff_mod: v as i64, ..p.lfo },
            ..p
        },
        ParamRef::LfoDcaAmpMod => Program {
            lfo: LfoParams { dca_amp_mod: v as i64, ..p.lfo },
            ..p
        },
        ParamRef::LfoDcaPanMod => Program {
            lfo: LfoParams { dca_pan_mod: v as i64, ..p.lfo },
            ..p
        },
        ParamRef::DelayTime => Program { delay: DelayParams { time: v as i64, ..p.delay }, ..p },
        ParamRef::DelayFeedback => Program {
            delay: DelayParams { feedback: v as i64, ..p.delay },
            ..p
        },
        ParamRef::DelayMix => Program { delay: DelayParams { mix: v as i64, ..p.delay }, ..p },
    }
}

/// Whether a value sits inside a parameter's declared range.
pub open spec fn within_range_spec(value: int, param: ParamRef) -> bool {
    param_range_spec(param).0 <= value <= param_range_spec(param).1
}

impl Program {
    /// Every numeric parameter sits inside its declared range.
    pub open spec fn wf(self) -> bool {
        &&& within_range_spec(self.osc.octaves as int, ParamRef::OscOctaves)
        &&& within_range_spec(self.osc.semitones as int, ParamRef::OscSemitones)
        &&& within_range_spec(self.osc.cents as int, ParamRef::OscCents)
        &&& within_range_spec(self.osc.amplitude as int, ParamRef::OscAmplitude)
        &&& within_range_spec(self.eg.attack as int, ParamRef::EgAttack)
        &&& within_range_spec(self.eg.decay as int, ParamRef::EgDecay)
        &&& within_range_spec(self.eg.sustain as int, ParamRef::EgSustain)
        &&& within_range_spec(self.eg.release as int, ParamRef::EgRelease)
        &&& within_range_spec(self.eg.dca_intensity as int, ParamRef::EgDcaIntensity)
        &&& within_range_spec(self.filter.cutoff as int, ParamRef::FilterCutoff)
        &&& within_range_spec(self.filter.q as int, ParamRef::FilterQ)
        &&& within_range_spec(self.dca.amplitude as int, ParamRef::DcaAmplitude)
        &&& within_range_spec(self.dca.pan as int, ParamRef::DcaPan)
        &&& within_range_spec(self.lfo.rate as int, ParamRef::LfoRate)
        &&& within_range_spec(self.lfo.phase as int, ParamRef::LfoPhase)
        &&& within_range_spec(self.lfo.depth as int, ParamRef::LfoDepth)
        &&& within_range_spec(self.lfo.osc_pitch_mod as int, ParamRef::LfoOscPitchMod)
        &&& within_range_spec(self.lfo.filter_cutoff_mod as int, ParamRef::LfoFilterCutoffMod)
        &&& within_range_spec(self.lfo.dca_amp_mod as int, ParamRef::LfoDcaAmpMod)
        &&& within_range_spec(self.lfo.dca_pan_mod as int, ParamRef::LfoDcaPanMod)
        &&& within_range_spec(self.delay.time as int, ParamRef::DelayTime)
        &&& within_range_spec(self.delay.feedback as int, ParamRef::DelayFeedback)
        &&& within_range_spec(self.delay.mix as int, ParamRef::DelayMix)
    }

    /// The program after one clamped parameter change.
    pub fn with_param(&self, param: ParamRef, value: i64) -> (r: Program)
        requires
            self.wf(),
        ensures
            r == apply_param_spec(*self, param, value as int),
            r.wf(),
    {
        let (lo, hi) = param_bounds(param);
        let v: i64 = if value < lo {
            lo
        } else if value > hi {
            hi
        } else {
            value
        };
        let mut r = *self;
        match param {
            ParamRef::OscShape => {
                r.osc.shape = waveform_of_value(v);
            },
            ParamRef::OscOctaves => {
                r.osc.octaves = v;
            },
            ParamRef::OscSemitones => {
                r.osc.semitones = v;
            },
            ParamRef::OscCents => {
                r.osc.cents = v;
            },
            ParamRef::OscAmplitude => {
                r.osc.amplitude = v;
            },
            ParamRef::EgAttack => {
                r.eg.attack = v;
            },
            ParamRef::EgDecay => {
                r.eg.decay = v;
            },
            ParamRef::EgSustain => {
                r.eg.sustain = v;
            },
            ParamRef::EgRelease => {
                r.eg.release = v;
            },
            ParamRef::EgDcaIntensity => {
                r.eg.dca_intensity = v;
            },
            ParamRef::FilterMode => {
                r.filter.mode = if v >= 1 {
                    FilterMode::LowPass
                } else {
                    FilterMode::Bypass
                };
            },
            ParamRef::FilterCutoff => {
                r.filter.cutoff = v;
            },
            ParamRef::FilterQ => {
                r.filter.q = v;
            },
            ParamRef::DcaAmplitude => {
                r.dca.amplitude = v;
            },
            ParamRef::DcaPan => {
                r.dca.pan = v;
            },
            ParamRef::LfoShape => {
                r.lfo.shape = waveform_of_value(v);
            },
            ParamRef::LfoRate => {
                r.lfo.rate = v;
            },
            ParamRef::LfoPhase => {
                r.lfo.phase = v;
            },
            ParamRef::LfoDepth => {
                r.lfo.depth = v;
            },
            ParamRef::LfoOscPitchMod => {
                r.lfo.osc_pitch_mod = v;
            },
            ParamRef::LfoFilterCutoffMod => {
                r.lfo.filter_cutoff_mod = v;
            },
            ParamRef::LfoDcaAmpMod => {
                r.lfo.dca_amp_mod = v;
            },
            ParamRef::LfoDcaPanMod => {
                r.lfo.dca_pan_mod = v;
            },
            ParamRef::DelayTime => {
                r.delay.time = v;
            },
            ParamRef::DelayFeedback => {
                r.delay.feedback = v;
            },
            ParamRef::DelayMix => {
                r.delay.mix = v;
            },
        }
        r
    }
}

/// The fresh program as a value: one sine oscillator at full amplitude,
/// instant envelope at full sustain, no filter, centre pan, idle LFO, delay
/// fully dry.
pub open spec fn default_program_spec() -> Program {
    Program {
        osc: OscParams {
            shape: Waveform::Sine,
            octaves: 0,
            semitones: 0,
            cents: 0,
            amplitude: FX_ONE,
        },
        eg: EgParams { attack: 0, decay: 0, sustain: FX_ONE, release: 0, dca_intensity: FX_ONE },
        filter: FilterParams { mode: FilterMode::Bypass, cutoff: (20000 * FX_ONE) as i64, q: FX_ONE },
        dca: DcaParams { amplitude: FX_ONE, pan: 0 },
        lfo: LfoParams {
            shape: Waveform::Sine,
            rate: FX_ONE,
            phase: 0,
            depth: 0,
            osc_pitch_mod: 0,
            filter_cutoff_mod: 0,
            dca_amp_mod: 0,
            dca_pan_mod: 0,
        },
        delay: DelayParams { time: 0, feedback: 0, mix: 0 },
    }
}

/// A fresh program: one sine oscillator at full amplitude, instant envelope
/// at full sustain, no filter, centre pan, idle LFO, delay fully dry.
pub fn default_program() -> (r: Program)
    ensures
        r == default_program_spec(),
        r.osc.shape == Waveform::Sine,
        r.osc.octaves == 0,
        r.osc.semitones == 0,
        r.osc.cents == 0,
        r.osc.amplitude == FX_ONE,
        r.eg.attack == 0,
        r.eg.decay == 0,
        r.eg.sustain == FX_ONE,
        r.eg.release == 0,
        r.eg.dca_intensity == FX_ONE,
        r.filter.mode == FilterMode::Bypass,
        r.filter.cutoff as int == 20000 * FX_ONE as int,
        r.filter.q == FX_ONE,
        r.dca.amplitude == FX_ONE,
        r.dca.pan == 0,
        r.lfo.shape == Waveform::Sine,
        r.lfo.rate == FX_ONE,
        r.lfo.phase == 0,
        r.lfo.depth == 0,
        r.lfo.osc_pitch_mod == 0,
        r.lfo.filter_cutoff_mod == 0,
        r.lfo.dca_amp_mod == 0,
        r.lfo.dca_pan_mod == 0,
        r.delay.time == 0,
        r.delay.feedback == 0,
        r.delay.mix == 0,
        r.wf(),
{
    Program {
        osc: OscParams {
            shape: Waveform::Sine,
            octaves: 0,
            semitones: 0,
            cents: 0,
            amplitude: FX_ONE,
        },
        eg: EgParams {
            attack: 0,
            decay: 0,
            sustain: FX_ONE,
            release: 0,
            dca_intensity: FX_ONE,
        },
        filter: FilterParams { mode: FilterMode::Bypass, cutoff: 20000 * FX_ONE, q: FX_ONE },
        dca: DcaParams { amplitude: FX_ONE, pan: 0 },
        lfo: LfoParams {
            shape: Waveform::Sine,
            rate: FX_ONE,
            phase: 0,
            depth: 0,
            osc_pitch_mod: 0,
            filter_cutoff_mod: 0,
            dca_amp_mod: 0,
            dca_pan_mod: 0,
        },
        delay: DelayParams { time: 0, feedback: 0, mix: 0 },
    }
}

/// The bounds of a parameter's range, for clamping and for descriptors.
pub fn param_bounds(param: ParamRef) -> (r: (i64, i64))
    ensures
        r.0 as int == param_range_spec(param).0,
        r.1 as int == param_range_spec(param).1,
        r.0 <= r.1,
{
    match param {
        ParamRef::OscShape => (0, 3),
        ParamRef::OscOctaves => (-4 * FX_ONE, 4 * FX_ONE),
        ParamRef::OscSemitones => (-12 * FX_ONE, 12 * FX_ONE),
        ParamRef::OscCents => (-100 * FX_ONE, 100 * FX_ONE),
        ParamRef::OscAmplitude => (0, FX_ONE),
        ParamRef::EgAttack => (0, 10 * FX_ONE),
        ParamRef::EgDecay => (0, 10 * FX_ONE),
        ParamRef::EgSustain => (0, FX_ONE),
        ParamRef::EgRelease => (0, 10 * FX_ONE),
        ParamRef::EgDcaIntensity => (0, FX_ONE),
        ParamRef::FilterMode => (0, 1),
        ParamRef::FilterCutoff => (0, 20000 * FX_ONE),
        ParamRef::FilterQ => (0, 10 * FX_ONE),
        ParamRef::DcaAmplitude => (0, FX_ONE),
        ParamRef::DcaPan => (-FX_ONE, FX_ONE),
        ParamRef::LfoShape => (0, 3),
        ParamRef::LfoRate => (0, 50 * FX_ONE),
        ParamRef::LfoPhase => (0, FX_ONE),
        ParamRef::LfoDepth => (0, FX_ONE),
        ParamRef::LfoOscPitchMod => (-12 * FX_ONE, 12 * FX_ONE),
        ParamRef::LfoFilterCutoffMod => (-5000 * FX_ONE, 5000 * FX_ONE),
        ParamRef::LfoDcaAmpMod => (-FX_ONE, FX_ONE),
        ParamRef::LfoDcaPanMod => (-FX_ONE, FX_ONE),
        ParamRef::DelayTime => (0, FX_ONE),
        ParamRef::DelayFeedback => (0, FX_ONE),
        ParamRef::DelayMix => (0, FX_ONE),
    }
}

/// The waveform a shape value selects.
fn waveform_of_value(v: i64) -> (r: Waveform)
    ensures
        r == waveform_of_index_spec(v as int),
{
    if v == 1 {
        Waveform::Triangle
    } else if v == 2 {
        Waveform::Saw
    } else if v == 3 {
        Waveform::Square
    } else {
        Waveform::Sine
    }
}

/// The descriptor of one parameter: its range, step, default and origin.
pub fn descriptor_for(param: ParamRef) -> (r: ParamDescriptor)
    ensures
        r.param == param,
        r.min as int == param_range_spec(param).0,
        r.max as int == param_range_spec(param).1,
        r.step as int == param_step_spec(param),
        r.default as int == param_default_spec(param),
        r.origin == r.default,
{
    let (lo, hi) = param_bounds(param);
    let dflt: i64 = match param {
        ParamRef::OscAmplitude => FX_ONE,
        ParamRef::EgSustain => FX_ONE,
        ParamRef::EgDcaIntensity => FX_ONE,
        ParamRef::FilterCutoff => 20000 * FX_ONE,
        ParamRef::FilterQ => FX_ONE,
        ParamRef::DcaAmplitude => FX_ONE,
        ParamRef::LfoRate => FX_ONE,
        _ => 0,
    };
    let step: i64 = match param {
        ParamRef::OscShape | ParamRef::LfoShape | ParamRef::FilterMode => 1,
        _ => FX_ONE / 100,
    };
    ParamDescriptor { param, min: lo, max: hi, step, default: dflt, origin: dflt }
}

/// The full catalog of parameter descriptors, for UI binding: one for each
/// parameter, in catalog order, each carrying that parameter's range, step
/// and default.
pub fn descriptors() -> (r: Vec<ParamDescriptor>)
    ensures
        r@.len() == 26,
        forall|i: int| 0 <= i < 26 ==> {
            let d = #[trigger] r@[i];
            d.param == param_order_spec(i) && d.min as int == param_range_spec(d.param).0
                && d.max as int == param_range_spec(d.param).1 && d.step as int
                == param_step_spec(d.param) && d.default as int == param_default_spec(d.param)
                && d.origin == d.default
        },
{
    let refs = param_refs();
    let mut out: Vec<ParamDescriptor> = Vec::new();
    let mut i: usize = 0;
    while i < refs.len()
        invariant
            out@.len() == i,
            i <= refs@.len(),
            refs@.len() == 26,
            forall|j: int| 0 <= j < refs@.len() ==> #[trigger] refs@[j] == param_order_spec(j),
            forall|j: int| 0 <= j < i ==> {
                let d = #[trigger] out@[j];
                d.param == param_order_spec(j) && d.min as int == param_range_spec(d.param).0
                    && d.max as int == param_range_spec(d.param).1 && d.step as int
                    == param_step_spec(d.param) && d.default as int == param_default_spec(d.param)
                    && d.origin == d.default
            },
        decreases refs@.len() - i,
    {
        out.push(descriptor_for(refs[i]));
        i = i + 1;
    }
    out
}

/// Every parameter reference, in catalog order.
pub fn param_refs() -> (r: Vec<ParamRef>)
    ensures
        r@.len() == 26,
        forall|i: int| 0 <= i < 26 ==> #[trigger] r@[i] == param_order_spec(i),
{
    let mut v: Vec<ParamRef> = Vec::new();
    v.push(ParamRef::OscShape);
    v.push(ParamRef::OscOctaves);
    v.push(ParamRef::OscSemitones);
    v.push(ParamRef::OscCents);
    v.push(ParamRef::OscAmplitude);
    v.push(ParamRef::EgAttack);
    v.push(ParamRef::EgDecay);
    v.push(ParamRef::EgSustain);
    v.push(ParamRef::EgRelease);
    v.push(ParamRef::EgDcaIntensity);
    v.push(ParamRef::FilterMode);
    v.push(ParamRef::FilterCutoff);
    v.push(ParamRef::FilterQ);
    v.push(ParamRef::DcaAmplitude);
    v.push(ParamRef::DcaPan);
    v.push(ParamRef::LfoShape);
    v.push(ParamRef::LfoRate);
    v.push(ParamRef::LfoPhase);
    v.push(ParamRef::LfoDepth);
    v.push(ParamRef::LfoOscPitchMod);
    v.push(ParamRef::LfoFilterCutoffMod);
    v.push(ParamRef::LfoDcaAmpMod);
    v.push(ParamRef::LfoDcaPanMod);
    v.push(ParamRef::DelayTime);
    v.push(ParamRef::DelayFeedback);
    v.push(ParamRef::DelayMix);
    v
}

} // verus!
