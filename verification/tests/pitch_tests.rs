use kiro_synth::envelope::{EgStage, EnvGen};
use kiro_synth::fixed::{fx_mul, FX_ONE};
use kiro_synth::oscillator::{
    note_frequency, waveform_from_index, waveform_name, waveform_value, Waveform, PHASE_HALF,
    PHASE_ONE,
};
use kiro_synth::pitch::OscPitchShift;

#[test]
fn multiplier_with_no_shift_is_one() {
    let shift = OscPitchShift::default();
    assert_eq!(shift.multiplier(), FX_ONE);
}

#[test]
fn one_octave_doubles() {
    let mut shift = OscPitchShift::default();
    shift.set_octaves(FX_ONE);
    assert_eq!(shift.multiplier(), 2 * FX_ONE);
}

#[test]
fn twelve_semitones_double() {
    let mut shift = OscPitchShift::default();
    shift.set_semitones(12 * FX_ONE);
    assert_eq!(shift.multiplier(), 2 * FX_ONE);
}

#[test]
fn twelve_hundred_cents_double() {
    let mut shift = OscPitchShift::default();
    shift.set_cents(1200 * FX_ONE);
    assert_eq!(shift.multiplier(), 2 * FX_ONE);
}

#[test]
fn pitch_bend_and_modulation_shift_too() {
    let mut shift = OscPitchShift::default();
    shift.set_pitch_bend(12 * FX_ONE);
    assert_eq!(shift.multiplier(), 2 * FX_ONE);
    shift.set_pitch_bend(0);
    shift.set_modulation(12 * FX_ONE);
    assert_eq!(shift.multiplier(), 2 * FX_ONE);
}

#[test]
fn negative_octave_halves() {
    let mut shift = OscPitchShift::default();
    shift.set_octaves(-FX_ONE);
    assert_eq!(shift.multiplier(), FX_ONE / 2);
}

#[test]
fn contributions_combine_additively() {
    // One octave down and twenty-four semitones up is one octave up.
    let mut shift = OscPitchShift::default();
    shift.set_octaves(-FX_ONE);
    shift.set_semitones(24 * FX_ONE);
    assert_eq!(shift.multiplier(), 2 * FX_ONE);
}

#[test]
fn multiplier_is_monotonic_in_each_contribution() {
    let mut previous = 0i64;
    for k in 0..25 {
        let mut shift = OscPitchShift::default();
        shift.set_semitones(k * FX_ONE);
        let m = shift.multiplier();
        assert!(m >= previous);
        previous = m;
    }
    let mut previous = 0i64;
    for k in -4..5 {
        let mut shift = OscPitchShift::default();
        shift.set_octaves(k * FX_ONE);
        let m = shift.multiplier();
        assert!(m >= previous);
        previous = m;
    }
}

#[test]
fn multiplier_is_always_positive() {
    let mut shift = OscPitchShift::default();
    shift.set_octaves(-16 * FX_ONE);
    shift.set_semitones(-192 * FX_ONE);
    shift.set_pitch_bend(-192 * FX_ONE);
    assert!(shift.multiplier() >= 1);
}

#[test]
fn cents_scale_down_by_a_hundred() {
    let mut shift = OscPitchShift::default();
    shift.set_cents(250);
    assert_eq!(shift.cents_shift, 2);
    shift.set_cents(-250);
    assert_eq!(shift.cents_shift, -2);
}

#[test]
fn octaves_scale_to_twelve_semitones() {
    let mut shift = OscPitchShift::default();
    shift.set_octaves(FX_ONE / 2);
    assert_eq!(shift.octaves_shift, 6 * FX_ONE);
}

#[test]
fn note_frequencies_follow_equal_temperament() {
    assert_eq!(note_frequency(69), 440 * FX_ONE);
    assert_eq!(note_frequency(81), 880 * FX_ONE);
    assert_eq!(note_frequency(57), 220 * FX_ONE);
}

#[test]
fn waveform_values_at_landmarks() {
    let quarter = PHASE_HALF / 2;
    assert_eq!(waveform_value(Waveform::Square, 0), FX_ONE);
    assert_eq!(waveform_value(Waveform::Square, PHASE_HALF), -FX_ONE);
    assert_eq!(waveform_value(Waveform::Saw, 0), -FX_ONE);
    assert_eq!(waveform_value(Waveform::Saw, PHASE_HALF), 0);
    assert_eq!(waveform_value(Waveform::Triangle, 0), -FX_ONE);
    assert_eq!(waveform_value(Waveform::Triangle, quarter), 0);
    assert_eq!(waveform_value(Waveform::Triangle, PHASE_HALF), FX_ONE);
    assert_eq!(waveform_value(Waveform::Sine, 0), 0);
    assert_eq!(waveform_value(Waveform::Sine, quarter), FX_ONE);
    assert_eq!(waveform_value(Waveform::Sine, PHASE_HALF), 0);
    assert_eq!(waveform_value(Waveform::Sine, PHASE_HALF + quarter), -FX_ONE);
    assert!(waveform_value(Waveform::Sine, PHASE_ONE - 1) <= 0);
}

#[test]
fn waveform_catalog_names() {
    assert_eq!(waveform_name(0), "sine");
    assert_eq!(waveform_name(1), "triangle");
    assert_eq!(waveform_name(2), "saw");
    assert_eq!(waveform_name(3), "square");
    assert_eq!(waveform_name(9), "");
    assert_eq!(waveform_from_index(2), Waveform::Saw);
    assert_eq!(waveform_from_index(9), Waveform::Sine);
}

#[test]
fn fx_mul_truncates_toward_zero() {
    assert_eq!(fx_mul(FX_ONE, FX_ONE), FX_ONE);
    assert_eq!(fx_mul(-FX_ONE, FX_ONE / 2), -FX_ONE / 2);
    assert_eq!(fx_mul(3, 3), 0);
    assert_eq!(fx_mul(-3, 3), 0);
    assert_eq!(fx_mul(100 * FX_ONE, -FX_ONE), -100 * FX_ONE);
}

#[test]
fn envelope_walks_its_stages() {
    let mut eg = EnvGen::new(2, 2, FX_ONE / 2, 2);
    assert_eq!(eg.stage, EgStage::Idle);
    assert!(!eg.is_sounding());
    eg.note_on();
    assert_eq!(eg.stage, EgStage::Attack);
    assert_eq!(eg.step(), FX_ONE / 2);
    assert_eq!(eg.stage, EgStage::Attack);
    assert_eq!(eg.step(), FX_ONE);
    assert_eq!(eg.stage, EgStage::Decay);
    assert_eq!(eg.step(), FX_ONE - FX_ONE / 4);
    assert_eq!(eg.step(), FX_ONE / 2);
    assert_eq!(eg.stage, EgStage::Sustain);
    assert_eq!(eg.step(), FX_ONE / 2);
    assert_eq!(eg.stage, EgStage::Sustain);
    eg.note_off();
    assert_eq!(eg.stage, EgStage::Release);
    assert_eq!(eg.step(), FX_ONE / 4);
    assert_eq!(eg.step(), 0);
    assert_eq!(eg.stage, EgStage::Idle);
    assert!(!eg.is_sounding());
}

#[test]
fn envelope_note_off_before_sustain_releases_from_current_level() {
    let mut eg = EnvGen::new(4, 4, FX_ONE / 2, 2);
    eg.note_on();
    eg.step();
    assert_eq!(eg.level, FX_ONE / 4);
    eg.note_off();
    assert_eq!(eg.stage, EgStage::Release);
    assert_eq!(eg.release_start, FX_ONE / 4);
    assert_eq!(eg.step(), FX_ONE / 8);
    assert_eq!(eg.step(), 0);
    assert_eq!(eg.stage, EgStage::Idle);
}
