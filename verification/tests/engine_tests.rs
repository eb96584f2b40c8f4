use kiro_synth::event::{Event, ParamRef};
use kiro_synth::fixed::FX_ONE;
use kiro_synth::program::{default_program, descriptor_for, descriptors, FilterMode};
use kiro_synth::synth::{Frame, Synth};
use kiro_synth::voice::VoiceState;

fn note_on(pitch: u8, velocity: i64) -> Event {
    Event::NoteOn { pitch, velocity }
}

fn note_off(pitch: u8) -> Event {
    Event::NoteOff { pitch }
}

fn param(param: ParamRef, value: i64) -> Event {
    Event::ParamChange { param, value }
}

#[test]
fn voice_lifecycle_active_releasing_free() {
    let mut synth = Synth::new(100, 2, 16);
    // A one-second release so the releasing stage is observable.
    synth.enqueue(param(ParamRef::EgRelease, FX_ONE));
    synth.enqueue(note_on(69, FX_ONE));
    synth.process_block(4);
    assert_eq!(synth.voices[0].state, VoiceState::Active);
    assert_eq!(synth.voices[0].pitch, 69);
    assert_eq!(synth.voices[1].state, VoiceState::Free);

    synth.enqueue(note_off(69));
    synth.process_block(4);
    assert_eq!(synth.voices[0].state, VoiceState::Releasing);

    // The release runs out within 100 samples; the voice frees exactly once.
    synth.process_block(200);
    assert_eq!(synth.voices[0].state, VoiceState::Free);

    // A second note-off for the same pitch is a no-op.
    let before = synth.voices[0];
    synth.enqueue(note_off(69));
    synth.process_block(1);
    assert_eq!(synth.voices[0].state, VoiceState::Free);
    assert_eq!(synth.voices[0].pitch, before.pitch);
}

#[test]
fn note_off_without_matching_voice_is_ignored() {
    let mut synth = Synth::new(100, 2, 16);
    synth.enqueue(note_on(60, FX_ONE));
    synth.enqueue(note_off(61));
    synth.process_block(1);
    assert_eq!(synth.voices[0].state, VoiceState::Active);
    assert_eq!(synth.voices[0].pitch, 60);
}

#[test]
fn note_on_with_unplayable_pitch_is_ignored() {
    let mut synth = Synth::new(100, 2, 16);
    synth.enqueue(note_on(200, FX_ONE));
    synth.process_block(1);
    assert_eq!(synth.voices[0].state, VoiceState::Free);
    assert_eq!(synth.voices[1].state, VoiceState::Free);
}

#[test]
fn full_pool_steals_a_voice_instead_of_rejecting() {
    let mut synth = Synth::new(100, 2, 16);
    synth.enqueue(note_on(60, FX_ONE));
    synth.enqueue(note_on(64, FX_ONE));
    synth.process_block(8);
    assert_eq!(synth.voices[0].state, VoiceState::Active);
    assert_eq!(synth.voices[1].state, VoiceState::Active);

    // The pool is full: the oldest Active voice is stolen, never a rejection.
    synth.enqueue(note_on(67, FX_ONE));
    synth.process_block(1);
    let pitches: Vec<u8> = synth.voices.iter().map(|v| v.pitch).collect();
    assert!(pitches.contains(&67));
    assert_eq!(synth.voices[0].state, VoiceState::Active);
    assert_eq!(synth.voices[1].state, VoiceState::Active);
    assert_eq!(synth.voices[0].pitch, 67);
    assert_eq!(synth.voices[1].pitch, 64);
}

#[test]
fn releasing_voice_is_stolen_before_active() {
    let mut synth = Synth::new(100, 2, 16);
    synth.enqueue(param(ParamRef::EgRelease, FX_ONE));
    synth.enqueue(note_on(60, FX_ONE));
    synth.enqueue(note_on(64, FX_ONE));
    synth.process_block(2);
    synth.enqueue(note_off(60));
    synth.process_block(2);
    assert_eq!(synth.voices[0].state, VoiceState::Releasing);

    synth.enqueue(note_on(67, FX_ONE));
    synth.process_block(1);
    assert_eq!(synth.voices[0].pitch, 67);
    assert_eq!(synth.voices[0].state, VoiceState::Active);
    assert_eq!(synth.voices[1].pitch, 64);
}

#[test]
fn single_voice_pool_always_answers_note_on() {
    let mut synth = Synth::new(100, 1, 8);
    synth.enqueue(note_on(60, FX_ONE));
    synth.process_block(2);
    assert_eq!(synth.voices[0].pitch, 60);
    synth.enqueue(note_on(72, FX_ONE / 2));
    synth.process_block(1);
    assert_eq!(synth.voices[0].state, VoiceState::Active);
    assert_eq!(synth.voices[0].pitch, 72);
    assert_eq!(synth.voices[0].velocity, FX_ONE / 2);
}

#[test]
fn sine_note_sounds_at_its_fundamental() {
    // One sine voice at A4 with no filter and no delay: over one second the
    // output's fundamental, counted by zero crossings, is 440 Hz.
    let sample_rate = 44100u32;
    let mut synth = Synth::new(sample_rate, 1, 16);
    synth.enqueue(note_on(69, FX_ONE));
    let frames = synth.process_block(sample_rate as usize);
    assert_eq!(frames.len(), sample_rate as usize);

    let mut crossings = 0u32;
    let mut last_sign = 0i64;
    for f in &frames {
        let sign = if f.left > 0 {
            1
        } else if f.left < 0 {
            -1
        } else {
            0
        };
        if sign != 0 {
            if last_sign != 0 && sign != last_sign {
                crossings += 1;
            }
            last_sign = sign;
        }
    }
    // Two crossings per cycle at 440 Hz, within measurement tolerance.
    assert!(crossings >= 876 && crossings <= 884, "crossings {}", crossings);
}

#[test]
fn replaying_the_same_events_reproduces_the_output() {
    let events = vec![
        param(ParamRef::EgAttack, FX_ONE / 100),
        param(ParamRef::LfoDepth, FX_ONE / 2),
        param(ParamRef::LfoOscPitchMod, FX_ONE),
        param(ParamRef::DelayTime, FX_ONE / 100),
        param(ParamRef::DelayMix, FX_ONE / 2),
        param(ParamRef::DelayFeedback, FX_ONE / 3),
        note_on(60, FX_ONE),
        note_on(67, FX_ONE / 2),
    ];
    let mut a = Synth::new(8000, 4, 32);
    let mut b = Synth::new(8000, 4, 32);
    for e in &events {
        a.enqueue(*e);
        b.enqueue(*e);
    }
    let out_a: Vec<Frame> = a.process_block(512);
    let out_b: Vec<Frame> = b.process_block(512);
    assert_eq!(out_a, out_b);

    a.enqueue(note_off(60));
    b.enqueue(note_off(60));
    assert_eq!(a.process_block(256), b.process_block(256));
}

#[test]
fn silent_engine_emits_zero_frames() {
    let mut synth = Synth::new(1000, 2, 8);
    let frames = synth.process_block(16);
    assert_eq!(frames, vec![Frame { left: 0, right: 0 }; 16]);
}

#[test]
fn events_are_deferred_to_the_block_boundary() {
    // The note enqueued after a block starts is not heard in that block.
    let mut synth = Synth::new(1000, 1, 8);
    let silent = synth.process_block(4);
    synth.enqueue(note_on(69, FX_ONE));
    let still_silent_then_note = synth.process_block(4);
    assert_eq!(silent, vec![Frame { left: 0, right: 0 }; 4]);
    // The first block after the note-on is already sounding.
    assert!(still_silent_then_note.iter().any(|f| f.left != 0 || f.right != 0));
}

#[test]
fn queue_capacity_refuses_instead_of_blocking() {
    let mut synth = Synth::new(1000, 1, 2);
    assert!(synth.enqueue(note_on(60, FX_ONE)));
    assert!(synth.enqueue(note_on(61, FX_ONE)));
    assert!(!synth.enqueue(note_on(62, FX_ONE)));
    synth.process_block(1);
    assert!(synth.enqueue(note_on(63, FX_ONE)));
}

#[test]
fn out_of_range_parameter_is_clamped_at_the_boundary() {
    let mut synth = Synth::new(1000, 1, 8);
    synth.enqueue(param(ParamRef::DcaAmplitude, 100 * FX_ONE));
    synth.enqueue(param(ParamRef::DelayFeedback, -5 * FX_ONE));
    synth.process_block(1);
    assert_eq!(synth.program.dca.amplitude, FX_ONE);
    assert_eq!(synth.program.delay.feedback, 0);
}

#[test]
fn velocity_is_clamped_at_the_boundary() {
    let mut synth = Synth::new(1000, 1, 8);
    synth.enqueue(note_on(69, 100 * FX_ONE));
    synth.process_block(1);
    assert_eq!(synth.voices[0].velocity, FX_ONE);
}

#[test]
fn filter_mode_parameter_switches_the_filter() {
    let mut synth = Synth::new(1000, 1, 8);
    assert_eq!(synth.program.filter.mode, FilterMode::Bypass);
    synth.enqueue(param(ParamRef::FilterMode, 1));
    synth.process_block(1);
    assert_eq!(synth.program.filter.mode, FilterMode::LowPass);
}

#[test]
fn delay_parameters_reach_the_effect() {
    let mut synth = Synth::new(1000, 1, 8);
    synth.enqueue(param(ParamRef::DelayTime, FX_ONE / 8));
    synth.enqueue(param(ParamRef::DelayFeedback, FX_ONE / 2));
    synth.enqueue(param(ParamRef::DelayMix, FX_ONE / 4));
    synth.process_block(1);
    assert_eq!(synth.delay_left.delay_samples, 125);
    assert_eq!(synth.delay_right.delay_samples, 125);
    assert_eq!(synth.delay_left.feedback, FX_ONE / 2);
    assert_eq!(synth.delay_right.mix, FX_ONE / 4);
}

#[test]
fn program_descriptors_cover_the_surface() {
    assert_eq!(descriptors().len(), 26);
    let d = descriptor_for(ParamRef::DcaPan);
    assert_eq!(d.min, -FX_ONE);
    assert_eq!(d.max, FX_ONE);
    assert_eq!(d.default, 0);
    let d = descriptor_for(ParamRef::OscAmplitude);
    assert_eq!(d.min, 0);
    assert_eq!(d.max, FX_ONE);
    assert_eq!(d.default, FX_ONE);
}

#[test]
fn set_program_swaps_wholesale() {
    let mut synth = Synth::new(1000, 1, 8);
    let mut p = default_program();
    p.delay.time = FX_ONE / 8;
    p.delay.mix = FX_ONE / 2;
    synth.set_program(p);
    assert_eq!(synth.program.delay.time, FX_ONE / 8);
    assert_eq!(synth.delay_left.delay_samples, 125);
    assert_eq!(synth.delay_left.mix, FX_ONE / 2);
}
