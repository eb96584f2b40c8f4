use kiro_synth::delay::{Delay, DelayLine};
use kiro_synth::fixed::FX_ONE;

fn close(a: f64, b: f64) -> bool {
    (a - b).abs() < 1.0e-6
}

#[test]
fn delayline_get() {
    // A line holding [4.0, 3.0, 2.0, 1.0] with the cursor on slot 1.
    let mut delayline = DelayLine::new(vec![0.0f64, 3.0, 2.0, 1.0]);
    delayline.update(4.0);

    assert!(close(delayline.get(1), 4.0f64));
    assert!(close(delayline.get(2), 1.0f64));
    assert!(close(delayline.get(3), 2.0f64));
    assert!(close(delayline.get(4), 3.0f64));
    assert!(close(delayline.get(5), 3.0f64));
    assert!(close(delayline.get(6), 3.0f64));
}

#[test]
fn delayline_update() {
    // A zeroed line of four slots with the cursor on slot 1.
    let mut delayline = DelayLine::new(vec![0.0f64; 4]);
    delayline.update(0.0);

    delayline.update(1.0);
    delayline.update(2.0);
    delayline.update(3.0);
    delayline.update(4.0);

    let expected = [4.0f64, 1.0f64, 2.0f64, 3.0f64];
    for (a, b) in delayline.buffer.iter().zip(expected.iter()) {
        assert!(close(*a, *b));
    }
}

#[test]
fn delayline_offset_saturates_at_capacity() {
    let mut line = DelayLine::new(vec![0i64; 3]);
    line.update(10);
    line.update(20);
    line.update(30);
    assert_eq!(line.get(3), 10);
    assert_eq!(line.get(4), 10);
    assert_eq!(line.get(1000), 10);
}

#[test]
fn delay_new_defaults() {
    let d = Delay::new(8, vec![0i64; 4]);
    assert_eq!(d.get_feedback(), 0);
    assert_eq!(d.get_mix(), 0);
    assert_eq!(d.get_delay_seconds(), FX_ONE / 8);
    assert_eq!(d.delay_samples, 1);
}

#[test]
fn delay_offset_never_zero() {
    let mut d = Delay::new(8, vec![0i64; 4]);
    d.set_delay_seconds(0);
    assert_eq!(d.delay_samples, 1);
    assert_eq!(d.get_delay_seconds(), 0);
}

#[test]
fn delay_offset_saturates_at_buffer() {
    let mut d = Delay::new(8, vec![0i64; 4]);
    d.set_delay_seconds(FX_ONE);
    // One second at 8 Hz would be 8 samples; the 4-slot line caps it.
    assert_eq!(d.delay_samples, 4);
}

#[test]
fn delay_mix_zero_passes_input_through() {
    // With mix at zero the output is the raw input, whatever the feedback.
    let mut d = Delay::new(8, vec![0i64; 4]);
    d.set_delay_seconds(FX_ONE / 2);
    d.set_feedback(FX_ONE);
    d.set_mix(0);
    let inputs = [FX_ONE, 123, -456, 7, 0, 99];
    for x in inputs {
        assert_eq!(d.process(x), x);
    }
}

#[test]
fn delay_no_feedback_is_pure_crossfade() {
    // With feedback 0 and mix m: out == delayed*m + input*(1-m), and the
    // line stores the dry input, so the delayed value is the input from
    // `offset` calls ago.
    let mut d = Delay::new(8, vec![0i64; 4]);
    d.set_delay_seconds(FX_ONE / 4);
    assert_eq!(d.delay_samples, 2);
    d.set_feedback(0);
    d.set_mix(FX_ONE / 4);
    let x0 = 4 * FX_ONE;
    let x1 = -2 * FX_ONE;
    let x2 = 8;
    let y0 = d.process(x0);
    let y1 = d.process(x1);
    let y2 = d.process(x2);
    // First two outputs see the zeroed buffer.
    assert_eq!(y0, x0 / 4 * 3);
    assert_eq!(y1, x1 / 4 * 3);
    // The third sees x0 two calls back.
    assert_eq!(y2, x0 / 4 + x2 / 4 * 3);
}

#[test]
fn delay_full_wet_no_feedback_is_pure_delay() {
    let mut d = Delay::new(8, vec![0i64; 4]);
    d.set_delay_seconds(FX_ONE / 4);
    d.set_feedback(0);
    d.set_mix(FX_ONE);
    let xs = [100 * FX_ONE, 200, -300, 400, 500];
    let mut outs = Vec::new();
    for x in xs {
        outs.push(d.process(x));
    }
    assert_eq!(outs, vec![0, 0, 100 * FX_ONE, 200, -300]);
}

#[test]
fn delay_impulse_recurrence() {
    // Offset 4 on a 4-sample line, feedback and mix both one half, fed an
    // impulse: the echo returns every four samples, halved each pass.
    let mut d = Delay::new(8, vec![0i64; 4]);
    d.set_delay_seconds(FX_ONE / 2);
    assert_eq!(d.delay_samples, 4);
    d.set_feedback(FX_ONE / 2);
    d.set_mix(FX_ONE / 2);
    let impulse = [FX_ONE, 0, 0, 0, 0, 0, 0, 0];
    let mut outs = Vec::new();
    for x in impulse {
        outs.push(d.process(x));
    }
    assert_eq!(outs, vec![FX_ONE / 2, 0, 0, 0, FX_ONE / 2, 0, 0, 0]);
    // The next pass returns the recirculated half impulse.
    let mut tail = Vec::new();
    for _ in 0..4 {
        tail.push(d.process(0));
    }
    assert_eq!(tail, vec![FX_ONE / 4, 0, 0, 0]);
}

#[test]
fn delay_with_single_slot_echoes_previous_input() {
    // The smallest legal line: one slot, offset one. Each call returns a
    // crossfade with the previous call's stored input.
    let mut d = Delay::new(1, vec![0i64; 1]);
    d.set_mix(FX_ONE);
    d.set_feedback(0);
    assert_eq!(d.process(7 * FX_ONE), 0);
    assert_eq!(d.process(9 * FX_ONE), 7 * FX_ONE);
    assert_eq!(d.process(0), 9 * FX_ONE);
}

#[test]
fn delay_getter_roundtrip() {
    let mut d = Delay::new(44100, vec![0i64; 8]);
    d.set_feedback(FX_ONE / 3);
    d.set_mix(FX_ONE / 5);
    d.set_delay_seconds(FX_ONE / 7);
    assert_eq!(d.get_feedback(), FX_ONE / 3);
    assert_eq!(d.get_mix(), FX_ONE / 5);
    assert_eq!(d.get_delay_seconds(), FX_ONE / 7);
}
