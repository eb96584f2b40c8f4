//! A real-time polyphonic sound-synthesis engine.
//!
//! The engine turns a patch definition (oscillator, envelope generator, LFO,
//! filter, amplifier/panner and a delay effect) and a stream of musical
//! events (note on/off, parameter changes) into a stream of audio frames.
//! Every value on the audio path is a fixed-point `i64` (see [`fixed`]), so
//! the whole signal path is exact integer arithmetic: bounded, deterministic
//! and free of overflow.

pub mod fixed;
pub mod delay;
pub mod pitch;
pub mod envelope;
pub mod oscillator;
pub mod event;
pub mod program;
pub mod voice;
pub mod synth;
