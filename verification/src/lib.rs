//! Core of a small additive synthesizer that streams a fixed melody as
//! unsigned 8-bit PCM samples, replaying it across transposed passes.
//!
//! Everything here works on exact integer (or scaled-integer) quantities:
//! notes and their semitone/beat algebra, per-note sample counts and the
//! schedule of the whole run, the amplitude envelope at sample ticks, the
//! Shepard octave fold and blending weights in the semitone domain, and the
//! wraparound 8-bit quantizer.  The floating-point waveform evaluation
//! (sines and the powers of two that turn semitones into Hertz) lives with
//! the caller that performs the audio output.

pub mod config;
pub mod envelope;
pub mod note;
pub mod quantize;
pub mod sequencer;
pub mod shepard;
