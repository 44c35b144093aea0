//! An additive waveform synthesis and spectral analysis engine.
//!
//! A signal is composed from a set of named periodic components (sine,
//! square, sawtooth), sampled at a chosen rate, and turned into a
//! band-limited magnitude spectrum.  The derived result is memoized and
//! invalidated whenever any contributing parameter changes.
//!
//! All floating-point evaluation (the trigonometry and the Fourier
//! transform) is supplied by the caller; the engine itself carries `f64`
//! parameters as their IEEE 754 bit patterns and verifies the structural
//! rules: parameter validation, cache coherency, the sample-count and
//! band-limit arithmetic, and the equivalences between component sets.

pub mod cache;
pub mod component;
pub mod engine;
pub mod spectrum;
pub mod synth;
