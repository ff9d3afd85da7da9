//! Real-time acoustic spectral event detection.
//!
//! The library covers the analysis pipeline of an always-on acoustic sorter:
//! a fixed-size raw sample frame is accumulated from variable-size reads,
//! decoded into signed samples, and (after an off-board FFT) its magnitude
//! spectrum is scanned for a dominant peak, refined by parabolic
//! interpolation, searched for harmonic peaks, checked for energy transients
//! with a refractory window, and classified by frequency band.  Results are
//! published as immutable whole snapshots that concurrent readers consume.
//!
//! Magnitudes are held in fixed-point millionths of full scale and
//! frequencies in millihertz, so that every rule of the pipeline is stated
//! and proved over exact integer arithmetic.  The floating-point transform
//! itself and all device I/O live outside the library.

pub mod accumulator;
pub mod classify;
pub mod constants;
pub mod display;
pub mod harmonics;
pub mod impulse;
pub mod peaks;
pub mod samples;
pub mod snapshot;
pub mod telemetry;
