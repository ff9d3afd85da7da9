//! Build-time configuration of the pipeline.
//!
//! Magnitudes are measured in millionths of full scale ("micro units"):
//! a full-scale spectral magnitude of 1.0 corresponds to 1_000_000.
//! Frequencies are measured in millihertz.  Timestamps are milliseconds.

use vstd::prelude::*;

verus! {

/// Audio sampling rate, in hertz.
pub const SAMPLING_RATE: u32 = 48000;

/// Number of samples processed by one transform; fixes the frequency
/// resolution of the spectrum.
pub const FFT_LENGTH: usize = 2048;

/// Bytes in one raw frame: each sample is one little-endian 32-bit word.
pub const FFT_LENGTH_BYTES: usize = FFT_LENGTH * 4;

/// Number of frequency bins kept, up to Nyquist.
pub const SPECTRUM_LENGTH: usize = FFT_LENGTH / 2;

/// Twice the width of one frequency bin, in millihertz.
/// The bin width is `1000 * SAMPLING_RATE / FFT_LENGTH = 23437.5` millihertz,
/// which is not an integer, so its double is kept instead:
/// `2 * 1000 * 48000 / 2048 = 46875` exactly.
pub const BIN_WIDTH_MHZ_X2: u32 = 46875;

/// Bins whose centre frequency lies below this cutoff use the low-band
/// amplitude threshold, all others the high-band one.  In millihertz.
pub const FREQUENCY_CUTOFF_MHZ: u32 = 1000000;

/// Minimum magnitude for a bin below the cutoff to qualify as a candidate
/// dominant peak, in micro units (0.0005 of full scale).
pub const LOW_FREQ_THRESHOLD: u32 = 500;

/// Minimum magnitude for a bin at or above the cutoff to qualify, in micro
/// units (0.0005 of full scale).
pub const HIGH_FREQ_THRESHOLD: u32 = 500;

/// Minimum change of the summed spectrum magnitude between two consecutive
/// frames for an impulse, in micro units (0.0012 of full scale).
pub const IMPULSE_THRESHOLD: u64 = 1200;

/// Refractory window: minimum time between two accepted impulses, in
/// milliseconds.
pub const IMPULSE_TIME_THRESHOLD: u64 = 100;

/// Impulses are only accepted above this dominant frequency, in millihertz:
/// sub-100 Hz rumble never counts as an event.
pub const MIN_IMPULSE_FREQ_MHZ: u32 = 100000;

/// Capture read timeout, in milliseconds.
pub const AUDIO_SAMPLE_DELTA: u64 = 2;

/// The static band thresholds of the adaptive peak qualification rule.
pub struct AmplitudeThreshold {
    /// Boundary between the two bands, in millihertz.
    pub frequency_cutoff: u32,
    /// Qualification threshold below the cutoff, in micro units.
    pub low_freq_threshold: u32,
    /// Qualification threshold at or above the cutoff, in micro units.
    pub high_freq_threshold: u32,
}

impl AmplitudeThreshold {
    /// The one configuration this pipeline is built with.
    pub fn build_time() -> (t: AmplitudeThreshold)
        ensures
            t.frequency_cutoff == FREQUENCY_CUTOFF_MHZ,
            t.low_freq_threshold == LOW_FREQ_THRESHOLD,
            t.high_freq_threshold == HIGH_FREQ_THRESHOLD,
    {
        AmplitudeThreshold {
            frequency_cutoff: FREQUENCY_CUTOFF_MHZ,
            low_freq_threshold: LOW_FREQ_THRESHOLD,
            high_freq_threshold: HIGH_FREQ_THRESHOLD,
        }
    }
}

} // verus!
