//! End-to-end runs over the real transform: raw little-endian frames are
//! decoded by the library, windowed and transformed with rustfft, scaled to
//! micro units, and analyzed by the verified pipeline.

use rustfft::num_complex::Complex;
use rustfft::FftPlanner;

use spectral_events::constants::{FFT_LENGTH, SPECTRUM_LENGTH};
use spectral_events::peaks::detect_peak;
use spectral_events::samples::decode_samples;

fn hann_window() -> Vec<f32> {
    (0..FFT_LENGTH)
        .map(|i| {
            0.5 * (1.0
                - (2.0 * std::f32::consts::PI * i as f32 / (FFT_LENGTH - 1) as f32).cos())
        })
        .collect()
}

/// Windows, transforms and scales a decoded frame exactly as the embedding
/// does, producing magnitudes in micro units.
fn magnitude_spectrum_micro(samples: &[i32]) -> Vec<u32> {
    let window = hann_window();
    let mut buf: Vec<Complex<f32>> = samples
        .iter()
        .zip(window.iter())
        .map(|(&s, &w)| Complex::new((s as f32) / 2147483648.0 * w, 0.0))
        .collect();
    let mut planner = FftPlanner::new();
    let fft = planner.plan_fft_forward(FFT_LENGTH);
    fft.process(&mut buf);
    let scale = 1.0 / FFT_LENGTH as f32;
    buf[..SPECTRUM_LENGTH]
        .iter()
        .map(|c| (c.norm() * scale * 1_000_000.0).round() as u32)
        .collect()
}

fn frame_of(samples: &[i32]) -> Vec<u8> {
    let mut frame = Vec::with_capacity(samples.len() * 4);
    for s in samples {
        frame.extend_from_slice(&s.to_le_bytes());
    }
    frame
}

#[test]
fn zero_frame_yields_zero_spectrum_and_zero_frequency() {
    let frame = vec![0u8; FFT_LENGTH * 4];
    let samples = decode_samples(&frame);
    let mags = magnitude_spectrum_micro(&samples);
    assert!(mags.iter().all(|&m| m == 0));
    let r = detect_peak(&mags);
    assert_eq!(r.dominant_frequency_mhz, 0);
    assert_eq!(r.dominant_magnitude, 0);
}

#[test]
fn bin_centered_sinusoid_is_found_at_its_bin() {
    let k: usize = 100;
    let samples: Vec<i32> = (0..FFT_LENGTH)
        .map(|i| {
            let phase = 2.0 * std::f64::consts::PI * k as f64 * i as f64 / FFT_LENGTH as f64;
            (0.5 * phase.sin() * 2147483648.0_f64) as i32
        })
        .collect();
    let frame = frame_of(&samples);
    let decoded = decode_samples(&frame);
    assert_eq!(decoded, samples);

    let mags = magnitude_spectrum_micro(&decoded);
    let r = detect_peak(&mags);
    assert_eq!(r.dominant_index, k);

    // the refined frequency stays within one bin width of the bin centre
    let center: i64 = (k as i64) * 46_875 / 2;
    let bin_width: i64 = 23_438;
    assert!((r.dominant_frequency_mhz as i64 - center).abs() <= bin_width);
}

#[test]
fn stronger_line_wins_the_scan() {
    let samples: Vec<i32> = (0..FFT_LENGTH)
        .map(|i| {
            let t = i as f64 / FFT_LENGTH as f64;
            let a = 0.1 * (2.0 * std::f64::consts::PI * 50.0 * t).sin();
            let b = 0.4 * (2.0 * std::f64::consts::PI * 200.0 * t).sin();
            ((a + b) * 2147483648.0_f64) as i32
        })
        .collect();
    let mags = magnitude_spectrum_micro(&samples);
    let r = detect_peak(&mags);
    assert_eq!(r.dominant_index, 200);
}
