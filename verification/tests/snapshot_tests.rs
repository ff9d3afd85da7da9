use std::sync::Arc;

use spectral_events::constants::{FFT_LENGTH_BYTES, SPECTRUM_LENGTH};
use spectral_events::peaks::detect_peak;
use spectral_events::snapshot::{initial_snapshot, AnalysisPipeline};

fn spectrum_with(pairs: &[(usize, u32)]) -> Vec<u32> {
    let mut mags = vec![0u32; SPECTRUM_LENGTH];
    for &(i, m) in pairs {
        mags[i] = m;
    }
    mags
}

#[test]
fn initial_snapshot_is_quiet() {
    let s = initial_snapshot();
    assert_eq!(s.magnitudes.len(), SPECTRUM_LENGTH);
    assert!(s.magnitudes.iter().all(|&m| m == 0));
    assert_eq!(s.dominant_frequency, 0);
    assert!(!s.is_recording);
    assert!(s.latest_impulse.is_none());
}

#[test]
fn processing_a_frame_publishes_consistent_results() {
    let mut p = AnalysisPipeline::new();
    let s0 = initial_snapshot();
    let s1 = p.on_button_toggle(&s0);
    assert!(s1.is_recording);

    let mags = spectrum_with(&[(100, 1_000_000)]);
    let s2 = p.process_frame(mags.clone(), 200);
    assert!(s2.is_recording);
    assert_eq!(s2.magnitudes, mags);
    assert_eq!(s2.dominant_frequency, 2_343_750);
    let imp = s2.latest_impulse.as_ref().expect("impulse expected");
    assert_eq!(imp.dominant_frequency, s2.dominant_frequency);
    assert_eq!(imp.timestamp, 200);
}

#[test]
fn snapshot_handles_stay_whole_across_publication() {
    let mut p = AnalysisPipeline::new();
    let s0 = initial_snapshot();
    let s1 = p.on_button_toggle(&s0);

    let first = spectrum_with(&[(100, 1_000_000)]);
    let published_1 = Arc::new(p.process_frame(first.clone(), 200));
    // a reader captures a handle before the next write
    let reader_view = Arc::clone(&published_1);

    let second = spectrum_with(&[(200, 2_000_000)]);
    let published_2 = Arc::new(p.process_frame(second.clone(), 400));

    // the old handle still shows the old frame, wholly
    assert_eq!(reader_view.magnitudes, first);
    assert_eq!(reader_view.dominant_frequency, 2_343_750);
    // the new handle shows the new frame, wholly
    assert_eq!(published_2.magnitudes, second);
    assert_eq!(published_2.dominant_frequency, 2 * 2_343_750);

    // each snapshot is internally consistent: its dominant frequency is
    // recomputable from its own magnitudes — never a mix of frames
    let r1 = detect_peak(&reader_view.magnitudes);
    assert_eq!(r1.dominant_frequency_mhz, reader_view.dominant_frequency);
    let r2 = detect_peak(&published_2.magnitudes);
    assert_eq!(r2.dominant_frequency_mhz, published_2.dominant_frequency);
    drop(s1);
}

#[test]
fn toggling_clears_impulse_and_accumulation() {
    let mut p = AnalysisPipeline::new();
    let s0 = initial_snapshot();
    let s1 = p.on_button_toggle(&s0);
    assert!(s1.is_recording);

    // analyze a frame that raises an impulse
    let mags = spectrum_with(&[(100, 1_000_000)]);
    let s2 = p.process_frame(mags, 200);
    assert!(s2.latest_impulse.is_some());

    // leave some partial accumulation behind
    let full = p.push_audio(&vec![5u8; 100]);
    assert!(!full);

    // recording -> idle -> recording
    let s3 = p.on_button_toggle(&s2);
    assert!(!s3.is_recording);
    assert!(s3.latest_impulse.is_none());
    let s4 = p.on_button_toggle(&s3);
    assert!(s4.is_recording);
    assert!(s4.latest_impulse.is_none());
    // the spectrum itself is kept across toggles
    assert_eq!(s4.magnitudes, s2.magnitudes);

    // accumulation restarted from zero: a frame minus one byte is not
    // enough, which it would be had the 100 stale bytes survived
    let full = p.push_audio(&vec![6u8; FFT_LENGTH_BYTES - 1]);
    assert!(!full);
    let full = p.push_audio(&vec![6u8; 1]);
    assert!(full);
}

#[test]
fn idle_republication_keeps_spectrum() {
    let mut p = AnalysisPipeline::new();
    let s0 = initial_snapshot();
    let s1 = p.on_button_toggle(&s0);
    let mags = spectrum_with(&[(300, 800_000)]);
    let s2 = p.process_frame(mags.clone(), 150);

    let s3 = p.on_button_toggle(&s2);
    assert!(!s3.is_recording);
    assert_eq!(s3.magnitudes, mags);
    assert_eq!(s3.dominant_frequency, s2.dominant_frequency);
    drop(s1);
}
