use spectral_events::constants::SPECTRUM_LENGTH;
use spectral_events::harmonics::find_peaks;
use spectral_events::peaks::detect_peak;

fn spectrum_with(pairs: &[(usize, u32)]) -> Vec<u32> {
    let mut mags = vec![0u32; SPECTRUM_LENGTH];
    for &(i, m) in pairs {
        mags[i] = m;
    }
    mags
}

#[test]
fn zero_spectrum_has_no_dominant_frequency() {
    let mags = vec![0u32; SPECTRUM_LENGTH];
    let r = detect_peak(&mags);
    assert_eq!(r.dominant_frequency_mhz, 0);
    assert_eq!(r.dominant_magnitude, 0);
    assert_eq!(r.dominant_index, 0);
}

#[test]
fn below_threshold_spectrum_has_no_dominant_frequency() {
    // every bin at 0.0004 of full scale, below the 0.0005 threshold
    let mags = vec![400u32; SPECTRUM_LENGTH];
    let r = detect_peak(&mags);
    assert_eq!(r.dominant_frequency_mhz, 0);
    assert_eq!(r.dominant_magnitude, 0);
}

#[test]
fn symmetric_neighbors_keep_center_frequency() {
    // equal neighbour magnitudes: interpolation offset is zero, so the
    // frequency is exactly bin 100's centre, 100 * 23437.5 mHz
    let mags = spectrum_with(&[(99, 800), (100, 1000), (101, 800)]);
    let r = detect_peak(&mags);
    assert_eq!(r.dominant_index, 100);
    assert_eq!(r.dominant_magnitude, 1000);
    assert_eq!(r.dominant_frequency_mhz, 2_343_750);
}

#[test]
fn asymmetric_neighbors_shift_frequency() {
    // the peak leans toward the larger right neighbour:
    // offset = (400 - 100) * 46875 / (4 * (400 + 100)) = 7031 mHz up
    let mags = spectrum_with(&[(99, 600), (100, 1000), (101, 900)]);
    let r = detect_peak(&mags);
    assert_eq!(r.dominant_index, 100);
    assert_eq!(r.dominant_frequency_mhz, 2_343_750 + 7_031);
}

#[test]
fn flat_plateau_interpolates_at_its_left_edge() {
    // the scan picks the first bin of the plateau; with the left
    // neighbour at zero the estimate moves half a bin to the right
    let mags = spectrum_with(&[(99, 1000), (100, 1000), (101, 1000)]);
    let r = detect_peak(&mags);
    assert_eq!(r.dominant_index, 99);
    assert_eq!(r.dominant_frequency_mhz, 99 * 46_875 / 2 + 11_718);
}

#[test]
fn boundary_bin_skips_interpolation() {
    let mags = spectrum_with(&[(0, 1000)]);
    let r = detect_peak(&mags);
    assert_eq!(r.dominant_index, 0);
    assert_eq!(r.dominant_frequency_mhz, 0);

    let mags = spectrum_with(&[(SPECTRUM_LENGTH - 1, 1000)]);
    let r = detect_peak(&mags);
    assert_eq!(r.dominant_index, SPECTRUM_LENGTH - 1);
    // 1023 * 46875 / 2, rounded down
    assert_eq!(r.dominant_frequency_mhz, 23_976_562);
}

#[test]
fn refined_frequency_stays_within_half_a_bin() {
    // extreme asymmetry: right neighbour just below the peak
    let mags = spectrum_with(&[(100, 1000), (101, 999)]);
    let r = detect_peak(&mags);
    let center: i64 = 2_343_750;
    assert!((r.dominant_frequency_mhz as i64 - center).abs() <= 11_718);
}

#[test]
fn find_peaks_collects_both_sides_sorted() {
    let mags = spectrum_with(&[
        (80, 5),
        (90, 7),
        (95, 3),
        (100, 100),
        (105, 9),
        (110, 2),
    ]);
    let peaks = find_peaks(&mags, 100);
    assert_eq!(peaks, vec![80, 90, 95, 100, 105, 110]);
}

#[test]
fn find_peaks_always_includes_dominant_and_is_strictly_ascending() {
    let mags = spectrum_with(&[(200, 50), (210, 40), (190, 30), (205, 20), (195, 10)]);
    let peaks = find_peaks(&mags, 200);
    assert!(peaks.contains(&200));
    for w in peaks.windows(2) {
        assert!(w[0] < w[1]);
    }
    assert!(peaks.len() <= 11);
}

#[test]
fn find_peaks_ignores_bins_outside_window() {
    // bin 70 is more than 25 bins below the dominant bin 100
    let mags = spectrum_with(&[(70, 50), (90, 5), (100, 100)]);
    let peaks = find_peaks(&mags, 100);
    assert!(!peaks.contains(&70));
    assert!(peaks.contains(&90));
    assert!(peaks.contains(&100));
}

#[test]
fn find_peaks_upper_span_advances_past_accepted_peaks() {
    // the strongest upper peak sits at 105; 102 lies behind the advanced
    // span edge and is never picked
    let mags = spectrum_with(&[(100, 100), (102, 9), (105, 10)]);
    let peaks = find_peaks(&mags, 100);
    assert!(peaks.contains(&105));
    assert!(!peaks.contains(&102));
}

#[test]
fn find_peaks_on_flat_spectrum_returns_only_dominant() {
    let mags = vec![0u32; SPECTRUM_LENGTH];
    let peaks = find_peaks(&mags, 512);
    assert_eq!(peaks, vec![512]);
}

#[test]
fn find_peaks_at_spectrum_edges() {
    let mags = spectrum_with(&[(0, 100), (3, 5)]);
    let peaks = find_peaks(&mags, 0);
    assert_eq!(peaks, vec![0, 3]);

    let last = SPECTRUM_LENGTH - 1;
    let mags = spectrum_with(&[(last, 100), (last - 2, 5)]);
    let peaks = find_peaks(&mags, last);
    assert_eq!(peaks, vec![last - 2, last]);
}
