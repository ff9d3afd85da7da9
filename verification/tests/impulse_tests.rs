use spectral_events::classify::Classification;
use spectral_events::constants::SPECTRUM_LENGTH;
use spectral_events::impulse::ImpulseEventDetector;
use spectral_events::peaks::detect_peak;

fn spectrum_with(pairs: &[(usize, u32)]) -> Vec<u32> {
    let mut mags = vec![0u32; SPECTRUM_LENGTH];
    for &(i, m) in pairs {
        mags[i] = m;
    }
    mags
}

#[test]
fn impulse_fires_on_energy_jump() {
    let mut det = ImpulseEventDetector::new();
    // a strong line at bin 100 (2343.75 Hz): in band A
    let mags = spectrum_with(&[(100, 1_000_000)]);
    let analysis = detect_peak(&mags);
    let imp = det.detect(&mags, &analysis, 200).expect("impulse expected");
    assert_eq!(imp.timestamp, 200);
    assert_eq!(imp.dominant_frequency, 2_343_750);
    assert_eq!(imp.coconut_type, Classification::A);
    assert!(imp.peaks.iter().any(|p| p.index == 100));
}

#[test]
fn refractory_window_swallows_second_impulse() {
    let mut det = ImpulseEventDetector::new();
    let first = spectrum_with(&[(100, 1_000_000)]);
    let a1 = detect_peak(&first);
    assert!(det.detect(&first, &a1, 200).is_some());

    // ten milliseconds later, another huge delta: still swallowed
    let second = spectrum_with(&[(100, 2_000_000)]);
    let a2 = detect_peak(&second);
    assert!(det.detect(&second, &a2, 210).is_none());

    // exactly at the window edge, still swallowed (strictly-greater rule)
    let third = spectrum_with(&[(100, 3_000_000)]);
    let a3 = detect_peak(&third);
    assert!(det.detect(&third, &a3, 300).is_none());

    // one past the window: fires again
    let fourth = spectrum_with(&[(100, 4_000_000)]);
    let a4 = detect_peak(&fourth);
    assert!(det.detect(&fourth, &a4, 301).is_some());
}

#[test]
fn small_delta_never_fires() {
    let mut det = ImpulseEventDetector::new();
    let mags = spectrum_with(&[(100, 1_000_000)]);
    let analysis = detect_peak(&mags);
    assert!(det.detect(&mags, &analysis, 200).is_some());

    // an identical frame: delta zero, well past the window
    assert!(det.detect(&mags, &analysis, 1000).is_none());

    // delta exactly at the threshold is not enough (strictly greater)
    let bumped = spectrum_with(&[(100, 1_001_200)]);
    let ab = detect_peak(&bumped);
    assert!(det.detect(&bumped, &ab, 2000).is_none());

    // one more micro unit crosses it
    let crossed = spectrum_with(&[(100, 1_002_401)]);
    let ac = detect_peak(&crossed);
    assert!(det.detect(&crossed, &ac, 3000).is_some());
}

#[test]
fn sub_rumble_frequencies_never_fire() {
    let mut det = ImpulseEventDetector::new();
    // bin 3 sits at 70.3 Hz, below the 100 Hz floor
    let mags = spectrum_with(&[(3, 1_000_000)]);
    let analysis = detect_peak(&mags);
    assert_eq!(analysis.dominant_index, 3);
    assert!(analysis.dominant_frequency_mhz <= 100_000);
    assert!(det.detect(&mags, &analysis, 200).is_none());
}

#[test]
fn previous_sum_updates_even_without_impulse() {
    let mut det = ImpulseEventDetector::new();
    let quiet = spectrum_with(&[(3, 1_000_000)]);
    let aq = detect_peak(&quiet);
    // frequency too low to fire, but the sum is remembered
    assert!(det.detect(&quiet, &aq, 200).is_none());

    // the next frame has nearly the same energy: delta is small, no fire
    let similar = spectrum_with(&[(100, 1_000_500)]);
    let asim = detect_peak(&similar);
    assert!(det.detect(&similar, &asim, 400).is_none());
}

#[test]
fn impulse_peaks_are_sorted_and_described() {
    let mut det = ImpulseEventDetector::new();
    let mags = spectrum_with(&[(90, 600), (100, 1_000_000), (110, 700)]);
    let analysis = detect_peak(&mags);
    let imp = det.detect(&mags, &analysis, 500).expect("impulse expected");
    let idx: Vec<usize> = imp.peaks.iter().map(|p| p.index).collect();
    assert!(idx.contains(&90) && idx.contains(&100) && idx.contains(&110));
    for w in idx.windows(2) {
        assert!(w[0] < w[1]);
    }
    for p in &imp.peaks {
        assert_eq!(p.magnitude, mags[p.index]);
        assert_eq!(p.frequency as u64, p.index as u64 * 46_875 / 2);
    }
}
