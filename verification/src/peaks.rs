//! Dominant-peak detection with adaptive thresholding and sub-bin
//! frequency refinement.
//!
//! Every bin of the magnitude spectrum competes against the amplitude
//! threshold of its frequency band; the largest qualifying magnitude wins.
//! When the winner is an interior bin, its frequency is refined by parabolic
//! interpolation over the two neighbouring magnitudes, which moves the
//! estimate by at most half a bin width.  With no qualifying bin the
//! dominant frequency is zero.

use vstd::arithmetic::div_mod::{
    lemma_div_is_ordered, lemma_fundamental_div_mod_converse_div,
};
use vstd::arithmetic::mul::lemma_mul_inequality;
use vstd::prelude::*;

use crate::constants::{
    BIN_WIDTH_MHZ_X2, FREQUENCY_CUTOFF_MHZ, HIGH_FREQ_THRESHOLD, LOW_FREQ_THRESHOLD,
    SPECTRUM_LENGTH,
};

verus! {

/// Centre frequency of bin `k`, in millihertz, rounded down:
/// `k * sampleRate * 1000 / fftLength`.
pub open spec fn bin_freq_mhz(k: int) -> int {
    k * (BIN_WIDTH_MHZ_X2 as int) / 2
}

/// Whether bin `k`'s centre frequency lies below the band cutoff.
/// Compared on doubled millihertz values, which are exact integers.
pub open spec fn below_cutoff(k: int) -> bool {
    k * (BIN_WIDTH_MHZ_X2 as int) < 2 * (FREQUENCY_CUTOFF_MHZ as int)
}

/// The amplitude threshold bin `k` must exceed to qualify, in micro units.
pub open spec fn bin_threshold(k: int) -> int {
    if below_cutoff(k) {
        LOW_FREQ_THRESHOLD as int
    } else {
        HIGH_FREQ_THRESHOLD as int
    }
}

/// Whether bin `k` qualifies as a candidate dominant peak.
pub open spec fn qualifies(mags: Seq<u32>, k: int) -> bool {
    mags[k] as int > bin_threshold(k)
}

/// The scan over the first `n` bins: the largest qualifying magnitude seen
/// so far and the first bin holding it, starting from `(0, 0)`.
pub open spec fn scan_prefix(mags: Seq<u32>, n: int) -> (int, u32)
    decreases n,
{
    if n <= 0 {
        (0int, 0u32)
    } else {
        let prev = scan_prefix(mags, n - 1);
        if qualifies(mags, n - 1) && mags[n - 1] as int > prev.1 as int {
            (n - 1, mags[n - 1])
        } else {
            prev
        }
    }
}

/// The dominant bin of a spectrum and its magnitude; `(0, 0)` when no bin
/// qualifies.
pub open spec fn dominant_of(mags: Seq<u32>) -> (int, u32) {
    scan_prefix(mags, mags.len() as int)
}

/// The parabolic-interpolation offset added to the dominant bin's centre
/// frequency, in millihertz.  With neighbour magnitudes `y_prev`, `y_next`
/// under peak magnitude `y_mid`, the offset is
/// `0.5 * (y_prev - y_next) / (y_prev - 2*y_mid + y_next)` bins, rounded
/// toward zero; a zero denominator falls back to no offset.
pub open spec fn interp_offset_mhz(y_prev: u32, y_mid: u32, y_next: u32) -> int
    recommends
        y_prev <= y_mid,
        y_next <= y_mid,
{
    let a = y_mid as int - y_prev as int;
    let b = y_mid as int - y_next as int;
    if a + b == 0 {
        0
    } else if a >= b {
        (a - b) * (BIN_WIDTH_MHZ_X2 as int) / (4 * (a + b))
    } else {
        -((b - a) * (BIN_WIDTH_MHZ_X2 as int) / (4 * (a + b)))
    }
}

/// The refined frequency of dominant bin `k`: interior bins get the
/// interpolation offset, boundary bins keep their centre frequency.
pub open spec fn refined_freq_mhz(mags: Seq<u32>, k: int) -> int {
    if 1 <= k && k < mags.len() - 1 {
        bin_freq_mhz(k) + interp_offset_mhz(mags[k - 1], mags[k], mags[k + 1])
    } else {
        bin_freq_mhz(k)
    }
}

/// The dominant frequency of a spectrum in millihertz: the refined
/// frequency of the dominant bin, or zero when no bin qualifies.
pub open spec fn dominant_freq_mhz(mags: Seq<u32>) -> int {
    let r = dominant_of(mags);
    if r.1 as int > 0 {
        refined_freq_mhz(mags, r.0)
    } else {
        0
    }
}

/// What the scan guarantees: the result names a qualifying bin holding the
/// largest qualifying magnitude, at the first bin where it occurs; a zero
/// magnitude means no bin qualifies at all.
pub proof fn lemma_scan_prefix_props(mags: Seq<u32>, n: int)
    requires
        0 <= n <= mags.len(),
        forall|j: int| 0 <= j < mags.len() ==> bin_threshold(j) >= 0,
    ensures
        ({
            let (k, m) = scan_prefix(mags, n);
            &&& 0 <= k < mags.len() || k == 0
            &&& (m as int > 0 ==> 0 <= k < n && qualifies(mags, k) && mags[k] == m)
            &&& forall|j: int| 0 <= j < n && qualifies(mags, j) ==> mags[j] as int <= m as int
            &&& (m as int == 0 ==> k == 0 && forall|j: int| 0 <= j < n ==> !qualifies(mags, j))
            &&& forall|j: int| 0 <= j < k ==> !(qualifies(mags, j) && mags[j] == m)
        }),
    decreases n,
{
    if n > 0 {
        lemma_scan_prefix_props(mags, n - 1);
    }
}

/// No bin of the spectrum exceeds a positive scan maximum: qualifying bins
/// are bounded by it directly, and bins that fail their band threshold sit
/// at or below it because both band thresholds are below the maximum.
pub proof fn lemma_all_bins_at_most_max(mags: Seq<u32>, n: int)
    requires
        0 <= n <= mags.len(),
        scan_prefix(mags, n).1 as int > 0,
    ensures
        forall|j: int| 0 <= j < n ==> mags[j] as int <= scan_prefix(mags, n).1 as int,
{
    let (k, m) = scan_prefix(mags, n);
    assert(forall|j: int| 0 <= j < mags.len() ==> bin_threshold(j) == LOW_FREQ_THRESHOLD as int);
    lemma_scan_prefix_props(mags, n);
    assert forall|j: int| 0 <= j < n implies mags[j] as int <= m as int by {
        if qualifies(mags, j) {
        } else {
            assert(mags[j] as int <= bin_threshold(j));
            assert(m as int > bin_threshold(k));
        }
    }
}

/// The interpolation offset never moves the frequency by more than half a
/// bin width (11718 millihertz, rounded down).
pub proof fn lemma_interp_offset_bound(y_prev: u32, y_mid: u32, y_next: u32)
    requires
        y_prev <= y_mid,
        y_next <= y_mid,
    ensures
        -11718 <= interp_offset_mhz(y_prev, y_mid, y_next) <= 11718,
{
    let a = y_mid as int - y_prev as int;
    let b = y_mid as int - y_next as int;
    if a + b != 0 {
        let s = a + b;
        let d = if a >= b {
            a - b
        } else {
            b - a
        };
        assert(0 <= d <= s);
        lemma_mul_inequality(d, s, BIN_WIDTH_MHZ_X2 as int);
        lemma_div_is_ordered(d * (BIN_WIDTH_MHZ_X2 as int), s * (BIN_WIDTH_MHZ_X2 as int), 4 * s);
        assert(s * (BIN_WIDTH_MHZ_X2 as int) == 11718 * (4 * s) + 3 * s) by (nonlinear_arith);
        lemma_fundamental_div_mod_converse_div(s * (BIN_WIDTH_MHZ_X2 as int), 4 * s, 11718, 3 * s);
        assert(d * (BIN_WIDTH_MHZ_X2 as int) >= 0) by (nonlinear_arith)
            requires d >= 0;
        vstd::arithmetic::div_mod::lemma_div_pos_is_pos(d * (BIN_WIDTH_MHZ_X2 as int), 4 * s);
    }
}

/// Centre frequencies grow with the bin index.
pub proof fn lemma_bin_freq_monotonic(k1: int, k2: int)
    requires
        0 <= k1 <= k2,
    ensures
        bin_freq_mhz(k1) <= bin_freq_mhz(k2),
        bin_freq_mhz(k1) >= 0,
{
    lemma_mul_inequality(k1, k2, BIN_WIDTH_MHZ_X2 as int);
    lemma_div_is_ordered(k1 * (BIN_WIDTH_MHZ_X2 as int), k2 * (BIN_WIDTH_MHZ_X2 as int), 2);
    lemma_mul_inequality(0, k1, BIN_WIDTH_MHZ_X2 as int);
    lemma_div_is_ordered(0, k1 * (BIN_WIDTH_MHZ_X2 as int), 2);
}

/// Scanning any prefix of an all-zero spectrum finds nothing.
proof fn lemma_scan_zero(mags: Seq<u32>, n: int)
    requires
        0 <= n <= mags.len(),
        forall|j: int| 0 <= j < mags.len() ==> mags[j] == 0,
    ensures
        scan_prefix(mags, n) == (0int, 0u32),
    decreases n,
{
    if n > 0 {
        lemma_scan_zero(mags, n - 1);
    }
}

/// An all-zero spectrum has no dominant peak: its dominant frequency is
/// zero.
pub proof fn lemma_zero_spectrum_dominant(mags: Seq<u32>)
    requires
        forall|j: int| 0 <= j < mags.len() ==> mags[j] == 0,
    ensures
        dominant_of(mags) == (0int, 0u32),
        dominant_freq_mhz(mags) == 0,
{
    lemma_scan_zero(mags, mags.len() as int);
}

/// A spectral line strictly above every other bin and above its band
/// threshold is found as the dominant bin, and the refined frequency stays
/// within half a bin width (and so within one bin width) of that bin's
/// centre frequency.
pub proof fn lemma_bin_center_peak(mags: Seq<u32>, k: int)
    requires
        0 <= k < mags.len(),
        mags.len() <= usize::MAX,
        qualifies(mags, k),
        forall|j: int| 0 <= j < mags.len() && j != k ==> (mags[j] as int) < mags[k] as int,
    ensures
        dominant_of(mags) == (k, mags[k]),
        dominant_freq_mhz(mags) - bin_freq_mhz(k) <= 11718,
        bin_freq_mhz(k) - dominant_freq_mhz(mags) <= 11718,
{
    assert(forall|j: int| 0 <= j < mags.len() ==> bin_threshold(j) >= 0);
    lemma_scan_prefix_props(mags, mags.len() as int);
    let r = dominant_of(mags);
    assert(mags[k] as int > bin_threshold(k));
    assert(r.1 as int >= mags[k] as int);
    assert(r.1 as int > 0);
    assert(mags[r.0] == r.1 && qualifies(mags, r.0));
    assert(r.0 == k);
    if 1 <= k && k < mags.len() - 1 {
        lemma_interp_offset_bound(mags[k - 1], mags[k], mags[k + 1]);
    }
}

/// With equal neighbour magnitudes the interpolation offset vanishes.
pub proof fn lemma_symmetric_neighbors_zero_offset(y_side: u32, y_mid: u32)
    ensures
        interp_offset_mhz(y_side, y_mid, y_side) == 0,
{
    let a = y_mid as int - y_side as int;
    if a + a != 0 {
        assert(0int * (BIN_WIDTH_MHZ_X2 as int) == 0);
        vstd::arithmetic::div_mod::lemma_div_of0(4 * (a + a));
    }
}

/// Symmetric neighbours leave an interior dominant bin exactly at its
/// centre frequency.
pub proof fn lemma_symmetric_neighbors_center_frequency(mags: Seq<u32>, k: int)
    requires
        1 <= k < mags.len() - 1,
        mags[k - 1] == mags[k + 1],
    ensures
        refined_freq_mhz(mags, k) == bin_freq_mhz(k),
{
    lemma_symmetric_neighbors_zero_offset(mags[k - 1], mags[k]);
}

/// The result of scanning a spectrum for its dominant peak.
#[derive(Clone, Copy, PartialEq, Eq, Debug)]
pub struct SpectrumAnalysis {
    /// The dominant bin, 0 when no bin qualifies.
    pub dominant_index: usize,
    /// Its magnitude in micro units, 0 when no bin qualifies.
    pub dominant_magnitude: u32,
    /// The refined dominant frequency in millihertz, 0 when no bin
    /// qualifies.
    pub dominant_frequency_mhz: u32,
}

/// Ties an analysis result to the spectrum it came from.
pub open spec fn analysis_of(r: SpectrumAnalysis, mags: Seq<u32>) -> bool {
    &&& r.dominant_index as int == dominant_of(mags).0
    &&& r.dominant_magnitude == dominant_of(mags).1
    &&& r.dominant_frequency_mhz as int == dominant_freq_mhz(mags)
}

/// The band threshold bin `k` must beat, in micro units.
pub fn threshold_for_bin(k: usize) -> (t: u32)
    requires
        k < SPECTRUM_LENGTH,
    ensures
        t as int == bin_threshold(k as int),
{
    let freq_x2: u64 = (k as u64) * (BIN_WIDTH_MHZ_X2 as u64);
    if freq_x2 < 2 * (FREQUENCY_CUTOFF_MHZ as u64) {
        LOW_FREQ_THRESHOLD
    } else {
        HIGH_FREQ_THRESHOLD
    }
}

/// Centre frequency of bin `k` in millihertz.
pub fn bin_frequency_mhz(k: usize) -> (f: u32)
    requires
        k < SPECTRUM_LENGTH,
    ensures
        f as int == bin_freq_mhz(k as int),
{
    proof {
        lemma_mul_inequality(k as int, SPECTRUM_LENGTH as int, BIN_WIDTH_MHZ_X2 as int);
        lemma_div_is_ordered(
            (k as int) * (BIN_WIDTH_MHZ_X2 as int),
            (SPECTRUM_LENGTH as int) * (BIN_WIDTH_MHZ_X2 as int),
            2,
        );
    }
    (((k as u64) * (BIN_WIDTH_MHZ_X2 as u64)) / 2) as u32
}

/// Refines an interior dominant bin's frequency from its neighbour
/// magnitudes.  The result stays within half a bin width of the centre.
fn interpolate_mhz(y_prev: u32, y_mid: u32, y_next: u32, k: usize) -> (f: u32)
    requires
        y_prev <= y_mid,
        y_next <= y_mid,
        1 <= k < SPECTRUM_LENGTH - 1,
    ensures
        f as int == bin_freq_mhz(k as int) + interp_offset_mhz(y_prev, y_mid, y_next),
{
    let base: u32 = bin_frequency_mhz(k);
    proof {
        lemma_interp_offset_bound(y_prev, y_mid, y_next);
        lemma_bin_freq_monotonic(1, k as int);
        assert(bin_freq_mhz(1) == 23437);
        lemma_bin_freq_monotonic(k as int, SPECTRUM_LENGTH as int);
        assert(bin_freq_mhz(SPECTRUM_LENGTH as int) == 24000000);
    }
    let a: u64 = (y_mid - y_prev) as u64;
    let b: u64 = (y_mid - y_next) as u64;
    if a + b == 0 {
        base
    } else if a >= b {
        let off: u64 = ((a - b) * (BIN_WIDTH_MHZ_X2 as u64)) / (4 * (a + b));
        base + (off as u32)
    } else {
        let off: u64 = ((b - a) * (BIN_WIDTH_MHZ_X2 as u64)) / (4 * (a + b));
        base - (off as u32)
    }
}

/// Scans a spectrum for its dominant peak: adaptive thresholding picks the
/// largest qualifying bin, and parabolic interpolation refines its
/// frequency when it is interior.
pub fn detect_peak(mags: &Vec<u32>) -> (r: SpectrumAnalysis)
    requires
        mags@.len() == SPECTRUM_LENGTH,
    ensures
        analysis_of(r, mags@),
{
    let mut max_mag: u32 = 0;
    let mut max_index: usize = 0;
    let mut i: usize = 0;
    while i < SPECTRUM_LENGTH
        invariant
            mags@.len() == SPECTRUM_LENGTH,
            i <= SPECTRUM_LENGTH,
            max_index as int == scan_prefix(mags@, i as int).0,
            max_mag == scan_prefix(mags@, i as int).1,
            max_index < SPECTRUM_LENGTH,
        decreases SPECTRUM_LENGTH - i,
    {
        let threshold: u32 = threshold_for_bin(i);
        let m: u32 = mags[i];
        if m > threshold && m > max_mag {
            max_mag = m;
            max_index = i;
        }
        i = i + 1;
    }

    let frequency_mhz: u32 = if max_mag > 0 {
        if max_index > 0 && max_index < SPECTRUM_LENGTH - 1 {
            proof {
                assert(forall|j: int|
                    0 <= j < mags@.len() ==> bin_threshold(j) >= 0);
                lemma_scan_prefix_props(mags@, SPECTRUM_LENGTH as int);
                lemma_all_bins_at_most_max(mags@, SPECTRUM_LENGTH as int);
                assert(mags@[max_index as int] == max_mag);
            }
            interpolate_mhz(mags[max_index - 1], mags[max_index], mags[max_index + 1], max_index)
        } else {
            bin_frequency_mhz(max_index)
        }
    } else {
        0
    };
    SpectrumAnalysis { dominant_index: max_index, dominant_magnitude: max_mag, dominant_frequency_mhz: frequency_mhz }
}

} // verus!
