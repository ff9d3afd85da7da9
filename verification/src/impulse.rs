//! Transient (impulse) detection with a refractory window.
//!
//! Every frame, the summed spectrum magnitude is compared with the previous
//! frame's sum.  An impulse fires only when the change exceeds the impulse
//! threshold, the refractory window since the last accepted impulse has
//! passed, and the dominant frequency is above the rumble floor.  On a
//! fire, the harmonic peaks are extracted, the frequency is classified, and
//! an immutable event record is produced.  The previous-sum state is
//! updated every frame whether or not an impulse fires.

use vstd::prelude::*;

use crate::classify::{classify, classify_spec, Classification};
use crate::constants::{
    IMPULSE_THRESHOLD, IMPULSE_TIME_THRESHOLD, MIN_IMPULSE_FREQ_MHZ, SPECTRUM_LENGTH,
};
use crate::harmonics::{build_peak_data, find_peaks, peak_indices, peaks_describe, PeakData};
use crate::peaks::{
    analysis_of, bin_threshold, dominant_of, lemma_scan_prefix_props, SpectrumAnalysis,
};

verus! {

/// The summed magnitude of a spectrum, in micro units.
pub open spec fn sum_micro(s: Seq<u32>) -> int
    decreases s.len(),
{
    if s.len() == 0 {
        0
    } else {
        sum_micro(s.drop_last()) + s.last()
    }
}

/// Absolute difference of two sums.
pub open spec fn delta_of(sum: int, prev: int) -> int {
    if sum >= prev {
        sum - prev
    } else {
        prev - sum
    }
}

/// The impulse trigger condition: a big enough energy change, outside the
/// refractory window, at a dominant frequency above the rumble floor.
pub open spec fn impulse_triggers(
    prev_sum: int,
    last_ts: int,
    sum: int,
    freq_mhz: int,
    now: int,
) -> bool {
    &&& delta_of(sum, prev_sum) > IMPULSE_THRESHOLD as int
    &&& now - last_ts > IMPULSE_TIME_THRESHOLD as int
    &&& freq_mhz > MIN_IMPULSE_FREQ_MHZ as int
}

/// Once an impulse fires at `t1`, no event can fire within the refractory
/// window after it, whatever the magnitude delta or frequency then are.
pub proof fn lemma_refractory_window(
    prev1: int,
    last1: int,
    sum1: int,
    freq1: int,
    t1: int,
    sum2: int,
    freq2: int,
    t2: int,
)
    requires
        impulse_triggers(prev1, last1, sum1, freq1, t1),
        t2 - t1 <= IMPULSE_TIME_THRESHOLD as int,
    ensures
        !impulse_triggers(sum1, t1, sum2, freq2, t2),
{
}

/// One detected impulse: when it happened, the refined dominant frequency
/// in millihertz, the harmonic peaks around it, and its band label.
#[derive(Clone, PartialEq, Eq, Debug)]
pub struct ImpulseData {
    pub timestamp: u64,
    pub dominant_frequency: u32,
    pub peaks: Vec<PeakData>,
    pub coconut_type: Classification,
}

/// Detects energy transients across frames, holding the previous frame's
/// magnitude sum and the last accepted impulse time.
pub struct ImpulseEventDetector {
    previous_magnitude_sum: u64,
    last_impulse_timestamp: u64,
}

impl ImpulseEventDetector {
    /// The previous frame's summed magnitude, in micro units.
    pub closed spec fn prev_sum(self) -> int {
        self.previous_magnitude_sum as int
    }

    /// When the last accepted impulse fired, in milliseconds.
    pub closed spec fn last_ts(self) -> int {
        self.last_impulse_timestamp as int
    }

    pub fn new() -> (d: ImpulseEventDetector)
        ensures
            d.prev_sum() == 0,
            d.last_ts() == 0,
    {
        ImpulseEventDetector { previous_magnitude_sum: 0, last_impulse_timestamp: 0 }
    }

    /// Checks one frame for an impulse.  The previous-sum state is always
    /// replaced by this frame's sum; the last-impulse time moves exactly
    /// when an event fires.  The returned event, if any, carries this
    /// frame's timestamp, frequency, band label, and harmonic peaks.
    pub fn detect(
        &mut self,
        magnitudes: &Vec<u32>,
        analysis: &SpectrumAnalysis,
        now_ms: u64,
    ) -> (r: Option<ImpulseData>)
        requires
            magnitudes@.len() == SPECTRUM_LENGTH,
            analysis_of(*analysis, magnitudes@),
            now_ms as int >= old(self).last_ts(),
        ensures
            final(self).prev_sum() == sum_micro(magnitudes@),
            (r is Some) == impulse_triggers(
                old(self).prev_sum(),
                old(self).last_ts(),
                sum_micro(magnitudes@),
                analysis.dominant_frequency_mhz as int,
                now_ms as int,
            ),
            r is Some ==> final(self).last_ts() == now_ms as int,
            r is None ==> final(self).last_ts() == old(self).last_ts(),
            r matches Some(imp) ==> ({
                &&& imp.timestamp == now_ms
                &&& imp.dominant_frequency == analysis.dominant_frequency_mhz
                &&& imp.coconut_type == classify_spec(analysis.dominant_frequency_mhz as int)
                &&& peaks_describe(imp.peaks@, magnitudes@, dominant_of(magnitudes@).0)
                &&& imp.peaks@.map_values(|p: PeakData| p.index).to_multiset() == peak_indices(
                    magnitudes@,
                    dominant_of(magnitudes@).0,
                ).to_multiset()
            }),
    {
        let sum: u64 = sum_magnitudes(magnitudes);
        let prev: u64 = self.previous_magnitude_sum;
        let delta: u64 = if sum >= prev {
            sum - prev
        } else {
            prev - sum
        };
        self.previous_magnitude_sum = sum;

        if delta > IMPULSE_THRESHOLD && now_ms - self.last_impulse_timestamp
            > IMPULSE_TIME_THRESHOLD && analysis.dominant_frequency_mhz > MIN_IMPULSE_FREQ_MHZ {
            self.last_impulse_timestamp = now_ms;
            proof {
                assert(forall|j: int|
                    0 <= j < magnitudes@.len() ==> bin_threshold(j) >= 0);
                lemma_scan_prefix_props(magnitudes@, magnitudes@.len() as int);
            }
            let peak_idx = find_peaks(magnitudes, analysis.dominant_index);
            let peaks = build_peak_data(magnitudes, &peak_idx);
            let label = classify(analysis.dominant_frequency_mhz);
            proof {
                assert(peaks@.map_values(|p: PeakData| p.index) =~= peak_idx@);
                let dom = dominant_of(magnitudes@).0;
                assert(peak_idx@.contains(analysis.dominant_index));
                let j = choose|j: int|
                    0 <= j < peak_idx@.len() && peak_idx@[j] == analysis.dominant_index;
                assert(peaks@[j].index as int == dom);
                assert forall|a: int, b: int|
                    0 <= a < b < peaks@.len() implies peaks@[a].index < peaks@[b].index by {
                    assert(peaks@[a].index == peak_idx@[a]);
                    assert(peaks@[b].index == peak_idx@[b]);
                    assert(peak_idx@[a] < peak_idx@[b]);
                }
                assert forall|a: int|
                    0 <= a < peaks@.len() implies peaks@[a].index < magnitudes@.len()
                        && peaks@[a].magnitude == magnitudes@[peaks@[a].index as int]
                        && peaks@[a].frequency as int == crate::peaks::bin_freq_mhz(
                        peaks@[a].index as int) by {
                    assert(peaks@[a].index == peak_idx@[a]);
                    assert(peak_idx@[a] as int <= crate::harmonics::scan_window_hi(
                        SPECTRUM_LENGTH as int, dom));
                }
                assert(exists|i: int| 0 <= i < peaks@.len() && peaks@[i].index as int == dom);
                assert(peaks@.len() <= 11);
                assert(peaks_describe(peaks@, magnitudes@, dom));
            }
            Some(
                ImpulseData {
                    timestamp: now_ms,
                    dominant_frequency: analysis.dominant_frequency_mhz,
                    peaks,
                    coconut_type: label,
                },
            )
        } else {
            None
        }
    }
}

/// Sums a spectrum's magnitudes into a 64-bit accumulator, which cannot
/// overflow for a spectrum of this length.
fn sum_magnitudes(magnitudes: &Vec<u32>) -> (sum: u64)
    requires
        magnitudes@.len() == SPECTRUM_LENGTH,
    ensures
        sum as int == sum_micro(magnitudes@),
{
    let mut sum: u64 = 0;
    let mut i: usize = 0;
    proof {
        assert(magnitudes@.take(0) =~= Seq::<u32>::empty());
    }
    while i < SPECTRUM_LENGTH
        invariant
            magnitudes@.len() == SPECTRUM_LENGTH,
            i <= SPECTRUM_LENGTH,
            sum as int == sum_micro(magnitudes@.take(i as int)),
            sum as int <= i * 0xffffffff,
        decreases SPECTRUM_LENGTH - i,
    {
        proof {
            assert(magnitudes@.take(i as int + 1).drop_last() =~= magnitudes@.take(i as int));
            assert(magnitudes@.take(i as int + 1).last() == magnitudes@[i as int]);
        }
        sum = sum + (magnitudes[i] as u64);
        i = i + 1;
    }
    proof {
        assert(magnitudes@.take(SPECTRUM_LENGTH as int) =~= magnitudes@);
    }
    sum
}

} // verus!
