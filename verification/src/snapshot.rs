//! Snapshot publication and the recording state machine.
//!
//! Analysis results are distributed as immutable whole snapshots: the
//! producer builds a complete new `AnalysisSnapshot` locally, then the
//! embedding replaces the shared handle in one bounded critical section.
//! Readers only ever receive whole snapshots, and every snapshot this
//! module produces is internally consistent — its dominant frequency, its
//! impulse record and its peaks all derive from its own magnitude
//! spectrum, so no reader can observe fields from different frames mixed.
//!
//! A two-state machine (idle / recording) drives the producer: a button
//! toggle flips the state, clears any stale impulse from the published
//! snapshot, and resets frame accumulation.

use vstd::prelude::*;

use crate::accumulator::{spliced, FrameAccumulator};
use crate::classify::classify_spec;
use crate::constants::{FFT_LENGTH_BYTES, SPECTRUM_LENGTH};
use crate::impulse::{impulse_triggers, sum_micro, ImpulseData, ImpulseEventDetector};
use crate::peaks::{detect_peak, dominant_freq_mhz, dominant_of, lemma_zero_spectrum_dominant};

verus! {

/// The recording state machine: analysis only runs while recording.
#[derive(Clone, Copy, PartialEq, Eq, Structural, Debug)]
pub enum RecordingState {
    Idle,
    Recording,
}

/// One immutable analysis result: the magnitude spectrum in micro units,
/// the refined dominant frequency in millihertz, the recording state, and
/// the latest impulse if one fired.  Never mutated once published.
#[derive(Clone, PartialEq, Eq, Debug)]
pub struct AnalysisSnapshot {
    pub magnitudes: Vec<u32>,
    pub dominant_frequency: u32,
    pub is_recording: bool,
    pub latest_impulse: Option<ImpulseData>,
}

/// An impulse record agrees with the spectrum it was cut from: same
/// refined frequency, the band label of that frequency, and harmonic
/// peaks that describe that spectrum around its dominant bin.
pub open spec fn impulse_consistent(imp: ImpulseData, mags: Seq<u32>, dom_freq: int) -> bool {
    &&& imp.dominant_frequency as int == dom_freq
    &&& imp.coconut_type == classify_spec(imp.dominant_frequency as int)
    &&& crate::harmonics::peaks_describe(imp.peaks@, mags, dominant_of(mags).0)
}

/// A snapshot is internally consistent: its dominant frequency is the one
/// computed from its own magnitudes, and any impulse it carries agrees
/// with them too.  Every snapshot this module hands out satisfies this, so
/// a reader can never see magnitudes of one frame combined with results of
/// another.
pub open spec fn snapshot_consistent(s: AnalysisSnapshot) -> bool {
    &&& s.magnitudes@.len() == SPECTRUM_LENGTH
    &&& s.dominant_frequency as int == dominant_freq_mhz(s.magnitudes@)
    &&& match s.latest_impulse {
        Some(imp) => impulse_consistent(imp, s.magnitudes@, s.dominant_frequency as int),
        None => true,
    }
}

/// The snapshot published before any frame was analyzed: an all-zero
/// spectrum, dominant frequency zero, not recording, no impulse.
pub fn initial_snapshot() -> (s: AnalysisSnapshot)
    ensures
        snapshot_consistent(s),
        !s.is_recording,
        s.latest_impulse is None,
        s.dominant_frequency == 0,
        s.magnitudes@.len() == SPECTRUM_LENGTH,
        forall|i: int| 0 <= i < s.magnitudes@.len() ==> s.magnitudes@[i] == 0,
{
    let magnitudes: Vec<u32> = vec![0u32; SPECTRUM_LENGTH];
    proof {
        lemma_zero_spectrum_dominant(magnitudes@);
    }
    AnalysisSnapshot {
        magnitudes,
        dominant_frequency: 0,
        is_recording: false,
        latest_impulse: None,
    }
}

/// Copies a spectrum, element for element.
fn copy_spectrum(v: &Vec<u32>) -> (r: Vec<u32>)
    ensures
        r@ == v@,
{
    let mut r: Vec<u32> = Vec::new();
    let mut i: usize = 0;
    while i < v.len()
        invariant
            i <= v@.len(),
            r@ == v@.take(i as int),
        decreases v@.len() - i,
    {
        r.push(v[i]);
        proof {
            assert(r@ =~= v@.take(i as int + 1));
        }
        i = i + 1;
    }
    proof {
        assert(v@.take(v@.len() as int) =~= v@);
    }
    r
}

/// The producer's state: the recording state machine, the frame
/// accumulator and the impulse detector's cross-frame memory.
pub struct AnalysisPipeline {
    state: RecordingState,
    accumulator: FrameAccumulator,
    detector: ImpulseEventDetector,
}

impl AnalysisPipeline {
    /// The accumulator buffer is always a whole frame long.
    pub closed spec fn wf(self) -> bool {
        self.accumulator.wf()
    }

    /// Whether the machine is in the recording state.
    pub closed spec fn recording(self) -> bool {
        self.state is Recording
    }

    /// Bytes accumulated toward the next frame.
    pub closed spec fn acc_progress(self) -> int {
        self.accumulator.progress()
    }

    /// The accumulator's buffer contents.
    pub closed spec fn acc_bytes(self) -> Seq<u8> {
        self.accumulator.bytes()
    }

    /// The impulse detector's previous-frame magnitude sum.
    pub closed spec fn prev_sum(self) -> int {
        self.detector.prev_sum()
    }

    /// When the impulse detector last accepted an impulse.
    pub closed spec fn last_ts(self) -> int {
        self.detector.last_ts()
    }

    /// A fresh pipeline: idle, empty accumulator, quiet detector.
    pub fn new() -> (p: AnalysisPipeline)
        ensures
            p.wf(),
            !p.recording(),
            p.acc_progress() == 0,
            p.prev_sum() == 0,
            p.last_ts() == 0,
    {
        AnalysisPipeline {
            state: RecordingState::Idle,
            accumulator: FrameAccumulator::new(),
            detector: ImpulseEventDetector::new(),
        }
    }

    pub fn is_recording(&self) -> (r: bool)
        ensures
            r == self.recording(),
    {
        match self.state {
            RecordingState::Recording => true,
            RecordingState::Idle => false,
        }
    }

    /// A debounced button edge toggles the recording state.  The snapshot
    /// to publish keeps the current spectrum and dominant frequency,
    /// carries the new recording state, and clears any stale impulse;
    /// frame accumulation starts over.  The impulse detector's cross-frame
    /// memory is kept.
    pub fn on_button_toggle(&mut self, current: &AnalysisSnapshot) -> (s: AnalysisSnapshot)
        requires
            old(self).wf(),
            snapshot_consistent(*current),
        ensures
            final(self).wf(),
            final(self).recording() == !old(self).recording(),
            final(self).acc_progress() == 0,
            final(self).prev_sum() == old(self).prev_sum(),
            final(self).last_ts() == old(self).last_ts(),
            s.magnitudes@ == current.magnitudes@,
            s.dominant_frequency == current.dominant_frequency,
            s.is_recording == final(self).recording(),
            s.latest_impulse is None,
            snapshot_consistent(s),
    {
        self.state = match self.state {
            RecordingState::Idle => RecordingState::Recording,
            RecordingState::Recording => RecordingState::Idle,
        };
        self.accumulator.reset();
        let recording = self.is_recording();
        AnalysisSnapshot {
            magnitudes: copy_spectrum(&current.magnitudes),
            dominant_frequency: current.dominant_frequency,
            is_recording: recording,
            latest_impulse: None,
        }
    }

    /// Feeds a capture chunk into the frame accumulator; returns whether a
    /// whole frame is now ready.  Everything else is untouched.
    pub fn push_audio(&mut self, chunk: &Vec<u8>) -> (full: bool)
        requires
            old(self).wf(),
        ensures
            final(self).wf(),
            final(self).recording() == old(self).recording(),
            final(self).prev_sum() == old(self).prev_sum(),
            final(self).last_ts() == old(self).last_ts(),
            ({
                let copied = if chunk@.len() < FFT_LENGTH_BYTES - old(self).acc_progress() {
                    chunk@.len() as int
                } else {
                    FFT_LENGTH_BYTES - old(self).acc_progress()
                };
                final(self).acc_progress() == old(self).acc_progress() + copied
                    && final(self).acc_bytes() == spliced(
                    old(self).acc_bytes(),
                    old(self).acc_progress(),
                    chunk@.take(copied),
                )
            }),
            full == (final(self).acc_progress() == FFT_LENGTH_BYTES),
    {
        self.accumulator.push(chunk)
    }

    /// The completed raw frame, ready for decoding; only whole frames are
    /// ever handed on.
    pub fn frame(&self) -> (frame: &Vec<u8>)
        requires
            self.wf(),
            self.acc_progress() == FFT_LENGTH_BYTES,
        ensures
            frame@ == self.acc_bytes(),
            frame@.len() == FFT_LENGTH_BYTES,
    {
        self.accumulator.frame()
    }

    /// Analyzes one completed frame's magnitude spectrum while recording:
    /// finds the dominant peak, checks for an impulse, resets frame
    /// accumulation, and builds the complete snapshot to publish.  All of
    /// the snapshot's fields derive from this one spectrum.
    pub fn process_frame(&mut self, magnitudes: Vec<u32>, now_ms: u64) -> (s: AnalysisSnapshot)
        requires
            old(self).wf(),
            old(self).recording(),
            magnitudes@.len() == SPECTRUM_LENGTH,
            now_ms as int >= old(self).last_ts(),
        ensures
            final(self).wf(),
            final(self).recording(),
            final(self).acc_progress() == 0,
            final(self).prev_sum() == sum_micro(magnitudes@),
            s.magnitudes@ == magnitudes@,
            s.dominant_frequency as int == dominant_freq_mhz(magnitudes@),
            s.is_recording,
            (s.latest_impulse is Some) == impulse_triggers(
                old(self).prev_sum(),
                old(self).last_ts(),
                sum_micro(magnitudes@),
                dominant_freq_mhz(magnitudes@),
                now_ms as int,
            ),
            s.latest_impulse matches Some(imp) ==> imp.timestamp == now_ms && final(self).last_ts()
                == now_ms as int,
            s.latest_impulse is None ==> final(self).last_ts() == old(self).last_ts(),
            snapshot_consistent(s),
    {
        let analysis = detect_peak(&magnitudes);
        let latest_impulse = self.detector.detect(&magnitudes, &analysis, now_ms);
        self.accumulator.reset();
        AnalysisSnapshot {
            magnitudes,
            dominant_frequency: analysis.dominant_frequency_mhz,
            is_recording: true,
            latest_impulse,
        }
    }
}

} // verus!
