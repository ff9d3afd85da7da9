//! Binary telemetry framing of snapshots and impulse events.
//!
//! The push stream tags each frame with one header byte: `0x01` for a
//! spectrum update (the magnitudes, then the dominant frequency, all as
//! little-endian 32-bit words) and `0x02` for an impulse event (timestamp,
//! frequency, the peak list, then the length-prefixed band label).  An
//! impulse frame is only sent when its timestamp differs from the last one
//! sent.

use vstd::prelude::*;

use crate::classify::{label_bytes, label_spec};
use crate::harmonics::PeakData;
use crate::impulse::ImpulseData;
use crate::snapshot::AnalysisSnapshot;

verus! {

/// The two little-endian bytes of a 16-bit value.
pub open spec fn le16(x: u16) -> Seq<u8> {
    seq![(x & 0xff) as u8, ((x >> 8) & 0xff) as u8]
}

/// The four little-endian bytes of a 32-bit value.
pub open spec fn le32(x: u32) -> Seq<u8> {
    seq![
        (x & 0xff) as u8,
        ((x >> 8) & 0xff) as u8,
        ((x >> 16) & 0xff) as u8,
        ((x >> 24) & 0xff) as u8,
    ]
}

/// The eight little-endian bytes of a 64-bit value.
pub open spec fn le64(x: u64) -> Seq<u8> {
    seq![
        (x & 0xff) as u8,
        ((x >> 8) & 0xff) as u8,
        ((x >> 16) & 0xff) as u8,
        ((x >> 24) & 0xff) as u8,
        ((x >> 32) & 0xff) as u8,
        ((x >> 40) & 0xff) as u8,
        ((x >> 48) & 0xff) as u8,
        ((x >> 56) & 0xff) as u8,
    ]
}

/// The first `n` magnitudes as consecutive little-endian words.
pub open spec fn magnitudes_bytes(mags: Seq<u32>, n: int) -> Seq<u8>
    decreases n,
{
    if n <= 0 {
        Seq::empty()
    } else {
        magnitudes_bytes(mags, n - 1) + le32(mags[n - 1])
    }
}

/// A spectrum frame: header `0x01`, every magnitude, then the dominant
/// frequency, all little-endian.
pub open spec fn spectrum_frame_bytes(s: AnalysisSnapshot) -> Seq<u8> {
    seq![1u8] + magnitudes_bytes(s.magnitudes@, s.magnitudes@.len() as int) + le32(
        s.dominant_frequency,
    )
}

/// The first `n` peaks, each as index (2 bytes), frequency (4 bytes) and
/// magnitude (4 bytes), little-endian.
pub open spec fn peaks_bytes(peaks: Seq<PeakData>, n: int) -> Seq<u8>
    decreases n,
{
    if n <= 0 {
        Seq::empty()
    } else {
        peaks_bytes(peaks, n - 1) + le16(peaks[n - 1].index as u16) + le32(peaks[n - 1].frequency)
            + le32(peaks[n - 1].magnitude)
    }
}

/// An impulse frame: header `0x02`, timestamp (8 bytes), dominant
/// frequency (4 bytes), peak count (1 byte), the peaks, then the band
/// label prefixed with its length (1 byte).
pub open spec fn impulse_frame_bytes(imp: ImpulseData) -> Seq<u8> {
    seq![2u8] + le64(imp.timestamp) + le32(imp.dominant_frequency) + seq![
        imp.peaks@.len() as u8,
    ] + peaks_bytes(imp.peaks@, imp.peaks@.len() as int) + seq![
        label_spec(imp.coconut_type).len() as u8,
    ] + label_spec(imp.coconut_type)
}

/// Magnitude byte runs grow four bytes per magnitude.
pub proof fn lemma_magnitudes_bytes_len(mags: Seq<u32>, n: int)
    requires
        n >= 0,
    ensures
        magnitudes_bytes(mags, n).len() == 4 * n,
    decreases n,
{
    if n > 0 {
        lemma_magnitudes_bytes_len(mags, n - 1);
    }
}

/// Appends the two little-endian bytes of a 16-bit value.
fn push_le16(out: &mut Vec<u8>, x: u16)
    ensures
        final(out)@ == old(out)@ + le16(x),
{
    out.push((x & 0xff) as u8);
    out.push(((x >> 8) & 0xff) as u8);
    proof {
        assert(out@ =~= old(out)@ + le16(x));
    }
}

/// Appends the four little-endian bytes of a 32-bit value.
fn push_le32(out: &mut Vec<u8>, x: u32)
    ensures
        final(out)@ == old(out)@ + le32(x),
{
    out.push((x & 0xff) as u8);
    out.push(((x >> 8) & 0xff) as u8);
    out.push(((x >> 16) & 0xff) as u8);
    out.push(((x >> 24) & 0xff) as u8);
    proof {
        assert(out@ =~= old(out)@ + le32(x));
    }
}

/// Appends the eight little-endian bytes of a 64-bit value.
fn push_le64(out: &mut Vec<u8>, x: u64)
    ensures
        final(out)@ == old(out)@ + le64(x),
{
    out.push((x & 0xff) as u8);
    out.push(((x >> 8) & 0xff) as u8);
    out.push(((x >> 16) & 0xff) as u8);
    out.push(((x >> 24) & 0xff) as u8);
    out.push(((x >> 32) & 0xff) as u8);
    out.push(((x >> 40) & 0xff) as u8);
    out.push(((x >> 48) & 0xff) as u8);
    out.push(((x >> 56) & 0xff) as u8);
    proof {
        assert(out@ =~= old(out)@ + le64(x));
    }
}

/// Encodes a snapshot's spectrum frame for the push stream.
pub fn encode_spectrum_frame(s: &AnalysisSnapshot) -> (frame: Vec<u8>)
    ensures
        frame@ == spectrum_frame_bytes(*s),
        frame@.len() == 5 + 4 * s.magnitudes@.len(),
{
    let mut out: Vec<u8> = Vec::new();
    out.push(1u8);
    proof {
        assert(out@ =~= seq![1u8] + magnitudes_bytes(s.magnitudes@, 0));
    }
    let mut i: usize = 0;
    while i < s.magnitudes.len()
        invariant
            i <= s.magnitudes@.len(),
            out@ == seq![1u8] + magnitudes_bytes(s.magnitudes@, i as int),
        decreases s.magnitudes@.len() - i,
    {
        push_le32(&mut out, s.magnitudes[i]);
        proof {
            assert(out@ =~= seq![1u8] + magnitudes_bytes(s.magnitudes@, i as int + 1));
        }
        i = i + 1;
    }
    push_le32(&mut out, s.dominant_frequency);
    proof {
        assert(out@ =~= spectrum_frame_bytes(*s));
        lemma_magnitudes_bytes_len(s.magnitudes@, s.magnitudes@.len() as int);
    }
    out
}

/// Encodes an impulse event frame for the push stream.
pub fn encode_impulse_frame(imp: &ImpulseData) -> (frame: Vec<u8>)
    requires
        imp.peaks@.len() <= 255,
        forall|i: int| 0 <= i < imp.peaks@.len() ==> imp.peaks@[i].index < 65536,
    ensures
        frame@ == impulse_frame_bytes(*imp),
{
    let mut out: Vec<u8> = Vec::new();
    out.push(2u8);
    push_le64(&mut out, imp.timestamp);
    push_le32(&mut out, imp.dominant_frequency);
    out.push(imp.peaks.len() as u8);
    proof {
        assert(out@ =~= seq![2u8] + le64(imp.timestamp) + le32(imp.dominant_frequency) + seq![
            imp.peaks@.len() as u8,
        ] + peaks_bytes(imp.peaks@, 0));
    }
    let ghost prefix = out@;
    let mut i: usize = 0;
    while i < imp.peaks.len()
        invariant
            i <= imp.peaks@.len(),
            forall|k: int| 0 <= k < imp.peaks@.len() ==> imp.peaks@[k].index < 65536,
            out@ == prefix + peaks_bytes(imp.peaks@, i as int),
            prefix == seq![2u8] + le64(imp.timestamp) + le32(imp.dominant_frequency) + seq![
                imp.peaks@.len() as u8,
            ] + peaks_bytes(imp.peaks@, 0),
        decreases imp.peaks@.len() - i,
    {
        let p = imp.peaks[i];
        push_le16(&mut out, p.index as u16);
        push_le32(&mut out, p.frequency);
        push_le32(&mut out, p.magnitude);
        proof {
            assert(out@ =~= prefix + peaks_bytes(imp.peaks@, i as int + 1));
        }
        i = i + 1;
    }
    let label = label_bytes(imp.coconut_type);
    proof {
        assert(label@.len() <= 7);
    }
    out.push(label.len() as u8);
    let mut j: usize = 0;
    while j < label.len()
        invariant
            j <= label@.len(),
            out@ == prefix + peaks_bytes(imp.peaks@, imp.peaks@.len() as int) + seq![
                label@.len() as u8,
            ] + label@.take(j as int),
            prefix == seq![2u8] + le64(imp.timestamp) + le32(imp.dominant_frequency) + seq![
                imp.peaks@.len() as u8,
            ] + peaks_bytes(imp.peaks@, 0),
        decreases label@.len() - j,
    {
        out.push(label[j]);
        proof {
            assert(label@.take(j as int + 1) =~= label@.take(j as int).push(label@[j as int]));
            assert(out@ =~= prefix + peaks_bytes(imp.peaks@, imp.peaks@.len() as int) + seq![
                label@.len() as u8,
            ] + label@.take(j as int + 1));
        }
        j = j + 1;
    }
    proof {
        assert(label@.take(label@.len() as int) =~= label@);
        assert(out@ =~= impulse_frame_bytes(*imp));
    }
    out
}

/// Whether an impulse frame should be pushed: only when its timestamp
/// differs from the last one sent.
pub fn should_send_impulse(last_sent: Option<u64>, timestamp: u64) -> (send: bool)
    ensures
        send == (last_sent != Some(timestamp)),
{
    match last_sent {
        Some(t) => t != timestamp,
        None => true,
    }
}

} // verus!
