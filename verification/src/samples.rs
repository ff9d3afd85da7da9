//! Decoding a raw byte frame into signed 32-bit samples.
//!
//! A raw frame holds `FFT_LENGTH` little-endian 32-bit signed samples.
//! Downstream, the embedding normalizes each sample by `2^31` before the
//! transform; the decoding itself is exact integer work and is proved here.

use vstd::prelude::*;

use crate::constants::{FFT_LENGTH, FFT_LENGTH_BYTES};

verus! {

/// The unsigned 32-bit word assembled from four little-endian bytes.
pub open spec fn le_word(b0: u8, b1: u8, b2: u8, b3: u8) -> u32 {
    (b0 as u32) | ((b1 as u32) << 8) | ((b2 as u32) << 16) | ((b3 as u32) << 24)
}

/// The `i`-th sample of a raw frame: its four bytes, little-endian,
/// reinterpreted as a signed 32-bit integer.
pub open spec fn sample_at(bytes: Seq<u8>, i: int) -> i32 {
    le_word(bytes[4 * i], bytes[4 * i + 1], bytes[4 * i + 2], bytes[4 * i + 3]) as i32
}

/// Four zero bytes decode to the zero sample.
pub proof fn lemma_zero_sample()
    ensures
        le_word(0, 0, 0, 0) == 0,
        le_word(0, 0, 0, 0) as i32 == 0,
{
    assert(le_word(0, 0, 0, 0) == 0) by (bit_vector);
}

/// Decodes a complete raw frame into its `FFT_LENGTH` samples.
pub fn decode_samples(frame: &Vec<u8>) -> (samples: Vec<i32>)
    requires
        frame@.len() == FFT_LENGTH_BYTES,
    ensures
        samples@.len() == FFT_LENGTH,
        forall|i: int| 0 <= i < FFT_LENGTH ==> samples@[i] == sample_at(frame@, i),
{
    let mut samples: Vec<i32> = Vec::new();
    let mut i: usize = 0;
    while i < FFT_LENGTH
        invariant
            frame@.len() == FFT_LENGTH_BYTES,
            i <= FFT_LENGTH,
            samples@.len() == i,
            forall|j: int| 0 <= j < i ==> samples@[j] == sample_at(frame@, j),
        decreases FFT_LENGTH - i,
    {
        let offset: usize = i * 4;
        let word: u32 = (frame[offset] as u32) | ((frame[offset + 1] as u32) << 8)
            | ((frame[offset + 2] as u32) << 16) | ((frame[offset + 3] as u32) << 24);
        samples.push(word as i32);
        i = i + 1;
    }
    samples
}

} // verus!
