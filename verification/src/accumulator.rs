//! Frame accumulation from variable-size capture reads.
//!
//! The capture transport hands the pipeline chunks of arbitrary length; the
//! accumulator copies them into a fixed raw frame buffer until exactly
//! `FFT_LENGTH_BYTES` have arrived.  Short reads keep previous progress;
//! only an explicit reset (driven by the recording state machine) clears it.
//! No partial frame is ever handed on.

use vstd::prelude::*;
use vstd::std_specs::vec::vec_index_mut;

use crate::constants::FFT_LENGTH_BYTES;

verus! {

/// Assembles a fixed-length raw sample frame from a stream of chunks.
pub struct FrameAccumulator {
    buf: Vec<u8>,
    filled: usize,
}

impl FrameAccumulator {
    /// The accumulator's buffer always spans one raw frame, and progress
    /// never exceeds it.
    pub closed spec fn wf(self) -> bool {
        self.buf@.len() == FFT_LENGTH_BYTES && self.filled <= FFT_LENGTH_BYTES
    }

    /// Number of bytes accumulated so far.
    pub closed spec fn progress(self) -> int {
        self.filled as int
    }

    /// The frame buffer contents (all of it, filled or not).
    pub closed spec fn bytes(self) -> Seq<u8> {
        self.buf@
    }

    /// A full frame is ready exactly when every byte has been accumulated.
    pub open spec fn is_full_spec(self) -> bool {
        self.progress() == FFT_LENGTH_BYTES
    }

    pub fn new() -> (acc: FrameAccumulator)
        ensures
            acc.wf(),
            acc.progress() == 0,
            forall|i: int| 0 <= i < FFT_LENGTH_BYTES ==> acc.bytes()[i] == 0,
    {
        FrameAccumulator { buf: vec![0u8; FFT_LENGTH_BYTES], filled: 0 }
    }

    /// Accepts a chunk and copies as much of it as still fits, returning
    /// whether the frame is now complete.  The bytes copied are exactly the
    /// first `min(chunk.len(), space left)` bytes of the chunk, placed right
    /// after the bytes already accumulated; everything else is untouched.
    pub fn push(&mut self, chunk: &Vec<u8>) -> (full: bool)
        requires
            old(self).wf(),
        ensures
            final(self).wf(),
            final(self).progress() == old(self).progress() + copied_len(*old(self), chunk@),
            final(self).bytes() == spliced(old(self).bytes(), old(self).progress(), chunk@.take(
                copied_len(*old(self), chunk@))),
            full == final(self).is_full_spec(),
    {
        let space_left: usize = FFT_LENGTH_BYTES - self.filled;
        let bytes_to_copy: usize = if chunk.len() < space_left {
            chunk.len()
        } else {
            space_left
        };
        let mut i: usize = 0;
        while i < bytes_to_copy
            invariant
                old(self).wf(),
                i <= bytes_to_copy,
                self.filled == old(self).filled,
                bytes_to_copy <= chunk@.len(),
                self.filled + bytes_to_copy <= FFT_LENGTH_BYTES,
                self.buf@.len() == FFT_LENGTH_BYTES,
                forall|j: int|
                    0 <= j < FFT_LENGTH_BYTES && !(self.filled <= j < self.filled + i)
                        ==> self.buf@[j] == old(self).buf@[j],
                forall|j: int|
                    0 <= j < i ==> self.buf@[self.filled + j] == chunk@[j],
            decreases bytes_to_copy - i,
        {
            *vec_index_mut(&mut self.buf, self.filled + i) = chunk[i];
            i = i + 1;
        }
        self.filled = self.filled + bytes_to_copy;
        proof {
            assert(copied_len(*old(self), chunk@) == bytes_to_copy);
            assert(self.buf@ =~= spliced(old(self).bytes(), old(self).progress(),
                chunk@.take(copied_len(*old(self), chunk@))));
        }
        self.filled == FFT_LENGTH_BYTES
    }

    /// Clears accumulation progress (the stale bytes themselves remain and
    /// are overwritten by later pushes).
    pub fn reset(&mut self)
        requires
            old(self).wf(),
        ensures
            final(self).wf(),
            final(self).progress() == 0,
            final(self).bytes() == old(self).bytes(),
    {
        self.filled = 0;
    }

    pub fn is_full(&self) -> (full: bool)
        ensures
            full == self.is_full_spec(),
    {
        self.filled == FFT_LENGTH_BYTES
    }

    /// The completed raw frame.  Only a full frame may be read: partial
    /// frames are never processed.
    pub fn frame(&self) -> (frame: &Vec<u8>)
        requires
            self.wf(),
            self.is_full_spec(),
        ensures
            frame@ == self.bytes(),
            frame@.len() == FFT_LENGTH_BYTES,
    {
        &self.buf
    }
}

/// How many bytes of a chunk the accumulator will take: all of it, or
/// whatever space is left, whichever is smaller.
pub open spec fn copied_len(acc: FrameAccumulator, chunk: Seq<u8>) -> int {
    let space = FFT_LENGTH_BYTES - acc.progress();
    if chunk.len() < space {
        chunk.len() as int
    } else {
        space
    }
}

/// `base` with `patch` written in starting at position `at`.
pub open spec fn spliced(base: Seq<u8>, at: int, patch: Seq<u8>) -> Seq<u8> {
    base.take(at) + patch + base.skip(at + patch.len())
}

} // verus!
