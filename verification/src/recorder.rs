//! WAV recorder: exclusive owner of one open output container.
//!
//! The recorder models the container's contents and hands the caller
//! the bytes that belong on disk: `write` returns what a batch adds to
//! the data chunk, and `finalize` returns the true header that must
//! overwrite the placeholder written when the container was opened.

use crate::wav::{header_bytes, le_data, make_header, sample_le, AudioFormat, MAX_SAMPLES};
use vstd::prelude::*;

verus! {

/// One open output container: the audio format it was created with,
/// and the samples appended so far. Finalization consumes the
/// recorder, so a closed container can never be written or finalized
/// again.
pub struct Recorder {
    format: AudioFormat,
    total: u64,
    samples: Ghost<Seq<i16>>,
}

impl View for Recorder {
    type V = Seq<i16>;

    closed spec fn view(&self) -> Seq<i16> {
        self.samples@
    }
}

impl Recorder {
    /// The sample count mirrors the modelled contents and stays small
    /// enough for the header's 32-bit data-size field.
    pub closed spec fn wf(self) -> bool {
        &&& self.format.wf()
        &&& self.samples@.len() == self.total
        &&& self.total <= MAX_SAMPLES
    }

    pub closed spec fn spec_format(self) -> AudioFormat {
        self.format
    }

    /// A well-formed recorder's contents always fit the header's
    /// 32-bit data-size field.
    pub proof fn lemma_wf_bounds(&self)
        requires
            self.wf(),
        ensures
            self@.len() <= MAX_SAMPLES,
            self.spec_format().wf(),
    {
    }

    /// Open a new, empty container in format `fmt`. The second result
    /// is the 44-byte placeholder header (for zero samples) that the
    /// on-disk file starts with.
    pub fn open(fmt: AudioFormat) -> (r: (Recorder, Vec<u8>))
        requires
            fmt.wf(),
        ensures
            r.0.wf(),
            r.0@ == Seq::<i16>::empty(),
            r.0.spec_format() == fmt,
            r.1@ == header_bytes(fmt, 0),
    {
        let placeholder = make_header(fmt, 0);
        (Recorder { format: fmt, total: 0, samples: Ghost(Seq::empty()) }, placeholder)
    }

    /// How many samples the container holds.
    pub fn total_samples(&self) -> (n: u64)
        requires
            self.wf(),
        ensures
            n == self@.len(),
    {
        self.total
    }

    /// Append a batch of samples. The returned bytes are exactly what
    /// the batch adds to the container's data chunk, two little-endian
    /// bytes per sample in order.
    pub fn write(&mut self, batch: &Vec<i16>) -> (data: Vec<u8>)
        requires
            old(self).wf(),
            old(self)@.len() + batch@.len() <= MAX_SAMPLES,
        ensures
            final(self).wf(),
            final(self).spec_format() == old(self).spec_format(),
            final(self)@ == old(self)@ + batch@,
            data@ == le_data(batch@),
    {
        let mut data: Vec<u8> = Vec::new();
        let mut i: usize = 0;
        while i < batch.len()
            invariant
                0 <= i <= batch@.len(),
                data@ == le_data(batch@.take(i as int)),
            decreases batch@.len() - i,
        {
            let x: u16 = batch[i] as u16;
            data.push((x % 256) as u8);
            data.push((x / 256) as u8);
            proof {
                assert(batch@.take(i + 1).drop_last() =~= batch@.take(i as int));
                assert(batch@.take(i + 1).last() == batch@[i as int]);
                assert(data@ =~= le_data(batch@.take(i + 1)));
            }
            i = i + 1;
        }
        proof {
            assert(batch@.take(batch@.len() as int) =~= batch@);
        }
        self.total = self.total + batch.len() as u64;
        self.samples = Ghost(self.samples@ + batch@);
        data
    }

    /// Finalize the container: the true header, reflecting every
    /// appended sample. Consuming the recorder closes it, so this
    /// happens exactly once per opened container.
    pub fn finalize(self) -> (h: Vec<u8>)
        requires
            self.wf(),
        ensures
            h@ == header_bytes(self.spec_format(), self@.len() as int),
    {
        make_header(self.format, self.total)
    }
}

} // verus!
