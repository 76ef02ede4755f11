//! The encoding sink: the component that owns the writer slot during
//! capture.
//!
//! The slot holds at most one writer. It is created populated, samples are
//! appended while it is populated, and `finalize` empties it exactly once,
//! handing back the completed container bytes. Writes that arrive after the
//! slot was emptied are silent no-ops: the capture callback may race a
//! finalize and must neither panic nor block. The non-blocking lock that
//! shares the sink between the callback and the controlling thread lives
//! with the caller; see [`crate::session::CaptureSession::deliver`] for the
//! drop-on-contention policy around it.

use vstd::prelude::*;
use crate::format::EncodingSpec;
use crate::sample::Sample;
use crate::sample::spec_uniform_format;
use crate::wav::MAX_DATA_BYTES;
use crate::wav::encode_recording;
use crate::wav::spec_encoded;

verus! {

/// The writer slot: encoding parameters fixed at creation, and at most one
/// open recording.
pub struct EncodingSink {
    encoding: EncodingSpec,
    writer: Option<Vec<Sample>>,
}

impl EncodingSink {
    /// The encoding parameters this sink was opened with; they never change
    /// for the session's lifetime.
    pub closed spec fn spec_encoding(self) -> EncodingSpec {
        self.encoding
    }

    /// Whether the writer slot is still populated, that is, `finalize` has
    /// not run yet.
    pub closed spec fn is_open(self) -> bool {
        self.writer is Some
    }

    /// The samples recorded so far, in delivery order; empty once the slot
    /// has been emptied.
    pub closed spec fn spec_recorded(self) -> Seq<Sample> {
        match self.writer {
            Some(samples) => samples@,
            None => Seq::empty(),
        }
    }

    /// Well-formedness: valid encoding parameters, every recorded sample in
    /// the encoded format, and a recording that still fits the container.
    pub open spec fn wf(self) -> bool {
        &&& self.spec_encoding().valid()
        &&& spec_uniform_format(self.spec_recorded(), self.spec_encoding().spec_sample_format())
        &&& self.spec_recorded().len() * self.spec_encoding().spec_byte_width() <= MAX_DATA_BYTES
    }

    /// What a batch must satisfy to be appended: samples of the encoded
    /// format, and room left in the container.
    pub open spec fn spec_accepts(self, batch: Seq<Sample>) -> bool {
        &&& spec_uniform_format(batch, self.spec_encoding().spec_sample_format())
        &&& (self.spec_recorded().len() + batch.len()) * self.spec_encoding().spec_byte_width()
            <= MAX_DATA_BYTES
    }

    /// Open a sink for one session: populated writer slot, nothing recorded.
    pub fn new(encoding: EncodingSpec) -> (sink: EncodingSink)
        requires
            encoding.valid(),
        ensures
            sink.wf(),
            sink.is_open(),
            sink.spec_encoding() == encoding,
            sink.spec_recorded() == Seq::<Sample>::empty(),
    {
        EncodingSink { encoding, writer: Some(Vec::new()) }
    }

    /// How many samples are recorded right now; zero once the slot has
    /// been emptied. Callers use this to respect the container's capacity
    /// before writing.
    pub fn recorded_len(&self) -> (len: usize)
        ensures
            len == self.spec_recorded().len(),
    {
        match &self.writer {
            Some(samples) => samples.len(),
            None => 0,
        }
    }

    /// Whether the writer slot is still populated.
    pub fn is_populated(&self) -> (populated: bool)
        ensures
            populated == self.is_open(),
    {
        self.writer.is_some()
    }

    /// Append a batch of samples to the open recording, in delivery order.
    ///
    /// After `finalize` the call is a silent no-op: it does not panic, does
    /// not fail and changes nothing.
    pub fn write(&mut self, batch: &Vec<Sample>)
        requires
            old(self).wf(),
            old(self).spec_accepts(batch@),
        ensures
            final(self).wf(),
            final(self).spec_encoding() == old(self).spec_encoding(),
            old(self).is_open() ==> {
                &&& final(self).is_open()
                &&& final(self).spec_recorded() == old(self).spec_recorded() + batch@
            },
            !old(self).is_open() ==> *final(self) == *old(self),
    {
        match self.writer.take() {
            Some(mut samples) => {
                let ghost opened: Seq<Sample> = samples@;
                let mut i: usize = 0;
                while i < batch.len()
                    invariant
                        i <= batch@.len(),
                        samples@ == opened + batch@.take(i as int),
                    decreases batch@.len() - i,
                {
                    samples.push(batch[i]);
                    proof {
                        assert(opened + batch@.take(i + 1) =~= (opened + batch@.take(
                            i as int,
                        )).push(batch@[i as int]));
                    }
                    i = i + 1;
                }
                assert(batch@.take(batch@.len() as int) =~= batch@);
                self.writer = Some(samples);
            },
            None => {},
        }
    }

    /// The write path for a caller that cannot know beforehand whether the
    /// batch still fits: append the batch whole when the slot is populated
    /// and the container has room for all of it, and report what happened.
    /// A batch that does not fit, or arrives after `finalize`, is dropped
    /// whole — never trimmed, never an error.
    pub fn try_write(&mut self, batch: &Vec<Sample>) -> (accepted: bool)
        requires
            old(self).wf(),
            spec_uniform_format(batch@, old(self).spec_encoding().spec_sample_format()),
        ensures
            final(self).wf(),
            final(self).spec_encoding() == old(self).spec_encoding(),
            accepted <==> old(self).is_open() && old(self).spec_accepts(batch@),
            accepted ==> final(self).is_open() && final(self).spec_recorded() == old(
                self,
            ).spec_recorded() + batch@,
            !accepted ==> *final(self) == *old(self),
    {
        if !self.is_populated() {
            return false;
        }
        let width: u16 = self.encoding.bits_per_sample / 8;
        assert(1 <= width <= 4);
        let recorded: u64 = self.recorded_len() as u64;
        assert(recorded <= MAX_DATA_BYTES) by (nonlinear_arith)
            requires
                recorded * width <= MAX_DATA_BYTES,
                width >= 1,
        ;
        let batch_len: u64 = batch.len() as u64;
        if batch_len > MAX_DATA_BYTES as u64 {
            assert((recorded + batch_len) * width > MAX_DATA_BYTES) by (nonlinear_arith)
                requires
                    batch_len > MAX_DATA_BYTES,
                    width >= 1,
                    recorded >= 0,
            ;
            return false;
        }
        assert((recorded + batch_len) * width <= 0xC_0000_0000) by (nonlinear_arith)
            requires
                recorded <= MAX_DATA_BYTES,
                batch_len <= MAX_DATA_BYTES,
                width <= 4,
                MAX_DATA_BYTES < 0x1_0000_0000,
        ;
        if (recorded + batch_len) * (width as u64) <= MAX_DATA_BYTES as u64 {
            self.write(batch);
            true
        } else {
            false
        }
    }

    /// Empty the writer slot and hand back the completed container bytes.
    ///
    /// The first call returns the encoded recording; every later call finds
    /// the slot already empty and succeeds as a no-op returning nothing, so
    /// the underlying resource can never be closed twice.
    pub fn finalize(&mut self) -> (out: Option<Vec<u8>>)
        requires
            old(self).wf(),
        ensures
            final(self).wf(),
            final(self).spec_encoding() == old(self).spec_encoding(),
            !final(self).is_open(),
            old(self).is_open() ==> {
                &&& out matches Some(bytes) && bytes@ == spec_encoded(
                    old(self).spec_encoding(),
                    old(self).spec_recorded(),
                )
            },
            !old(self).is_open() ==> out is None && *final(self) == *old(self),
    {
        match self.writer.take() {
            Some(samples) => Some(encode_recording(self.encoding, &samples)),
            None => None,
        }
    }
}

} // verus!
