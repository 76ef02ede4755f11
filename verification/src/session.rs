//! The capture session: the orchestration from a negotiated configuration
//! to a finished recording.
//!
//! A session derives the encoding parameters from its configuration before
//! anything is recorded, opens the sink, and then receives sample batches
//! exactly as the device's callback hands them over: each delivery carries
//! the outcome of the non-blocking lock attempt that shares the sink with
//! the controlling thread. A batch that lost the lock is dropped whole —
//! never queued, never retried — so the real-time callback can never stall.
//! Stopping the session happens after the caller has dropped the live
//! stream, so no further deliveries can race the finalize; a straggler that
//! does reach the sink late is still harmless, because writes to a
//! finalized sink are silent no-ops.

use vstd::prelude::*;
use crate::format::DeviceConfig;
use crate::format::EncodingSpec;
use crate::format::lemma_derived_spec_sample_format;
use crate::format::lemma_derived_spec_valid;
use crate::sample::Sample;
use crate::sample::convert_batch;
use crate::sample::spec_uniform_format;
use crate::sink::EncodingSink;
use crate::wav::MAX_DATA_BYTES;
use crate::wav::spec_encoded;
use crate::wav::spec_header_len;
use crate::wav::spec_wav_header;

verus! {

/// One capture session: the immutable negotiated configuration and the
/// writer slot it feeds.
pub struct CaptureSession {
    config: DeviceConfig,
    sink: EncodingSink,
}

impl CaptureSession {
    /// The configuration this session was started with.
    pub closed spec fn spec_config(self) -> DeviceConfig {
        self.config
    }

    /// The samples recorded so far, in delivery order.
    pub closed spec fn spec_recorded(self) -> Seq<Sample> {
        self.sink.spec_recorded()
    }

    /// Well-formedness: a well-formed configuration, an open well-formed
    /// sink, and encoding parameters that were derived from the
    /// configuration before the sink was opened.
    pub closed spec fn wf(self) -> bool {
        &&& self.config.well_formed()
        &&& self.sink.wf()
        &&& self.sink.is_open()
        &&& self.sink.spec_encoding() == EncodingSpec::spec_of_config(self.config)
    }

    /// What a delivered batch must satisfy to be recorded: samples in the
    /// session's native format, and room left in the container.
    pub open spec fn spec_accepts(self, batch: Seq<Sample>) -> bool {
        &&& spec_uniform_format(batch, self.spec_config().format)
        &&& (self.spec_recorded().len() + batch.len())
            * self.spec_config().format.spec_byte_width() <= MAX_DATA_BYTES
    }

    /// Start a session: derive the encoding parameters from the
    /// configuration, then open the empty sink.
    ///
    /// Opening the output file and the device stream are the caller's I/O;
    /// their failures surface as [`crate::errors::CaptureError`] before any
    /// sample is delivered.
    pub fn start(config: DeviceConfig) -> (session: CaptureSession)
        requires
            config.well_formed(),
            config.sample_rate * config.format.spec_byte_width() * config.channels <= u32::MAX,
        ensures
            session.wf(),
            session.spec_config() == config,
            session.spec_recorded() == Seq::<Sample>::empty(),
    {
        proof {
            lemma_derived_spec_valid(config);
        }
        let encoding = EncodingSpec::from_config(&config);
        CaptureSession { config, sink: EncodingSink::new(encoding) }
    }

    /// Receive one batch from the capture callback together with the
    /// outcome of its non-blocking lock attempt.
    ///
    /// A batch that won the lock is converted and appended whole, in
    /// delivery order. A batch that lost the lock is dropped whole and the
    /// session is left exactly as it was: this is the drop-on-contention
    /// policy, not a failure.
    pub fn deliver(&mut self, batch: &Vec<Sample>, lock_acquired: bool)
        requires
            old(self).wf(),
            old(self).spec_accepts(batch@),
        ensures
            final(self).wf(),
            final(self).spec_config() == old(self).spec_config(),
            lock_acquired ==> final(self).spec_recorded() == old(self).spec_recorded() + batch@,
            !lock_acquired ==> *final(self) == *old(self),
    {
        if lock_acquired {
            proof {
                lemma_derived_spec_sample_format(self.config);
            }
            let converted = convert_batch(batch, self.config.format);
            assert(converted@ =~= batch@);
            self.sink.write(&converted);
        }
    }

    /// Stop the session and return the completed container bytes.
    ///
    /// The caller drops the live stream first — ending callback invocations
    /// for good — and only then calls `stop`, which finalizes the sink.
    /// Consuming the session makes a second stop, or a finalize before the
    /// stream is gone, impossible.
    pub fn stop(self) -> (out: Vec<u8>)
        requires
            self.wf(),
        ensures
            out@ == spec_encoded(
                EncodingSpec::spec_of_config(self.spec_config()),
                self.spec_recorded(),
            ),
    {
        let CaptureSession { config: _, mut sink } = self;
        let finalized = sink.finalize();
        finalized.unwrap()
    }
}

/// A session that records zero sample batches still encodes a structurally
/// valid container: the bare header, reporting a payload of zero bytes and
/// nothing after it.
pub proof fn lemma_empty_capture_valid(config: DeviceConfig)
    requires
        config.well_formed(),
        config.sample_rate * config.format.spec_byte_width() * config.channels <= u32::MAX,
    ensures
        spec_encoded(EncodingSpec::spec_of_config(config), Seq::empty()) == spec_wav_header(
            EncodingSpec::spec_of_config(config),
            0,
        ),
        spec_encoded(EncodingSpec::spec_of_config(config), Seq::empty()).len() == spec_header_len(
            EncodingSpec::spec_of_config(config),
        ),
{
    let encoding = EncodingSpec::spec_of_config(config);
    lemma_derived_spec_valid(config);
    crate::wav::lemma_encoded_shape(encoding, Seq::empty());
    assert(spec_encoded(encoding, Seq::empty()) =~= spec_wav_header(encoding, 0));
}

} // verus!
