//! Captured samples and the format-preserving converter that feeds the
//! encoding sink.

use vstd::prelude::*;
use crate::format::SampleFormat;

verus! {

/// One captured sample, tagged with its native format.
///
/// Float samples are carried as their raw 32-bit pattern: the pipeline never
/// does arithmetic on them, it only moves them into the encoded payload.
#[derive(Clone, Copy, Debug, PartialEq, Eq, Structural)]
pub enum Sample {
    S8(i8),
    S16(i16),
    S32(i32),
    F32Bits(u32),
}

impl Sample {
    /// The native format this sample belongs to.
    pub open spec fn spec_format(self) -> SampleFormat {
        match self {
            Sample::S8(_) => SampleFormat::S8,
            Sample::S16(_) => SampleFormat::S16,
            Sample::S32(_) => SampleFormat::S32,
            Sample::F32Bits(_) => SampleFormat::F32,
        }
    }

    pub fn format(self) -> (format: SampleFormat)
        ensures
            format == self.spec_format(),
    {
        match self {
            Sample::S8(_) => SampleFormat::S8,
            Sample::S16(_) => SampleFormat::S16,
            Sample::S32(_) => SampleFormat::S32,
            Sample::F32Bits(_) => SampleFormat::F32,
        }
    }

    /// The largest positive value a format can deliver: its positive full
    /// scale. For float samples that is 1.0, whose bit pattern is
    /// 0x3F80_0000.
    pub open spec fn spec_full_scale(format: SampleFormat) -> Sample {
        match format {
            SampleFormat::S8 => Sample::S8(i8::MAX),
            SampleFormat::S16 => Sample::S16(i16::MAX),
            SampleFormat::S32 => Sample::S32(i32::MAX),
            SampleFormat::F32 => Sample::F32Bits(0x3F80_0000),
        }
    }
}

/// Whether every sample in a batch belongs to the given format.
pub open spec fn spec_uniform_format(samples: Seq<Sample>, format: SampleFormat) -> bool {
    forall|i: int| 0 <= i < samples.len() ==> #[trigger] samples[i].spec_format() == format
}

/// The numeric mapping from a captured sample to the sample that is handed
/// to the encoding sink.
///
/// The pipeline encodes each native format at its own width, so the mapping
/// is the format-preserving cast onto the same representation: it changes no
/// value and can neither clip nor wrap.
pub open spec fn spec_convert(sample: Sample) -> Sample {
    sample
}

/// Convert one captured sample for encoding.
pub fn convert(sample: Sample, target: SampleFormat) -> (converted: Sample)
    requires
        sample.spec_format() == target,
    ensures
        converted == spec_convert(sample),
        converted.spec_format() == target,
{
    sample
}

/// Convert a batch of captured samples for encoding, in delivery order.
pub fn convert_batch(samples: &Vec<Sample>, target: SampleFormat) -> (converted: Vec<Sample>)
    requires
        spec_uniform_format(samples@, target),
    ensures
        converted@.len() == samples@.len(),
        forall|i: int|
            0 <= i < samples@.len() ==> #[trigger] converted@[i] == spec_convert(samples@[i]),
        spec_uniform_format(converted@, target),
{
    let mut converted: Vec<Sample> = Vec::new();
    let mut i: usize = 0;
    while i < samples.len()
        invariant
            i <= samples@.len(),
            converted@.len() == i,
            spec_uniform_format(samples@, target),
            forall|j: int|
                0 <= j < i ==> #[trigger] converted@[j] == spec_convert(samples@[j]),
        decreases samples@.len() - i,
    {
        converted.push(convert(samples[i], target));
        i = i + 1;
    }
    converted
}

/// Conversion preserves every sample value exactly, so a sample at the
/// native format's full scale converts to the target format's full scale,
/// and no value can overflow or wrap.
pub proof fn lemma_convert_full_scale(format: SampleFormat)
    ensures
        spec_convert(Sample::spec_full_scale(format)) == Sample::spec_full_scale(format),
{
}

/// Conversion changes no value at all: the converted batch is the delivered
/// batch.
pub proof fn lemma_convert_identity(sample: Sample)
    ensures
        spec_convert(sample) == sample,
{
}

} // verus!
