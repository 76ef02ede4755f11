//! Sample formats, negotiated device configurations and the encoding
//! parameters derived from them.

use vstd::prelude::*;

verus! {

/// The native sample representations the pipeline supports end to end.
///
/// Any other representation reported by a device is rejected before a stream
/// is opened; it is never discovered mid-capture.
#[derive(Clone, Copy, Debug, PartialEq, Eq, Structural)]
pub enum SampleFormat {
    /// Signed 8-bit samples.
    S8,
    /// Signed 16-bit samples.
    S16,
    /// Signed 32-bit samples.
    S32,
    /// 32-bit IEEE-float samples, carried as raw bit patterns.
    F32,
}

/// Every sample representation an input device may report, supported or not.
#[derive(Clone, Copy, Debug, PartialEq, Eq, Structural)]
pub enum ReportedFormat {
    I8,
    I16,
    I32,
    I64,
    U8,
    U16,
    U32,
    U64,
    F32,
    F64,
}

/// Whether the encoded payload holds integer or IEEE-float samples, as
/// recorded in the container header.
#[derive(Clone, Copy, Debug, PartialEq, Eq, Structural)]
pub enum SampleKind {
    Int,
    Float,
}

/// A device reported a sample representation outside the four supported ones.
#[derive(Clone, Copy, Debug, PartialEq, Eq, Structural)]
pub struct UnsupportedFormatError {
    /// The representation the device reported.
    pub reported: ReportedFormat,
}

impl SampleFormat {
    /// Bits per encoded sample of this format.
    pub open spec fn spec_bits_per_sample(self) -> u16 {
        match self {
            SampleFormat::S8 => 8,
            SampleFormat::S16 => 16,
            SampleFormat::S32 => 32,
            SampleFormat::F32 => 32,
        }
    }

    /// Bytes per encoded sample of this format.
    pub open spec fn spec_byte_width(self) -> u16 {
        match self {
            SampleFormat::S8 => 1,
            SampleFormat::S16 => 2,
            SampleFormat::S32 => 4,
            SampleFormat::F32 => 4,
        }
    }

    /// Payload kind of this format: float exactly for 32-bit float samples.
    pub open spec fn spec_kind(self) -> SampleKind {
        if self is F32 {
            SampleKind::Float
        } else {
            SampleKind::Int
        }
    }

    pub fn bits_per_sample(self) -> (bits: u16)
        ensures
            bits == self.spec_bits_per_sample(),
    {
        match self {
            SampleFormat::S8 => 8,
            SampleFormat::S16 => 16,
            SampleFormat::S32 => 32,
            SampleFormat::F32 => 32,
        }
    }

    pub fn byte_width(self) -> (width: u16)
        ensures
            width == self.spec_byte_width(),
    {
        match self {
            SampleFormat::S8 => 1,
            SampleFormat::S16 => 2,
            SampleFormat::S32 => 4,
            SampleFormat::F32 => 4,
        }
    }

    pub fn kind(self) -> (kind: SampleKind)
        ensures
            kind == self.spec_kind(),
    {
        match self {
            SampleFormat::F32 => SampleKind::Float,
            _ => SampleKind::Int,
        }
    }

    /// Whether a reported representation is one of the four supported ones.
    pub open spec fn spec_supports(reported: ReportedFormat) -> bool {
        ||| reported is I8
        ||| reported is I16
        ||| reported is I32
        ||| reported is F32
    }

    /// The supported format a reported representation maps to, when there is
    /// one.
    pub open spec fn spec_from_reported(reported: ReportedFormat) -> SampleFormat
        recommends
            SampleFormat::spec_supports(reported),
    {
        match reported {
            ReportedFormat::I8 => SampleFormat::S8,
            ReportedFormat::I16 => SampleFormat::S16,
            ReportedFormat::I32 => SampleFormat::S32,
            _ => SampleFormat::F32,
        }
    }

    /// Classify a reported representation, accepting exactly the four
    /// supported ones and rejecting every other before any stream exists.
    pub fn from_reported(reported: ReportedFormat) -> (result: Result<
        SampleFormat,
        UnsupportedFormatError,
    >)
        ensures
            result is Ok <==> SampleFormat::spec_supports(reported),
            result matches Ok(format) ==> format == SampleFormat::spec_from_reported(reported),
            result matches Err(err) ==> err == (UnsupportedFormatError { reported }),
    {
        match reported {
            ReportedFormat::I8 => Ok(SampleFormat::S8),
            ReportedFormat::I16 => Ok(SampleFormat::S16),
            ReportedFormat::I32 => Ok(SampleFormat::S32),
            ReportedFormat::F32 => Ok(SampleFormat::F32),
            _ => Err(UnsupportedFormatError { reported }),
        }
    }
}

impl UnsupportedFormatError {
    /// A human-readable description of the failure.
    pub fn message(&self) -> String {
        "unsupported native sample format".to_owned()
    }
}

/// The default input configuration a device reports during enumeration,
/// before any validation.
#[derive(Clone, Copy, Debug, PartialEq, Eq, Structural)]
pub struct ReportedConfig {
    pub channels: u16,
    pub sample_rate: u32,
    pub format: ReportedFormat,
}

/// The configuration negotiated with an input device, immutable for the
/// lifetime of a session.
#[derive(Clone, Copy, Debug, PartialEq, Eq, Structural)]
pub struct DeviceConfig {
    /// Number of interleaved channels; always positive.
    pub channels: u16,
    /// Sample rate in Hz; always positive.
    pub sample_rate: u32,
    /// The native sample format the device delivers.
    pub format: SampleFormat,
}

impl DeviceConfig {
    /// The data-model invariant: channel count and sample rate are positive.
    pub open spec fn well_formed(self) -> bool {
        self.channels >= 1 && self.sample_rate >= 1
    }

    /// Build a configuration from what a device reported, rejecting
    /// unsupported sample representations before any stream exists.
    pub fn from_reported(reported: ReportedConfig) -> (result: Result<
        DeviceConfig,
        UnsupportedFormatError,
    >)
        requires
            reported.channels >= 1,
            reported.sample_rate >= 1,
        ensures
            result is Ok <==> SampleFormat::spec_supports(reported.format),
            result matches Ok(config) ==> {
                &&& config.channels == reported.channels
                &&& config.sample_rate == reported.sample_rate
                &&& config.format == SampleFormat::spec_from_reported(reported.format)
                &&& config.well_formed()
            },
            result matches Err(err) ==> err == (UnsupportedFormatError {
                reported: reported.format,
            }),
    {
        match SampleFormat::from_reported(reported.format) {
            Ok(format) => Ok(
                DeviceConfig {
                    channels: reported.channels,
                    sample_rate: reported.sample_rate,
                    format,
                },
            ),
            Err(err) => Err(err),
        }
    }
}

/// The parameters the encoded container is written with: a pure function of
/// the negotiated configuration, computed once before the sink is opened and
/// never changed for the session's lifetime.
#[derive(Clone, Copy, Debug, PartialEq, Eq, Structural)]
pub struct EncodingSpec {
    pub channels: u16,
    pub sample_rate: u32,
    pub bits_per_sample: u16,
    pub kind: SampleKind,
}

impl EncodingSpec {
    /// The encoding parameters a configuration determines: channel count and
    /// sample rate are carried over, bits per sample is the native format's
    /// byte width times eight, and the payload kind is float exactly for
    /// float samples.
    pub open spec fn spec_of_config(config: DeviceConfig) -> EncodingSpec {
        EncodingSpec {
            channels: config.channels,
            sample_rate: config.sample_rate,
            bits_per_sample: config.format.spec_bits_per_sample(),
            kind: config.format.spec_kind(),
        }
    }

    /// Derive the encoding parameters from a negotiated configuration.
    pub fn from_config(config: &DeviceConfig) -> (spec: EncodingSpec)
        ensures
            spec == EncodingSpec::spec_of_config(*config),
    {
        EncodingSpec {
            channels: config.channels,
            sample_rate: config.sample_rate,
            bits_per_sample: config.format.bits_per_sample(),
            kind: config.format.kind(),
        }
    }

    /// Bytes per encoded sample under this spec.
    pub open spec fn spec_byte_width(self) -> u16 {
        (self.bits_per_sample / 8) as u16
    }

    /// Bytes of payload per second of audio: sample rate times sample width
    /// times channel count.
    pub open spec fn spec_byte_rate(self) -> int {
        self.sample_rate * self.spec_byte_width() * self.channels
    }

    /// The native sample format whose samples this spec encodes.
    pub open spec fn spec_sample_format(self) -> SampleFormat {
        if self.kind is Float {
            SampleFormat::F32
        } else if self.bits_per_sample == 8 {
            SampleFormat::S8
        } else if self.bits_per_sample == 16 {
            SampleFormat::S16
        } else {
            SampleFormat::S32
        }
    }

    /// What the container can encode: positive channel count and rate, one
    /// of the three supported sample widths, float payloads only at 32 bits,
    /// and a byte rate that fits the container's 32-bit byte-rate field.
    pub open spec fn valid(self) -> bool {
        &&& self.channels >= 1
        &&& self.sample_rate >= 1
        &&& (self.bits_per_sample == 8 || self.bits_per_sample == 16 || self.bits_per_sample == 32)
        &&& (self.kind is Float ==> self.bits_per_sample == 32)
        &&& self.spec_byte_rate() <= u32::MAX
    }
}

/// Deriving encoding parameters is deterministic: two equal configurations
/// always yield the same parameters.
pub proof fn lemma_encoding_spec_deterministic(first: DeviceConfig, second: DeviceConfig)
    requires
        first == second,
    ensures
        EncodingSpec::spec_of_config(first) == EncodingSpec::spec_of_config(second),
{
}

/// A well-formed configuration whose byte rate fits the container's 32-bit
/// byte-rate field always derives valid encoding parameters.
pub proof fn lemma_derived_spec_valid(config: DeviceConfig)
    requires
        config.well_formed(),
        config.sample_rate * config.format.spec_byte_width() * config.channels <= u32::MAX,
    ensures
        EncodingSpec::spec_of_config(config).valid(),
{
}

/// Deriving encoding parameters loses nothing about the native sample
/// format: the parameters encode exactly the samples of the configuration's
/// format, at that format's width.
pub proof fn lemma_derived_spec_sample_format(config: DeviceConfig)
    ensures
        EncodingSpec::spec_of_config(config).spec_sample_format() == config.format,
        EncodingSpec::spec_of_config(config).spec_byte_width() == config.format.spec_byte_width(),
{
}

/// Under a valid spec, the encoded sample format's width agrees with the
/// spec's own byte width.
pub proof fn lemma_valid_spec_width(encoding: EncodingSpec)
    requires
        encoding.valid(),
    ensures
        encoding.spec_sample_format().spec_byte_width() == encoding.spec_byte_width(),
{
}

/// The derived bits per sample are the native format's byte width times
/// eight, and the payload kind is float exactly when the native format is
/// 32-bit float.
pub proof fn lemma_encoding_spec_fields(config: DeviceConfig)
    ensures
        EncodingSpec::spec_of_config(config).bits_per_sample == 8 * config.format.spec_byte_width(),
        EncodingSpec::spec_of_config(config).kind is Float <==> config.format is F32,
        EncodingSpec::spec_of_config(config).channels == config.channels,
        EncodingSpec::spec_of_config(config).sample_rate == config.sample_rate,
{
}

} // verus!
