//! The derived encoding parameters and the sample converter.

use murmur::format::DeviceConfig;
use murmur::format::EncodingSpec;
use murmur::format::ReportedConfig;
use murmur::format::ReportedFormat;
use murmur::format::SampleFormat;
use murmur::format::SampleKind;
use murmur::sample::convert;
use murmur::sample::convert_batch;
use murmur::sample::Sample;

#[test]
fn encoding_spec_is_deterministic() {
    let config = DeviceConfig { channels: 2, sample_rate: 16000, format: SampleFormat::S16 };
    let first = EncodingSpec::from_config(&config);
    let second = EncodingSpec::from_config(&config);
    assert_eq!(first, second);
}

#[test]
fn encoding_spec_fields_for_each_format() {
    let cases = [
        (SampleFormat::S8, 8, SampleKind::Int),
        (SampleFormat::S16, 16, SampleKind::Int),
        (SampleFormat::S32, 32, SampleKind::Int),
        (SampleFormat::F32, 32, SampleKind::Float),
    ];
    for (format, bits, kind) in cases {
        let config = DeviceConfig { channels: 1, sample_rate: 44100, format };
        let spec = EncodingSpec::from_config(&config);
        assert_eq!(spec.channels, 1);
        assert_eq!(spec.sample_rate, 44100);
        assert_eq!(spec.bits_per_sample, bits);
        assert_eq!(spec.kind, kind);
    }
}

#[test]
fn converter_preserves_full_scale() {
    assert_eq!(
        convert(Sample::S8(i8::MAX), SampleFormat::S8),
        Sample::S8(i8::MAX)
    );
    assert_eq!(
        convert(Sample::S16(i16::MAX), SampleFormat::S16),
        Sample::S16(i16::MAX)
    );
    assert_eq!(
        convert(Sample::S32(i32::MAX), SampleFormat::S32),
        Sample::S32(i32::MAX)
    );
    let full_scale_bits = 1.0f32.to_bits();
    assert_eq!(
        convert(Sample::F32Bits(full_scale_bits), SampleFormat::F32),
        Sample::F32Bits(full_scale_bits)
    );
    assert_eq!(
        convert(Sample::S16(i16::MIN), SampleFormat::S16),
        Sample::S16(i16::MIN)
    );
}

#[test]
fn converter_batch_is_value_preserving() {
    let batch = vec![Sample::S16(0), Sample::S16(-32768), Sample::S16(32767), Sample::S16(1)];
    let converted = convert_batch(&batch, SampleFormat::S16);
    assert_eq!(converted, batch);
}

#[test]
fn unsupported_formats_are_rejected_before_capture() {
    let supported = [
        (ReportedFormat::I8, SampleFormat::S8),
        (ReportedFormat::I16, SampleFormat::S16),
        (ReportedFormat::I32, SampleFormat::S32),
        (ReportedFormat::F32, SampleFormat::F32),
    ];
    for (reported, expected) in supported {
        let config = ReportedConfig { channels: 1, sample_rate: 8000, format: reported };
        let negotiated = DeviceConfig::from_reported(config).unwrap();
        assert_eq!(negotiated.format, expected);
        assert_eq!(negotiated.channels, 1);
        assert_eq!(negotiated.sample_rate, 8000);
    }
    let unsupported = [
        ReportedFormat::I64,
        ReportedFormat::U8,
        ReportedFormat::U16,
        ReportedFormat::U32,
        ReportedFormat::U64,
        ReportedFormat::F64,
    ];
    for reported in unsupported {
        let config = ReportedConfig { channels: 1, sample_rate: 8000, format: reported };
        let err = DeviceConfig::from_reported(config).unwrap_err();
        assert_eq!(err.reported, reported);
    }
}
