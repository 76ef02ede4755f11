//! The encoded container, checked byte for byte against an independent
//! encoder and read back with an independent reader.

use std::io::Cursor;

use murmur::format::DeviceConfig;
use murmur::format::EncodingSpec;
use murmur::format::SampleFormat;
use murmur::sample::Sample;
use murmur::session::CaptureSession;

fn hound_spec(spec: &EncodingSpec) -> hound::WavSpec {
    hound::WavSpec {
        channels: spec.channels,
        sample_rate: spec.sample_rate,
        bits_per_sample: spec.bits_per_sample,
        sample_format: match spec.kind {
            murmur::format::SampleKind::Float => hound::SampleFormat::Float,
            murmur::format::SampleKind::Int => hound::SampleFormat::Int,
        },
    }
}

fn capture(config: DeviceConfig, batches: &[(Vec<Sample>, bool)]) -> Vec<u8> {
    let mut session = CaptureSession::start(config);
    for (batch, lock_acquired) in batches {
        session.deliver(batch, *lock_acquired);
    }
    session.stop()
}

#[test]
fn matches_reference_encoder_s16_stereo() {
    let config = DeviceConfig { channels: 2, sample_rate: 16000, format: SampleFormat::S16 };
    let samples: Vec<i16> = vec![0, 1, -1, 32767, -32768, 513];
    let batch: Vec<Sample> = samples.iter().map(|s| Sample::S16(*s)).collect();
    let ours = capture(config, &[(batch, true)]);

    let mut cursor = Cursor::new(Vec::new());
    {
        let spec = EncodingSpec::from_config(&config);
        let mut writer = hound::WavWriter::new(&mut cursor, hound_spec(&spec)).unwrap();
        for s in &samples {
            writer.write_sample(*s).unwrap();
        }
        writer.finalize().unwrap();
    }
    assert_eq!(ours, cursor.into_inner());
}

#[test]
fn matches_reference_encoder_s8_mono() {
    let config = DeviceConfig { channels: 1, sample_rate: 8000, format: SampleFormat::S8 };
    let samples: Vec<i8> = vec![0, -128, 127, -1, 1];
    let batch: Vec<Sample> = samples.iter().map(|s| Sample::S8(*s)).collect();
    let ours = capture(config, &[(batch, true)]);

    let mut cursor = Cursor::new(Vec::new());
    {
        let spec = EncodingSpec::from_config(&config);
        let mut writer = hound::WavWriter::new(&mut cursor, hound_spec(&spec)).unwrap();
        for s in &samples {
            writer.write_sample(*s).unwrap();
        }
        writer.finalize().unwrap();
    }
    assert_eq!(ours, cursor.into_inner());
}

#[test]
fn matches_reference_encoder_s32_uses_extensible_header() {
    let config = DeviceConfig { channels: 2, sample_rate: 48000, format: SampleFormat::S32 };
    let samples: Vec<i32> = vec![0, i32::MAX, i32::MIN, -1, 2, 100_000];
    let batch: Vec<Sample> = samples.iter().map(|s| Sample::S32(*s)).collect();
    let ours = capture(config, &[(batch, true)]);
    assert_eq!(&ours[..4], b"RIFF");
    // more than 16 bits per sample selects the 68-byte extensible header
    assert_eq!(ours.len(), 68 + samples.len() * 4);

    let mut cursor = Cursor::new(Vec::new());
    {
        let spec = EncodingSpec::from_config(&config);
        let mut writer = hound::WavWriter::new(&mut cursor, hound_spec(&spec)).unwrap();
        for s in &samples {
            writer.write_sample(*s).unwrap();
        }
        writer.finalize().unwrap();
    }
    assert_eq!(ours, cursor.into_inner());
}

#[test]
fn matches_reference_encoder_f32() {
    let config = DeviceConfig { channels: 1, sample_rate: 44100, format: SampleFormat::F32 };
    let samples: Vec<f32> = vec![0.0, 1.0, -1.0, 0.5, -0.25];
    let batch: Vec<Sample> = samples.iter().map(|s| Sample::F32Bits(s.to_bits())).collect();
    let ours = capture(config, &[(batch, true)]);

    let mut cursor = Cursor::new(Vec::new());
    {
        let spec = EncodingSpec::from_config(&config);
        let mut writer = hound::WavWriter::new(&mut cursor, hound_spec(&spec)).unwrap();
        for s in &samples {
            writer.write_sample(*s).unwrap();
        }
        writer.finalize().unwrap();
    }
    assert_eq!(ours, cursor.into_inner());
}

#[test]
fn matches_reference_encoder_three_channels() {
    // more than two channels selects the extensible header even at 16 bits
    let config = DeviceConfig { channels: 3, sample_rate: 22050, format: SampleFormat::S16 };
    let samples: Vec<i16> = vec![7, -7, 0, 1, 2, 3];
    let batch: Vec<Sample> = samples.iter().map(|s| Sample::S16(*s)).collect();
    let ours = capture(config, &[(batch, true)]);
    assert_eq!(ours.len(), 68 + samples.len() * 2);

    let mut cursor = Cursor::new(Vec::new());
    {
        let spec = EncodingSpec::from_config(&config);
        let mut writer = hound::WavWriter::new(&mut cursor, hound_spec(&spec)).unwrap();
        for s in &samples {
            writer.write_sample(*s).unwrap();
        }
        writer.finalize().unwrap();
    }
    assert_eq!(ours, cursor.into_inner());
}

#[test]
fn reader_recovers_samples_and_spec() {
    let config = DeviceConfig { channels: 2, sample_rate: 16000, format: SampleFormat::S16 };
    let samples: Vec<i16> = vec![10, -20, 30, -40];
    let batch: Vec<Sample> = samples.iter().map(|s| Sample::S16(*s)).collect();
    let encoded = capture(config, &[(batch, true)]);

    let reader = hound::WavReader::new(Cursor::new(encoded)).unwrap();
    let spec = reader.spec();
    assert_eq!(spec.channels, 2);
    assert_eq!(spec.sample_rate, 16000);
    assert_eq!(spec.bits_per_sample, 16);
    assert_eq!(spec.sample_format, hound::SampleFormat::Int);
    let decoded: Vec<i16> = reader.into_samples::<i16>().map(|s| s.unwrap()).collect();
    assert_eq!(decoded, samples);
}
