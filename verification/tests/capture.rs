//! The sink lifecycle and the capture scenarios: an empty capture, a full
//! multi-buffer capture, and an interrupt racing the lock.

use std::io::Cursor;

use murmur::format::DeviceConfig;
use murmur::format::EncodingSpec;
use murmur::format::SampleFormat;
use murmur::sample::Sample;
use murmur::session::CaptureSession;
use murmur::sink::EncodingSink;

fn s16_batch(values: &[i16]) -> Vec<Sample> {
    values.iter().map(|v| Sample::S16(*v)).collect()
}

#[test]
fn write_after_finalize_is_a_silent_no_op() {
    let config = DeviceConfig { channels: 1, sample_rate: 8000, format: SampleFormat::S16 };
    let mut sink = EncodingSink::new(EncodingSpec::from_config(&config));
    sink.write(&s16_batch(&[1, 2]));
    let first = sink.finalize().expect("first finalize returns the recording");
    // late writes must neither panic nor error nor change anything
    sink.write(&s16_batch(&[3, 4]));
    sink.write(&s16_batch(&[5]));
    assert!(sink.finalize().is_none());
    let reader = hound::WavReader::new(Cursor::new(first)).unwrap();
    assert_eq!(reader.len(), 2);
}

#[test]
fn try_write_reports_what_happened_to_the_batch() {
    let config = DeviceConfig { channels: 1, sample_rate: 8000, format: SampleFormat::S16 };
    let mut sink = EncodingSink::new(EncodingSpec::from_config(&config));
    assert!(sink.is_populated());
    assert_eq!(sink.recorded_len(), 0);
    assert!(sink.try_write(&s16_batch(&[1, 2, 3])));
    assert_eq!(sink.recorded_len(), 3);
    let encoded = sink.finalize().unwrap();
    assert!(!sink.is_populated());
    // a batch racing the finalize is dropped, without panic or error
    assert!(!sink.try_write(&s16_batch(&[4])));
    assert_eq!(sink.recorded_len(), 0);
    let reader = hound::WavReader::new(Cursor::new(encoded)).unwrap();
    assert_eq!(reader.len(), 3);
}

#[test]
fn finalize_twice_succeeds_without_double_close() {
    let config = DeviceConfig { channels: 1, sample_rate: 8000, format: SampleFormat::S16 };
    let mut sink = EncodingSink::new(EncodingSpec::from_config(&config));
    sink.write(&s16_batch(&[9]));
    let first = sink.finalize();
    let second = sink.finalize();
    assert!(first.is_some());
    assert!(second.is_none());
}

#[test]
fn zero_buffers_still_yield_a_valid_container() {
    let config = DeviceConfig { channels: 2, sample_rate: 16000, format: SampleFormat::S16 };
    let session = CaptureSession::start(config);
    let encoded = session.stop();
    assert_eq!(encoded.len(), 44);
    let reader = hound::WavReader::new(Cursor::new(encoded)).unwrap();
    let spec = reader.spec();
    assert_eq!(spec.channels, 2);
    assert_eq!(spec.sample_rate, 16000);
    assert_eq!(spec.bits_per_sample, 16);
    assert_eq!(spec.sample_format, hound::SampleFormat::Int);
    assert_eq!(reader.len(), 0);
}

#[test]
fn three_buffers_are_recorded_in_order() {
    let config = DeviceConfig { channels: 2, sample_rate: 16000, format: SampleFormat::S16 };
    let mut session = CaptureSession::start(config);
    let buffers = [
        s16_batch(&[1, 2, 3, 4]),
        s16_batch(&[5, 6, 7, 8]),
        s16_batch(&[9, 10, 11, 12]),
    ];
    for buffer in &buffers {
        session.deliver(buffer, true);
    }
    let encoded = session.stop();
    let reader = hound::WavReader::new(Cursor::new(encoded)).unwrap();
    let spec = reader.spec();
    assert_eq!(spec.channels, 2);
    assert_eq!(spec.sample_rate, 16000);
    assert_eq!(spec.bits_per_sample, 16);
    assert_eq!(spec.sample_format, hound::SampleFormat::Int);
    assert_eq!(reader.len(), 3 * 4);
    let decoded: Vec<i16> = reader.into_samples::<i16>().map(|s| s.unwrap()).collect();
    assert_eq!(decoded, (1..=12).collect::<Vec<i16>>());
}

#[test]
fn contended_buffers_are_dropped_whole_without_crashing() {
    let config = DeviceConfig { channels: 1, sample_rate: 16000, format: SampleFormat::S16 };
    let mut session = CaptureSession::start(config);
    session.deliver(&s16_batch(&[1, 2]), true);
    session.deliver(&s16_batch(&[3, 4]), false);
    session.deliver(&s16_batch(&[5, 6]), true);
    let encoded = session.stop();
    let reader = hound::WavReader::new(Cursor::new(encoded)).unwrap();
    assert_eq!(reader.spec().channels, 1);
    let decoded: Vec<i16> = reader.into_samples::<i16>().map(|s| s.unwrap()).collect();
    // the winners, in delivery order; the loser is silently omitted
    assert_eq!(decoded, vec![1, 2, 5, 6]);
}
