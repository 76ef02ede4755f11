//! Device negotiation over pre-queried candidates.

use murmur::device::negotiate;
use murmur::errors::NoInputDeviceError;
use murmur::format::ReportedConfig;
use murmur::format::ReportedFormat;

fn config(rate: u32) -> ReportedConfig {
    ReportedConfig { channels: 2, sample_rate: rate, format: ReportedFormat::I16 }
}

#[test]
fn first_candidate_with_a_config_wins() {
    let candidates = vec![None, Some(config(16000)), Some(config(44100))];
    let (index, chosen) = negotiate(&candidates).unwrap();
    assert_eq!(index, 1);
    assert_eq!(chosen, config(16000));
}

#[test]
fn default_device_is_tried_first() {
    // the caller lists the host's default device first, so it wins when it
    // yields a configuration
    let candidates = vec![Some(config(48000)), Some(config(16000))];
    let (index, chosen) = negotiate(&candidates).unwrap();
    assert_eq!(index, 0);
    assert_eq!(chosen, config(48000));
}

#[test]
fn no_usable_candidate_is_fatal() {
    assert_eq!(negotiate(&vec![]).unwrap_err(), NoInputDeviceError);
    assert_eq!(negotiate(&vec![None, None, None]).unwrap_err(), NoInputDeviceError);
}
