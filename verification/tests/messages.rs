//! The error taxonomy names the stage that failed.

use murmur::errors::CaptureError;
use murmur::errors::EncodeError;
use murmur::errors::NoInputDeviceError;
use murmur::format::ReportedConfig;
use murmur::format::ReportedFormat;
use murmur::format::DeviceConfig;
use murmur::transcribe::TranscriptionError;

#[test]
fn every_stage_has_its_own_description() {
    assert_eq!(
        NoInputDeviceError.message(),
        "no input device yielded a default configuration"
    );
    assert_eq!(CaptureError::OutputFile.message(), "could not create the output file");
    assert_eq!(CaptureError::StreamOpen.message(), "could not build the input stream");
    assert_eq!(CaptureError::StreamStart.message(), "could not start the input stream");
    assert_eq!(EncodeError::Flush.message(), "could not flush the recording");
    assert_eq!(EncodeError::Close.message(), "could not close the recording");
    assert_eq!(TranscriptionError::MissingCredential.message(), "the API credential is not set");
    let unsupported = DeviceConfig::from_reported(ReportedConfig {
        channels: 1,
        sample_rate: 8000,
        format: ReportedFormat::F64,
    })
    .unwrap_err();
    assert_eq!(unsupported.message(), "unsupported native sample format");
}
