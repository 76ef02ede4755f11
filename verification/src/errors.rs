//! The pipeline's error taxonomy.
//!
//! Every fatal error aborts the session or operation it belongs to and is
//! surfaced to the caller; none is retried anywhere in this pipeline. Each
//! type names the stage that failed — negotiation, capture, encode or
//! transcription — so a caller can tell them apart. Asynchronous device
//! errors reported during capture are not part of this taxonomy: they are
//! logged by the caller's error callback and capture continues.

use vstd::prelude::*;

verus! {

/// No input device yielded a usable default configuration; fatal before
/// capture.
#[derive(Clone, Copy, Debug, PartialEq, Eq, Structural)]
pub struct NoInputDeviceError;

/// Failure to set a session up: the output file, the stream, or starting
/// playback of the stream; fatal, detected by the caller's I/O and ending
/// the session.
#[derive(Clone, Copy, Debug, PartialEq, Eq, Structural)]
pub enum CaptureError {
    /// The temporary output file could not be created.
    OutputFile,
    /// The input stream could not be built.
    StreamOpen,
    /// The input stream could not start playing.
    StreamStart,
}

/// Failure to flush or close the underlying recording file at finalize
/// time; fatal.
#[derive(Clone, Copy, Debug, PartialEq, Eq, Structural)]
pub enum EncodeError {
    /// Flushing the encoded bytes to the file failed.
    Flush,
    /// Closing the file failed.
    Close,
}

impl NoInputDeviceError {
    /// A human-readable description of the failure.
    pub fn message(&self) -> String {
        "no input device yielded a default configuration".to_owned()
    }
}

impl CaptureError {
    /// A human-readable description of the failure.
    pub fn message(&self) -> String {
        match self {
            CaptureError::OutputFile => "could not create the output file".to_owned(),
            CaptureError::StreamOpen => "could not build the input stream".to_owned(),
            CaptureError::StreamStart => "could not start the input stream".to_owned(),
        }
    }
}

impl EncodeError {
    /// A human-readable description of the failure.
    pub fn message(&self) -> String {
        match self {
            EncodeError::Flush => "could not flush the recording".to_owned(),
            EncodeError::Close => "could not close the recording".to_owned(),
        }
    }
}

} // verus!
