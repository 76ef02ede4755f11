//! Verified core of an audio-capture-to-transcription pipeline.
//!
//! The library models the path from a negotiated input device to a finalized
//! pulse-code-modulated recording and the decision logic around a remote
//! transcription call. Device I/O, file I/O and the network round trip live
//! outside the library; everything here is plain data and verified logic.

pub mod device;
pub mod errors;
pub mod format;
pub mod gate;
pub mod sample;
pub mod session;
pub mod sink;
pub mod transcribe;
pub mod wav;

pub use format::DeviceConfig;
pub use format::EncodingSpec;
pub use format::SampleFormat;
pub use format::SampleKind;
pub use sample::Sample;
