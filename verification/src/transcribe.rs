//! The transcription step: the decisions around the remote speech-to-text
//! call.
//!
//! The network round trip itself is the caller's I/O. Everything decided
//! about it is verified here: a request is prepared only when the API
//! credential is present — a missing credential fails immediately, before
//! any network traffic — and the call's outcome is mapped onto the error
//! taxonomy, with empty or whitespace-only recognized text classified as
//! "no speech detected" rather than an error. No outcome is retried.

use vstd::prelude::*;

verus! {

/// What the caller got back from the recognized text of a transcription.
#[derive(Clone, Debug, PartialEq, Eq)]
pub struct TranscriptionResult {
    /// The recognized text; possibly empty.
    pub text: String,
}

/// Why a transcription failed; each variant is fatal and never retried.
#[derive(Clone, Copy, Debug, PartialEq, Eq, Structural)]
pub enum TranscriptionError {
    /// The API credential is not set in the process environment; detected
    /// before any network call is attempted.
    MissingCredential,
    /// The network transport failed.
    Transport,
    /// The remote endpoint rejected the request.
    RemoteRejection,
    /// The response could not be understood.
    MalformedResponse,
}

/// A transcription request that is ready to send: the credential that was
/// present, the model identifier, and nothing else.
#[derive(Debug)]
pub struct TranscriptionRequest {
    /// The API credential read from the process environment.
    pub api_key: String,
    /// The identifier of the speech-to-text model.
    pub model: String,
}

/// How the remote call ended, as observed by the caller's transport.
pub enum CallOutcome {
    /// A well-formed response arrived; this is its recognized text.
    Response(String),
    /// The transport failed before a response arrived.
    TransportFailure,
    /// The endpoint answered with a rejection.
    Rejected,
    /// The response arrived but could not be understood.
    Malformed,
}

/// What the recognized text means to the caller.
#[derive(Clone, Debug, PartialEq, Eq)]
pub enum TranscriptionVerdict {
    /// Speech was recognized; the carried text is not whitespace-only.
    Recognized(String),
    /// The recognized text was empty or whitespace-only: no speech
    /// detected. Not an error.
    NoSpeech,
}

/// What remains of a text after leading and trailing whitespace is
/// removed; a function of the characters alone.
pub uninterp spec fn trim_of(text: Seq<char>) -> Seq<char>;

/// Relies on str::trim: removes leading and trailing whitespace, a
/// deterministic function of the characters alone; trimming an empty text
/// yields an empty text.
#[verifier::external_body]
fn trimmed(text: &str) -> (out: String)
    ensures
        out@ == trim_of(text@),
        text@.len() == 0 ==> out@.len() == 0,
{
    text.trim().to_owned()
}

/// Prepare the transcription request from the credential read from the
/// process environment at call time. A missing credential is a fatal
/// configuration error, surfaced immediately: no request is prepared and
/// no network call may be attempted.
pub fn prepare_request(credential: Option<String>) -> (result: Result<
    TranscriptionRequest,
    TranscriptionError,
>)
    ensures
        credential is None <==> result == Err::<TranscriptionRequest, TranscriptionError>(
            TranscriptionError::MissingCredential,
        ),
        credential matches Some(key) ==> result matches Ok(request) && request.api_key@ == key@
            && request.model@ == "whisper-1"@,
{
    match credential {
        None => Err(TranscriptionError::MissingCredential),
        Some(key) => Ok(
            TranscriptionRequest { api_key: key, model: "whisper-1".to_owned() },
        ),
    }
}

/// Map the observed outcome of the remote call onto the caller's result: a
/// well-formed response yields its recognized text, and each failure mode
/// yields its own error. Nothing is retried.
pub fn settle_outcome(outcome: CallOutcome) -> (result: Result<
    TranscriptionResult,
    TranscriptionError,
>)
    ensures
        outcome matches CallOutcome::Response(text) ==> result matches Ok(r) && r.text@ == text@,
        outcome is TransportFailure ==> result == Err::<TranscriptionResult, TranscriptionError>(
            TranscriptionError::Transport,
        ),
        outcome is Rejected ==> result == Err::<TranscriptionResult, TranscriptionError>(
            TranscriptionError::RemoteRejection,
        ),
        outcome is Malformed ==> result == Err::<TranscriptionResult, TranscriptionError>(
            TranscriptionError::MalformedResponse,
        ),
{
    match outcome {
        CallOutcome::Response(text) => Ok(TranscriptionResult { text }),
        CallOutcome::TransportFailure => Err(TranscriptionError::Transport),
        CallOutcome::Rejected => Err(TranscriptionError::RemoteRejection),
        CallOutcome::Malformed => Err(TranscriptionError::MalformedResponse),
    }
}

/// The caller-level reading of a successful transcription: empty or
/// whitespace-only text is "no speech detected", anything else is the
/// recognized text, unchanged.
pub fn classify_result(result: TranscriptionResult) -> (verdict: TranscriptionVerdict)
    ensures
        verdict is NoSpeech <==> trim_of(result.text@).len() == 0,
        verdict matches TranscriptionVerdict::Recognized(text) ==> text@ == result.text@,
{
    let remainder = trimmed(result.text.as_str());
    if remainder.as_str().is_empty() {
        TranscriptionVerdict::NoSpeech
    } else {
        TranscriptionVerdict::Recognized(result.text)
    }
}

impl TranscriptionError {
    /// A human-readable description of the failure.
    pub fn message(&self) -> String {
        match self {
            TranscriptionError::MissingCredential => "the API credential is not set".to_owned(),
            TranscriptionError::Transport => "the transcription transport failed".to_owned(),
            TranscriptionError::RemoteRejection => "the transcription endpoint rejected the request".to_owned(),
            TranscriptionError::MalformedResponse => "the transcription response could not be understood".to_owned(),
        }
    }
}

} // verus!
