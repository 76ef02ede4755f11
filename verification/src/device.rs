//! Device negotiation: choosing the input device and configuration a
//! session records with.
//!
//! Enumerating the host's devices and asking each for its default input
//! configuration are the caller's I/O. The caller hands over the outcomes
//! in enumeration order — the host's default device first when there is
//! one, exactly as it tries them — with `None` for every device that failed
//! to yield a configuration. Selection itself is verified logic: the first
//! device that yielded a configuration wins, and a session with no usable
//! candidate fails before anything is opened. Enumeration failures are
//! fatal; nothing here retries.

use vstd::prelude::*;
use crate::errors::NoInputDeviceError;
use crate::format::ReportedConfig;

verus! {

/// Select the input device for the session: the first candidate, in
/// enumeration order, that yielded a default input configuration.
///
/// Returns the winning candidate's position and its configuration, or
/// [`NoInputDeviceError`] exactly when no candidate yielded one.
pub fn negotiate(candidates: &Vec<Option<ReportedConfig>>) -> (result: Result<
    (usize, ReportedConfig),
    NoInputDeviceError,
>)
    ensures
        result is Ok <==> exists|j: int|
            0 <= j < candidates@.len() && #[trigger] candidates@[j] is Some,
        result matches Ok((index, config)) ==> {
            &&& 0 <= index < candidates@.len()
            &&& candidates@[index as int] == Some(config)
            &&& forall|j: int| 0 <= j < index ==> #[trigger] candidates@[j] is None
        },
        result matches Err(err) ==> err == NoInputDeviceError,
{
    let mut i: usize = 0;
    while i < candidates.len()
        invariant
            i <= candidates@.len(),
            forall|j: int| 0 <= j < i ==> #[trigger] candidates@[j] is None,
        decreases candidates@.len() - i,
    {
        match candidates[i] {
            Some(config) => {
                return Ok((i, config));
            },
            None => {},
        }
        i = i + 1;
    }
    Err(NoInputDeviceError)
}

} // verus!
