use vstd::prelude::*;

pub mod lifecycle;
pub mod status;

use crate::status::FMOD_RESULT;

verus! {

/// A failed native call, carrying the status code the engine reported.
///
/// The code is preserved unchanged so that callers can branch on the exact
/// failure category and surface it for diagnostics.
#[derive(Clone, Copy, Debug, PartialEq, Eq, Structural)]
pub struct FMODError(pub FMOD_RESULT);

/// Translates a status code reported by a native call into a typed outcome.
///
/// The designated success value, `FMOD_OK`, becomes the success outcome with
/// no payload; every other code becomes a failure outcome that carries that
/// code unchanged, so extracting the code from the failure reproduces the
/// input exactly. The translation has no side effects and applies no policy:
/// which failures are recoverable is the caller's decision.
pub fn wrap(result: FMOD_RESULT) -> (r: Result<(), FMODError>)
    ensures
        result == FMOD_RESULT::FMOD_OK ==> r == Result::<(), FMODError>::Ok(()),
        result != FMOD_RESULT::FMOD_OK ==> r == Result::<(), FMODError>::Err(FMODError(result)),
{
    if result == FMOD_RESULT::FMOD_OK {
        Ok(())
    } else {
        Err(FMODError(result))
    }
}

/// Whether a status code is one of the failures that a playback-polling loop
/// may treat as transient: the polled channel's handle may already have been
/// invalidated (`FMOD_ERR_INVALID_HANDLE`) or its channel reassigned to
/// another sound (`FMOD_ERR_CHANNEL_STOLEN`) by the time it is queried, and
/// neither condition indicates a fault in the caller's use of the engine.
pub open spec fn poll_transient(result: FMOD_RESULT) -> bool {
    ||| result == FMOD_RESULT::FMOD_ERR_INVALID_HANDLE
    ||| result == FMOD_RESULT::FMOD_ERR_CHANNEL_STOLEN
}

/// Applies the polling-loop failure policy to the outcome of a playback-state
/// query: a transient failure (`poll_transient`) is tolerated and converted
/// into success, so the loop polls again, while any other failure is passed
/// through unchanged and aborts the loop as a hard error.
pub fn tolerate_poll_transients(outcome: Result<(), FMODError>) -> (r: Result<(), FMODError>)
    ensures
        outcome is Ok ==> r == Result::<(), FMODError>::Ok(()),
        (outcome matches Err(e) && poll_transient(e.0)) ==> r == Result::<(), FMODError>::Ok(()),
        (outcome matches Err(e) && !poll_transient(e.0)) ==> r == outcome,
{
    match outcome {
        Ok(()) => Ok(()),
        Err(error) => match error.0 {
            FMOD_RESULT::FMOD_ERR_INVALID_HANDLE | FMOD_RESULT::FMOD_ERR_CHANNEL_STOLEN => Ok(()),
            _ => Err(error),
        },
    }
}

} // verus!
