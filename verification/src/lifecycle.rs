use vstd::prelude::*;

use crate::status::FMOD_RESULT;
use crate::wrap;
use crate::FMODError;

verus! {

/// The lifecycle stage of one engine-owned resource, as seen by the caller
/// that owns its handle.
///
/// A handle is obtained from a native create call, optionally initialised,
/// used, and finally handed back to the engine by a release call. The stages
/// below record how far along that path a single handle is; each handle has
/// exactly one owner and its own independent stage.
#[derive(Clone, Copy, Debug, PartialEq, Eq, Structural)]
pub enum SystemState {
    /// No handle exists yet; only a create call is meaningful.
    Uninitialized,
    /// The create call succeeded and the handle is valid, but the resource
    /// has not been initialised. A dependent resource that needs no
    /// initialisation step may be released directly from here.
    Created,
    /// The initialise call succeeded; operational calls may be made.
    Initialized,
    /// The close call succeeded; all that remains is to release the handle.
    Closed,
    /// The release call succeeded. The handle is dead: no further call may
    /// ever be made with it.
    Released,
}

/// One lifecycle transition requested of the engine for a single handle.
#[derive(Clone, Copy, Debug, PartialEq, Eq, Structural)]
pub enum SystemOp {
    /// Obtain a fresh handle from the engine.
    Create,
    /// Initialise the resource behind the handle.
    Init,
    /// Shut the resource down, keeping the handle valid for release.
    Close,
    /// Hand the handle back to the engine, destroying the resource.
    Release,
}

/// The handle-use discipline: which lifecycle operation may be requested at
/// which stage.
///
/// Create is only for a fresh instance; initialising requires a created
/// handle; closing requires an initialised one. Release is allowed both
/// after a close and directly after a create, since a dependent resource
/// with no initialisation step is created and then released as is. Nothing
/// at all is allowed once the handle has been released: a released handle
/// must never reach the engine again.
pub open spec fn op_allowed(state: SystemState, op: SystemOp) -> bool {
    match op {
        SystemOp::Create => state is Uninitialized,
        SystemOp::Init => state is Created,
        SystemOp::Close => state is Initialized,
        SystemOp::Release => state is Created || state is Closed,
    }
}

/// The stage a handle reaches when an allowed operation succeeds.
pub open spec fn next_state(state: SystemState, op: SystemOp) -> SystemState {
    match op {
        SystemOp::Create => SystemState::Created,
        SystemOp::Init => SystemState::Initialized,
        SystemOp::Close => SystemState::Closed,
        SystemOp::Release => SystemState::Released,
    }
}

/// Advances one handle's lifecycle by one step.
///
/// The caller performs the native call for `op` and hands in the status code
/// the engine reported. On the success code the handle moves to the next
/// stage; on any other code the handle's stage is not advanced and the
/// failure is surfaced with its code preserved, exactly as `wrap` reports
/// it. The discipline `op_allowed` is a demand on the caller: the engine's
/// behaviour on a misused handle is undefined, and no status code can be
/// relied on to report it.
pub fn advance(state: SystemState, op: SystemOp, status: FMOD_RESULT) -> (r: Result<
    SystemState,
    FMODError,
>)
    requires
        op_allowed(state, op),
    ensures
        status == FMOD_RESULT::FMOD_OK ==> r == Result::<SystemState, FMODError>::Ok(
            next_state(state, op),
        ),
        status != FMOD_RESULT::FMOD_OK ==> r == Result::<SystemState, FMODError>::Err(
            FMODError(status),
        ),
{
    match wrap(status) {
        Ok(()) => Ok(
            match op {
                SystemOp::Create => SystemState::Created,
                SystemOp::Init => SystemState::Initialized,
                SystemOp::Close => SystemState::Closed,
                SystemOp::Release => SystemState::Released,
            },
        ),
        Err(error) => Err(error),
    }
}

} // verus!
