use fmod::lifecycle::{advance, SystemOp, SystemState};
use fmod::status::FMOD_RESULT;
use fmod::tolerate_poll_transients;
use fmod::wrap;
use fmod::FMODError;

#[test]
fn init() {
    let system = SystemState::Uninitialized;
    let system = advance(system, SystemOp::Create, FMOD_RESULT::FMOD_OK).unwrap();
    let system = advance(system, SystemOp::Init, FMOD_RESULT::FMOD_OK).unwrap();
    let system = advance(system, SystemOp::Close, FMOD_RESULT::FMOD_OK).unwrap();
    let system = advance(system, SystemOp::Release, FMOD_RESULT::FMOD_OK).unwrap();
    assert_eq!(system, SystemState::Released);
}

#[test]
fn init_studio() {
    let system = SystemState::Uninitialized;
    let studio_system = SystemState::Uninitialized;

    let system = advance(system, SystemOp::Create, FMOD_RESULT::FMOD_OK).unwrap();
    let system = advance(system, SystemOp::Init, FMOD_RESULT::FMOD_OK).unwrap();

    let studio_system = advance(studio_system, SystemOp::Create, FMOD_RESULT::FMOD_OK).unwrap();

    // The dependent studio instance is released while the engine instance is
    // still open; its release must succeed on its own.
    let studio_system = advance(studio_system, SystemOp::Release, FMOD_RESULT::FMOD_OK).unwrap();
    assert_eq!(studio_system, SystemState::Released);

    let system = advance(system, SystemOp::Close, FMOD_RESULT::FMOD_OK).unwrap();
    let system = advance(system, SystemOp::Release, FMOD_RESULT::FMOD_OK).unwrap();
    assert_eq!(system, SystemState::Released);
}

#[test]
fn failed_step_preserves_code_and_state_is_not_advanced() {
    let system = SystemState::Uninitialized;
    let system = advance(system, SystemOp::Create, FMOD_RESULT::FMOD_OK).unwrap();
    let failed = advance(system, SystemOp::Init, FMOD_RESULT::FMOD_ERR_OUTPUT_INIT);
    assert_eq!(failed, Err(FMODError(FMOD_RESULT::FMOD_ERR_OUTPUT_INIT)));
    // The handle is still only created; initialising again is the caller's
    // next legal move.
    let system = advance(system, SystemOp::Init, FMOD_RESULT::FMOD_OK).unwrap();
    assert_eq!(system, SystemState::Initialized);
}

#[test]
fn overlapping_instances_stay_independent() {
    let first = SystemState::Uninitialized;
    let second = SystemState::Uninitialized;

    let first = advance(first, SystemOp::Create, FMOD_RESULT::FMOD_OK).unwrap();
    let second = advance(second, SystemOp::Create, FMOD_RESULT::FMOD_OK).unwrap();
    let first = advance(first, SystemOp::Init, FMOD_RESULT::FMOD_OK).unwrap();
    let second = advance(second, SystemOp::Init, FMOD_RESULT::FMOD_OK).unwrap();
    let first = advance(first, SystemOp::Close, FMOD_RESULT::FMOD_OK).unwrap();
    assert_eq!(first, SystemState::Closed);
    assert_eq!(second, SystemState::Initialized);
    let second = advance(second, SystemOp::Close, FMOD_RESULT::FMOD_OK).unwrap();
    let first = advance(first, SystemOp::Release, FMOD_RESULT::FMOD_OK).unwrap();
    let second = advance(second, SystemOp::Release, FMOD_RESULT::FMOD_OK).unwrap();
    assert_eq!(first, SystemState::Released);
    assert_eq!(second, SystemState::Released);
}

#[test]
fn polling_eventually_observes_not_playing() {
    // One playback-state query per poll: the status the engine reported and,
    // when the query succeeded, whether the channel was still playing.
    let polls: Vec<(FMOD_RESULT, bool)> = vec![
        (FMOD_RESULT::FMOD_OK, true),
        (FMOD_RESULT::FMOD_ERR_INVALID_HANDLE, true),
        (FMOD_RESULT::FMOD_OK, true),
        (FMOD_RESULT::FMOD_ERR_CHANNEL_STOLEN, true),
        (FMOD_RESULT::FMOD_OK, false),
    ];

    let mut playing = true;
    let mut observed_not_playing = false;
    for (status, still_playing) in polls {
        tolerate_poll_transients(wrap(status)).unwrap();
        if status == FMOD_RESULT::FMOD_OK {
            playing = still_playing;
        }
        if !playing {
            observed_not_playing = true;
            break;
        }
    }
    assert!(observed_not_playing);
}

#[test]
fn polling_aborts_on_a_hard_failure() {
    let polls: Vec<FMOD_RESULT> = vec![
        FMOD_RESULT::FMOD_OK,
        FMOD_RESULT::FMOD_ERR_INVALID_HANDLE,
        FMOD_RESULT::FMOD_ERR_NOTREADY,
        FMOD_RESULT::FMOD_OK,
    ];

    let mut aborted = None;
    for status in polls {
        if let Err(error) = tolerate_poll_transients(wrap(status)) {
            aborted = Some(error);
            break;
        }
    }
    assert_eq!(aborted, Some(FMODError(FMOD_RESULT::FMOD_ERR_NOTREADY)));
}
