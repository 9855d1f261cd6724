use mpv_control::engine::EngineEvent;
use mpv_control::errors::ControlError;
use mpv_control::sequencer::{
    confirm_init, confirm_playback, confirm_step, play_action, ConfirmState, ConfirmStep,
    PlayAction, PollOutcome, CONFIRM_POLL_BUDGET,
};

#[test]
fn play_on_an_active_engine_is_exactly_one_unpause() {
    for len in [0, 1, 2, 100] {
        assert_eq!(play_action(false, len), PlayAction::Unpause);
    }
}

#[test]
fn play_on_an_idle_engine_with_tracks_starts_from_the_playlist() {
    assert_eq!(play_action(true, 1), PlayAction::StartFromPlaylist);
    assert_eq!(play_action(true, 7), PlayAction::StartFromPlaylist);
}

#[test]
fn play_on_an_idle_engine_with_an_empty_playlist_is_a_no_op() {
    assert_eq!(play_action(true, 0), PlayAction::NothingToPlay);
}

#[test]
fn start_then_loaded_confirms_success() {
    let outcomes = vec![
        PollOutcome::Observed(EngineEvent::StartFile),
        PollOutcome::Observed(EngineEvent::FileLoaded),
    ];
    assert_eq!(confirm_playback(&outcomes), Ok(()));
}

#[test]
fn start_then_end_file_fails_playback() {
    let outcomes = vec![
        PollOutcome::Observed(EngineEvent::StartFile),
        PollOutcome::Observed(EngineEvent::EndFile(0)),
    ];
    assert_eq!(confirm_playback(&outcomes), Err(ControlError::PlaybackFailed));
}

#[test]
fn silence_for_the_whole_budget_fails_playback() {
    let outcomes: Vec<PollOutcome> = Vec::new();
    assert_eq!(confirm_playback(&outcomes), Err(ControlError::PlaybackFailed));
}

#[test]
fn end_file_fails_even_before_a_start() {
    let outcomes = vec![PollOutcome::Observed(EngineEvent::EndFile(2))];
    assert_eq!(confirm_playback(&outcomes), Err(ControlError::PlaybackFailed));
}

#[test]
fn a_loaded_file_counts_only_after_a_start() {
    // A FileLoaded with no StartFile before it is ignored; the budget then
    // runs out.
    let outcomes = vec![PollOutcome::Observed(EngineEvent::FileLoaded)];
    assert_eq!(confirm_playback(&outcomes), Err(ControlError::PlaybackFailed));
}

#[test]
fn other_events_and_quiet_polls_are_ignored() {
    let outcomes = vec![
        PollOutcome::Observed(EngineEvent::Other),
        PollOutcome::Quiet,
        PollOutcome::Observed(EngineEvent::StartFile),
        PollOutcome::Observed(EngineEvent::Other),
        PollOutcome::Quiet,
        PollOutcome::Observed(EngineEvent::FileLoaded),
    ];
    assert_eq!(confirm_playback(&outcomes), Ok(()));
}

#[test]
fn a_channel_fault_surfaces_the_engine_message() {
    let outcomes = vec![
        PollOutcome::Observed(EngineEvent::StartFile),
        PollOutcome::Fault(String::from("event queue overflowed")),
    ];
    assert_eq!(
        confirm_playback(&outcomes),
        Err(ControlError::EngineFailure(String::from("event queue overflowed")))
    );
}

#[test]
fn a_confirmation_on_the_last_poll_still_succeeds() {
    let mut outcomes = vec![PollOutcome::Observed(EngineEvent::StartFile)];
    while outcomes.len() < CONFIRM_POLL_BUDGET - 1 {
        outcomes.push(PollOutcome::Quiet);
    }
    outcomes.push(PollOutcome::Observed(EngineEvent::FileLoaded));
    assert_eq!(outcomes.len(), CONFIRM_POLL_BUDGET);
    assert_eq!(confirm_playback(&outcomes), Ok(()));
}

#[test]
fn a_confirmation_just_past_the_budget_is_too_late() {
    let mut outcomes = vec![PollOutcome::Observed(EngineEvent::StartFile)];
    while outcomes.len() < CONFIRM_POLL_BUDGET {
        outcomes.push(PollOutcome::Quiet);
    }
    outcomes.push(PollOutcome::Observed(EngineEvent::FileLoaded));
    assert_eq!(confirm_playback(&outcomes), Err(ControlError::PlaybackFailed));
}

#[test]
fn the_step_machine_remembers_a_start() {
    let state = confirm_init();
    assert!(!state.started);
    assert_eq!(state.polls_done, 0);

    let step = confirm_step(&state, &PollOutcome::Observed(EngineEvent::StartFile));
    let ConfirmStep::Pending(state) = step else {
        panic!("a start alone settles nothing");
    };
    assert!(state.started);
    assert_eq!(state.polls_done, 1);

    let step = confirm_step(&state, &PollOutcome::Observed(EngineEvent::FileLoaded));
    assert_eq!(step, ConfirmStep::Settled(Ok(())));
}

#[test]
fn the_step_machine_fails_on_the_last_poll_of_the_budget() {
    let state = ConfirmState { started: true, polls_done: CONFIRM_POLL_BUDGET - 1 };
    let step = confirm_step(&state, &PollOutcome::Quiet);
    assert_eq!(step, ConfirmStep::Settled(Err(ControlError::PlaybackFailed)));
}
