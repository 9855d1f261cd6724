use mpv_control::engine::{EngineOp, LoadMode};
use mpv_control::errors::ControlError;
use mpv_control::queue::{
    auto_next_first_op, auto_next_follow_up, set_queue_follow_up, set_queue_next_plan,
    set_queue_ops, set_queue_plan, PlaybackAdjust, QueueState, SetQueuePlan,
};

#[test]
fn set_queue_next_without_current_is_rejected() {
    for pause in [None, Some(true), Some(false)] {
        let queue = QueueState {
            current: None,
            next: Some(String::from("song-b")),
            pause,
        };
        match set_queue_plan(&queue) {
            Err(ControlError::BadRequest(_)) => {}
            other => panic!("expected a bad-request rejection, got {:?}", other),
        }
    }
}

#[test]
fn set_queue_empty_clears_and_pauses_without_a_load() {
    for pause in [None, Some(true), Some(false)] {
        let queue = QueueState { current: None, next: None, pause };
        let plan = set_queue_plan(&queue).expect("an empty shape is valid");
        assert_eq!(plan, SetQueuePlan::ClearAndPause);
        let ops = set_queue_ops(plan);
        assert_eq!(ops, vec![EngineOp::ClearPlaylist, EngineOp::Pause]);
        assert!(ops.iter().all(|op| !matches!(op, EngineOp::LoadFiles { .. })));
    }
}

#[test]
fn set_queue_current_only_loads_one_replace_entry() {
    let queue = QueueState {
        current: Some(String::from("song-a")),
        next: None,
        pause: None,
    };
    let plan = set_queue_plan(&queue).expect("valid shape");
    let SetQueuePlan::Load(entries) = plan else {
        panic!("expected a load plan");
    };
    assert_eq!(entries.len(), 1);
    assert_eq!(entries[0].path, "song-a");
    assert_eq!(entries[0].mode, LoadMode::Replace);
}

#[test]
fn set_queue_current_and_next_loads_replace_then_append() {
    let queue = QueueState {
        current: Some(String::from("song-a")),
        next: Some(String::from("song-b")),
        pause: Some(false),
    };
    let plan = set_queue_plan(&queue).expect("valid shape");
    let SetQueuePlan::Load(entries) = plan else {
        panic!("expected a load plan");
    };
    assert_eq!(entries.len(), 2);
    assert_eq!(entries[0].path, "song-a");
    assert_eq!(entries[0].mode, LoadMode::Replace);
    assert_eq!(entries[1].path, "song-b");
    assert_eq!(entries[1].mode, LoadMode::Append);
}

#[test]
fn set_queue_follow_up_maps_the_pause_field() {
    let f = set_queue_follow_up(true, Some(true));
    assert!(!f.recover_play);
    assert_eq!(f.adjust, PlaybackAdjust::ForcePause);

    let f = set_queue_follow_up(true, Some(false));
    assert_eq!(f.adjust, PlaybackAdjust::StartPlayback);

    let f = set_queue_follow_up(true, None);
    assert_eq!(f.adjust, PlaybackAdjust::Leave);
}

#[test]
fn set_queue_follow_up_recovers_with_a_play_after_a_failed_load() {
    let f = set_queue_follow_up(false, None);
    assert!(f.recover_play);
    assert_eq!(f.adjust, PlaybackAdjust::Leave);

    let f = set_queue_follow_up(false, Some(true));
    assert!(f.recover_play);
    assert_eq!(f.adjust, PlaybackAdjust::ForcePause);
}

#[test]
fn set_queue_next_none_removes_the_on_deck_slot() {
    let plan = set_queue_next_plan(2, &None);
    assert!(plan.remove_on_deck);
    assert!(plan.append.is_none());

    let plan = set_queue_next_plan(5, &None);
    assert!(plan.remove_on_deck);
    assert!(plan.append.is_none());
}

#[test]
fn set_queue_next_on_empty_playlist_does_nothing() {
    let plan = set_queue_next_plan(0, &Some(String::from("song-b")));
    assert!(!plan.remove_on_deck);
    assert!(plan.append.is_none());

    let plan = set_queue_next_plan(0, &None);
    assert!(!plan.remove_on_deck);
    assert!(plan.append.is_none());
}

#[test]
fn set_queue_next_replaces_rather_than_stacks() {
    let plan = set_queue_next_plan(2, &Some(String::from("song-c")));
    assert!(plan.remove_on_deck);
    let entry = plan.append.expect("a new on-deck entry");
    assert_eq!(entry.path, "song-c");
    assert_eq!(entry.mode, LoadMode::Append);

    let plan = set_queue_next_plan(1, &Some(String::from("song-c")));
    assert!(!plan.remove_on_deck);
    assert!(plan.append.is_some());
}

#[test]
fn auto_next_removes_the_finished_track_first() {
    assert_eq!(auto_next_first_op(), EngineOp::RemoveIndex { index: 0 });
}

#[test]
fn auto_next_appends_the_follow_up_track_after_a_successful_removal() {
    let f = auto_next_follow_up(true, &Some(String::from("song-b")));
    assert!(!f.pause_instead);
    let entry = f.append.expect("the follow-up track is enqueued");
    assert_eq!(entry.path, "song-b");
    assert_eq!(entry.mode, LoadMode::Append);

    let f = auto_next_follow_up(true, &None);
    assert!(!f.pause_instead);
    assert!(f.append.is_none());
}

#[test]
fn auto_next_falls_back_to_pausing_when_the_removal_fails() {
    let f = auto_next_follow_up(false, &Some(String::from("song-b")));
    assert!(f.pause_instead);
    assert!(f.append.is_none());
}
