use syncplay::sync::{SyncAction, SyncEngine, SyncInputs};

fn inputs(local: i64, local_paused: bool, global: i64, global_paused: bool) -> SyncInputs {
    SyncInputs {
        local_position: local,
        local_paused,
        global_position: global,
        global_paused,
        message_age: 0,
        do_seek: false,
        allow_fastforward: true,
    }
}

#[test]
fn test_sync_no_action_when_in_sync() {
    let mut engine = SyncEngine::new();
    let actions = engine.calculate_sync_actions(inputs(10_000, false, 10_000, false));
    assert_eq!(actions, vec![SyncAction::NoAction]);
}

#[test]
fn exactly_five_seconds_behind_never_seeks() {
    let mut engine = SyncEngine::new();
    let i = inputs(5_000, false, 10_000, false);
    assert_eq!(engine.calculate_sync_actions_at(i, 0), vec![SyncAction::NoAction]);
    assert_eq!(engine.calculate_sync_actions_at(i, 3_300), vec![SyncAction::NoAction]);
    let j = inputs(4_999, false, 10_000, false);
    assert_eq!(engine.calculate_sync_actions_at(j, 3_400), vec![SyncAction::Seek(10_250)]);
}

#[test]
fn test_sync_seek_when_ahead() {
    let mut engine = SyncEngine::new();
    let actions = engine.calculate_sync_actions(inputs(20_000, false, 10_000, false));
    assert!(matches!(actions[0], SyncAction::Seek(_)));
    assert_eq!(actions, vec![SyncAction::Seek(10_000)]);
}

#[test]
fn test_sync_pause_state() {
    let mut engine = SyncEngine::new();
    let actions = engine.calculate_sync_actions(inputs(10_000, true, 10_000, false));
    assert!(matches!(actions[0], SyncAction::SetPaused(false)));
}

#[test]
fn behind_six_seconds_seeks_forward_after_timer() {
    let mut engine = SyncEngine::new();
    let i = inputs(10_000, false, 16_000, false);
    assert_eq!(engine.calculate_sync_actions_at(i, 1_000), vec![SyncAction::NoAction]);
    assert_eq!(engine.calculate_sync_actions_at(i, 4_000), vec![SyncAction::NoAction]);
    assert_eq!(engine.calculate_sync_actions_at(i, 4_300), vec![SyncAction::Seek(16_250)]);
    // The timer was pushed into the future to damp a second seek.
    assert_eq!(engine.calculate_sync_actions_at(i, 5_000), vec![SyncAction::NoAction]);
}

#[test]
fn slowdown_when_fast_forward_not_allowed() {
    let mut engine = SyncEngine::new();
    let mut i = inputs(8_000, false, 10_000, false);
    i.allow_fastforward = false;
    let actions = engine.calculate_sync_actions_at(i, 0);
    assert_eq!(actions, vec![SyncAction::Slowdown]);
    assert!(engine.is_slowdown_active());
    assert_eq!(engine.slowdown_rate(), 950);

    // Already slowed down: nothing more until back in sync.
    assert_eq!(engine.calculate_sync_actions_at(i, 10), vec![SyncAction::NoAction]);

    let mut back = inputs(10_000, false, 10_000, false);
    back.allow_fastforward = false;
    let actions = engine.calculate_sync_actions_at(back, 20);
    assert_eq!(actions, vec![SyncAction::ResetSpeed]);
    assert!(!engine.is_slowdown_active());
}

#[test]
fn do_seek_follows_global_and_pause_comes_first() {
    let mut engine = SyncEngine::new();
    let mut i = inputs(1_000, true, 30_000, false);
    i.do_seek = true;
    i.message_age = 150;
    let actions = engine.calculate_sync_actions_at(i, 0);
    assert_eq!(actions, vec![SyncAction::SetPaused(false), SyncAction::Seek(30_150)]);
}

#[test]
fn message_age_is_ignored_while_paused() {
    let mut engine = SyncEngine::new();
    let mut i = inputs(30_000, true, 20_000, true);
    i.message_age = 5_000;
    assert_eq!(engine.calculate_sync_actions_at(i, 0), vec![SyncAction::Seek(20_000)]);
}

#[test]
fn same_inputs_same_state_same_actions() {
    let mut a = SyncEngine::new();
    let mut b = SyncEngine::new();
    let i = inputs(12_000, false, 10_000, false);
    for t in [0, 500, 4_000] {
        assert_eq!(a.calculate_sync_actions_at(i, t), b.calculate_sync_actions_at(i, t));
    }
}

#[test]
fn reset_slowdown_clears_flag() {
    let mut engine = SyncEngine::default();
    let mut i = inputs(0, false, 3_000, false);
    i.allow_fastforward = false;
    engine.calculate_sync_actions_at(i, 0);
    assert!(engine.is_slowdown_active());
    engine.reset_slowdown();
    assert!(!engine.is_slowdown_active());
}
