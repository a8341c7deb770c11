use syncplay::pump::{
    file_info_changed, file_update_due, reached_end_of_file, should_send_state, unpause_gate,
    PlayerStateSnapshot, UnpauseDecision,
};
use syncplay::pump::{build_local_playstate, to_play_state};
use syncplay::session::{LocalPlaybackState, SuppressionFlags};

fn snap(name: &str, position: i64, paused: bool) -> PlayerStateSnapshot {
    PlayerStateSnapshot {
        filename: Some(name.to_string()),
        position: Some(position),
        paused: Some(paused),
        duration: Some(60_000),
    }
}

#[test]
fn state_is_sent_on_change() {
    let a = snap("a", 1_000, false);
    assert!(should_send_state(&a, None));
    assert!(!should_send_state(&snap("a", 1_500, false), Some(&a)));
    assert!(should_send_state(&snap("a", 1_501, false), Some(&a)));
    assert!(should_send_state(&snap("a", 499, false), Some(&a)));
    assert!(should_send_state(&snap("a", 1_000, true), Some(&a)));
    assert!(should_send_state(&snap("b", 1_000, false), Some(&a)));
}

#[test]
fn file_changes_and_suppression() {
    let a = snap("a", 0, false);
    let mut b = snap("a", 0, false);
    assert!(!file_info_changed(&b, Some(&a)));
    b.duration = Some(1);
    assert!(file_info_changed(&b, Some(&a)));
    assert!(file_info_changed(&a, None));

    let mut flags = SuppressionFlags::new();
    flags.suppress_next_file_update();
    assert!(!file_update_due(&mut flags, false));
    assert!(flags.next_file_update);
    assert!(!file_update_due(&mut flags, true));
    assert!(file_update_due(&mut flags, true));
}

#[test]
fn end_of_file() {
    assert!(reached_end_of_file(Some(59_800), Some(60_000)));
    assert!(!reached_end_of_file(Some(59_799), Some(60_000)));
    assert!(!reached_end_of_file(Some(10), Some(0)));
    assert!(!reached_end_of_file(None, Some(60_000)));
}

#[test]
fn unpause_gate_decisions() {
    let mut flags = SuppressionFlags::new();
    assert_eq!(unpause_gate(&mut flags, Some(false), Some(false), false, false), UnpauseDecision::Allow);
    assert_eq!(
        unpause_gate(&mut flags, Some(true), Some(false), false, false),
        UnpauseDecision::Block { send_ready: true }
    );
    assert_eq!(
        unpause_gate(&mut flags, Some(true), Some(false), false, true),
        UnpauseDecision::Block { send_ready: false }
    );
    assert_eq!(unpause_gate(&mut flags, Some(true), Some(false), true, false), UnpauseDecision::Allow);
    flags.suppress_unpause_check();
    assert_eq!(unpause_gate(&mut flags, Some(true), Some(false), false, false), UnpauseDecision::Allow);
    assert!(!flags.unpause_check);
}

#[test]
fn local_playstate_for_replies() {
    let mut local = LocalPlaybackState::new();
    assert!(build_local_playstate(&local, false, 0, false).is_none());
    local.update_from_player(10_000, false, 10_000, false);
    let p = build_local_playstate(&local, true, 10_200, false).unwrap();
    assert_eq!((p.position, p.paused, p.do_seek), (10_000, false, None));
    let p = build_local_playstate(&local, true, 30_000, true).unwrap();
    assert_eq!((p.position, p.do_seek), (30_000, None));

    let s = snap("a", 5_000, true);
    let p = to_play_state(&s, &"me".to_string()).unwrap();
    assert_eq!((p.position, p.paused, p.set_by.as_deref()), (5_000, true, Some("me")));
    let mut unknown = snap("a", 0, true);
    unknown.paused = None;
    assert!(to_play_state(&unknown, &"me".to_string()).is_none());
}
