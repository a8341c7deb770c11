use syncplay::config::UnpauseAction;
use syncplay::control::{AutoPlayState, AutoplayTick};
use syncplay::room::{
    all_other_users_ready, allow_osd_for_user, autoplay_conditions_met,
    compute_room_warning_state, file_differences, instaplay_conditions_met, is_same_file,
    same_duration, same_filename, same_filesize, should_allow_fastforward, users_in_room_count,
    LocalFile, User,
};

fn user(name: &str, room: &str, file: Option<&str>, ready: bool) -> User {
    User {
        username: name.to_string(),
        room: room.to_string(),
        file: file.map(|f| f.to_string()),
        file_size: Some(100),
        file_duration: Some(60_000),
        is_ready: ready,
        is_controller: false,
    }
}

fn local(name: Option<&str>) -> LocalFile {
    LocalFile { name: name.map(|n| n.to_string()), size: Some(100), duration: Some(60_000) }
}

#[test]
fn file_comparisons() {
    assert!(same_filename(&Some("a.mkv".to_string()), &Some("a.mkv".to_string())));
    assert!(!same_filename(&Some("a.mkv".to_string()), &Some("b.mkv".to_string())));
    assert!(same_filename(&Some("PRIVACY_HIDDEN_FILENAME".to_string()), &Some("b.mkv".to_string())));
    assert!(!same_filename(&None, &Some("b.mkv".to_string())));
    assert!(same_filesize(Some(1), None));
    assert!(!same_filesize(Some(1), Some(2)));
    // 61.4 s rounds to 61, 63.6 s to 64: three seconds apart.
    assert!(!same_duration(Some(61_400), Some(63_600), true));
    assert!(same_duration(Some(61_400), Some(63_400), true));
    assert!(same_duration(Some(1), Some(900_000), false));
    assert!(!same_duration(None, Some(1), true));
}

#[test]
fn same_file_needs_old_record() {
    let a = user("a", "r", Some("x.mkv"), true);
    let b = user("a", "r", Some("x.mkv"), false);
    assert!(is_same_file(Some(&a), &b, true));
    assert!(!is_same_file(None, &b, true));
    let c = user("a", "r", Some("y.mkv"), false);
    assert!(!is_same_file(Some(&a), &c, true));
}

#[test]
fn differences_are_labelled() {
    let room = "r".to_string();
    let mut other = user("b", "r", Some("y.mkv"), true);
    other.file_size = Some(5);
    assert_eq!(file_differences(&room, &local(Some("x.mkv")), &other, true), Some("name, size".to_string()));
    other.file_duration = Some(1_000);
    assert_eq!(
        file_differences(&room, &local(Some("x.mkv")), &other, true),
        Some("name, size, duration".to_string())
    );
    let same = user("b", "r", Some("x.mkv"), true);
    assert_eq!(file_differences(&room, &local(Some("x.mkv")), &same, true), None);
    let elsewhere = user("b", "q", Some("y.mkv"), true);
    assert_eq!(file_differences(&room, &local(Some("x.mkv")), &elsewhere, true), None);
}

#[test]
fn room_warnings() {
    let room = "r".to_string();
    let me = "me".to_string();
    let users = vec![user("me", "r", Some("x.mkv"), true)];
    let w = compute_room_warning_state(&users, &room, &me, &local(Some("x.mkv")), true);
    assert!(w.alone);
    assert_eq!(w.not_ready, None);

    let users = vec![
        user("me", "r", Some("x.mkv"), false),
        user("b", "r", Some("y.mkv"), false),
        user("c", "q", Some("z.mkv"), false),
    ];
    let w = compute_room_warning_state(&users, &room, &me, &local(Some("x.mkv")), true);
    assert!(!w.alone);
    assert_eq!(w.file_differences, Some("name".to_string()));
    assert_eq!(w.not_ready, Some("Not ready: me, b".to_string()));

    let empty: Vec<User> = Vec::new();
    let w = compute_room_warning_state(&empty, &room, &me, &local(None), true);
    assert!(!w.alone && w.file_differences.is_none() && w.not_ready.is_none());
}

#[test]
fn readiness_and_room_size() {
    let room = "r".to_string();
    let me = "me".to_string();
    let users = vec![user("me", "r", None, false), user("b", "r", None, true), user("c", "q", None, false)];
    assert!(all_other_users_ready(&users, &room, &me));
    assert_eq!(users_in_room_count(&users, &room, &me), 2);
    assert_eq!(users_in_room_count(&users[1..].to_vec(), &room, &me), 2);
    assert!(instaplay_conditions_met(UnpauseAction::IfOthersReady, false, &users, &room, &me, -1));
    assert!(!instaplay_conditions_met(UnpauseAction::IfAlreadyReady, false, &users, &room, &me, -1));
    assert!(instaplay_conditions_met(UnpauseAction::Always, false, &users, &room, &me, -1));
    assert!(!instaplay_conditions_met(UnpauseAction::IfMinUsersReady, false, &users, &room, &me, 3));
    assert!(instaplay_conditions_met(UnpauseAction::IfMinUsersReady, false, &users, &room, &me, 2));
}

#[test]
fn autoplay_countdown_scenario() {
    let room = "r".to_string();
    let file = Some("x.mkv".to_string());
    let mut users = vec![user("me", "r", Some("x.mkv"), true), user("b", "r", Some("x.mkv"), true)];
    let met = |users: &Vec<User>| autoplay_conditions_met(true, true, -1, users, &room, &file, Some(true));
    assert!(met(&users));
    assert!(!autoplay_conditions_met(true, true, -1, &users, &room, &file, Some(false)));
    assert!(!autoplay_conditions_met(false, true, -1, &users, &room, &file, Some(true)));
    assert!(!autoplay_conditions_met(true, true, 3, &users, &room, &file, Some(true)));

    let mut auto = AutoPlayState::new();
    auto.enabled = true;
    assert!(auto.evaluate(met(&users)));
    assert_eq!(auto.tick(met(&users)), AutoplayTick::Continue);
    assert_eq!(auto.tick(met(&users)), AutoplayTick::Continue);
    assert_eq!(auto.tick(met(&users)), AutoplayTick::Continue);
    assert_eq!(auto.tick(met(&users)), AutoplayTick::Unpause);
    assert!(!auto.countdown_active);

    // The other user becomes unready during a countdown: it is cancelled.
    assert!(auto.evaluate(met(&users)));
    assert_eq!(auto.tick(met(&users)), AutoplayTick::Continue);
    users[1].is_ready = false;
    assert_eq!(auto.tick(met(&users)), AutoplayTick::Stop);
    assert!(!auto.countdown_active);
    assert_eq!(auto.countdown_remaining, 0);
    assert_eq!(auto.tick(true), AutoplayTick::Stop);
}

#[test]
fn osd_filter_and_fastforward() {
    let room = "r".to_string();
    let mut u = user("b", "r", None, true);
    assert!(!allow_osd_for_user(true, false, false, &room, None, &u));
    u.is_controller = true;
    assert!(allow_osd_for_user(true, false, false, &room, None, &u));
    let far = user("c", "q", None, true);
    assert!(!allow_osd_for_user(true, false, true, &room, None, &far));
    assert!(allow_osd_for_user(true, false, true, &room, Some(&u), &far));

    let me = "me".to_string();
    let mut users = vec![user("me", "r", None, true)];
    assert!(should_allow_fastforward(false, &users, &me));
    users[0].is_controller = true;
    assert!(!should_allow_fastforward(false, &users, &me));
    assert!(should_allow_fastforward(true, &users, &me));
}
