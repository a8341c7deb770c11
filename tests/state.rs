use syncplay::messages::{ControllerAuth, FileInfo, RoomInfo, UserEvent, UserInfo, UserUpdate};
use syncplay::state::{controller_auth_outcome, AuthOutcome, ClientState, UserChange};

fn update() -> UserUpdate {
    UserUpdate { room: None, file: None, event: None, controller: None, is_ready: None }
}

#[test]
fn users_join_update_and_leave() {
    let mut st = ClientState::new("me".to_string(), "lobby".to_string());
    let mut up = update();
    up.room = Some(RoomInfo { name: "lobby".to_string(), password: None });
    assert_eq!(
        st.apply_user_update("bob".to_string(), up, true),
        UserChange::Updated { room_changed: true, file_changed: false }
    );
    assert_eq!(st.get_users().len(), 1);

    let mut up = update();
    up.file = Some(FileInfo { name: Some("a.mkv".to_string()), size: Some(10), duration: Some(60_000) });
    up.is_ready = Some(true);
    assert_eq!(
        st.apply_user_update("bob".to_string(), up, true),
        UserChange::Updated { room_changed: false, file_changed: true }
    );
    let bob = st.get_user(&"bob".to_string()).unwrap();
    assert_eq!(bob.file.as_deref(), Some("a.mkv"));
    assert!(bob.is_ready);
    assert_eq!(bob.room, "lobby");

    // The same file again is no change; readiness is kept when absent.
    let mut up = update();
    up.file = Some(FileInfo { name: Some("a.mkv".to_string()), size: Some(10), duration: Some(60_000) });
    assert_eq!(
        st.apply_user_update("bob".to_string(), up, true),
        UserChange::Updated { room_changed: false, file_changed: false }
    );
    assert!(st.get_user(&"bob".to_string()).unwrap().is_ready);

    let mut up = update();
    up.event = Some(UserEvent { joined: None, left: Some(true) });
    assert_eq!(st.apply_user_update("bob".to_string(), up, true), UserChange::Left { was_known: true });
    assert!(st.get_user(&"bob".to_string()).is_none());
    let mut up = update();
    up.event = Some(UserEvent { joined: None, left: Some(true) });
    assert_eq!(st.apply_user_update("ghost".to_string(), up, true), UserChange::Left { was_known: false });
}

#[test]
fn list_rebuilds_roster() {
    let mut st = ClientState::new("me".to_string(), "r".to_string());
    st.apply_user_update("stale".to_string(), update(), true);
    let info = |ready: Option<bool>| UserInfo {
        file: Some(FileInfo { name: Some("x.mkv".to_string()), size: None, duration: None }),
        controller: None,
        is_ready: ready,
        features: None,
    };
    let list = vec![
        ("r".to_string(), vec![("me".to_string(), info(Some(true))), ("bob".to_string(), info(None))]),
        ("q".to_string(), vec![("bob".to_string(), info(Some(true)))]),
    ];
    st.rebuild_from_list(&list);
    let users = st.get_users();
    assert_eq!(users.len(), 2);
    assert!(st.get_user(&"stale".to_string()).is_none());
    let bob = st.get_user(&"bob".to_string()).unwrap();
    assert_eq!(bob.room, "q");
    assert!(bob.is_ready);
    assert_eq!(bob.file.as_deref(), Some("x.mkv"));
}

#[test]
fn controller_status_and_auth() {
    let mut st = ClientState::new("u".to_string(), "vip".to_string());
    assert!(st.set_user_controller_status(&"u".to_string(), Some("vip".to_string()), true));
    assert!(!st.set_user_controller_status(&"u".to_string(), None, true));
    assert!(st.get_user(&"u".to_string()).unwrap().is_controller);

    let me = "u".to_string();
    let room = "vip".to_string();
    let auth = ControllerAuth { room: Some("vip".to_string()), password: None, user: Some("u".to_string()), success: Some(true) };
    assert_eq!(controller_auth_outcome(&auth, &me, &room), AuthOutcome::Granted { in_our_room: true, is_us: true });
    let auth = ControllerAuth { room: None, password: None, user: Some("x".to_string()), success: Some(false) };
    assert_eq!(controller_auth_outcome(&auth, &me, &room), AuthOutcome::RefusedOther);
    let auth = ControllerAuth { room: None, password: None, user: None, success: Some(false) };
    assert_eq!(controller_auth_outcome(&auth, &me, &room), AuthOutcome::RefusedUs);
    let auth = ControllerAuth { room: Some("other".to_string()), password: None, user: None, success: None };
    assert_eq!(controller_auth_outcome(&auth, &me, &room), AuthOutcome::NoVerdict);
}
