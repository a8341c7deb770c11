use syncplay::session::{
    parse_controlled_room_input, remember_room_entry, IgnoringInfo, IgnoringOnTheFlyState,
    LocalPlaybackState, SuppressionFlags,
};

#[test]
fn server_count_is_echoed_once_then_zero() {
    let mut st = IgnoringOnTheFlyState::new();
    st.client = 2;
    st.apply_info(&IgnoringInfo { server: Some(4), client: None });
    assert_eq!(st, IgnoringOnTheFlyState { server: 4, client: 0 });

    let (send, info) = st.prepare_reply(false);
    assert!(send);
    assert_eq!(info, Some(IgnoringInfo { server: Some(4), client: None }));
    assert_eq!(st.server, 0);

    let (_, info) = st.prepare_reply(false);
    assert_eq!(info, None);
}

#[test]
fn own_change_holds_back_playstate_until_acknowledged() {
    let mut st = IgnoringOnTheFlyState::new();
    let (send, info) = st.prepare_reply(true);
    assert!(send);
    assert_eq!(info, Some(IgnoringInfo { server: None, client: Some(1) }));

    let (send, info) = st.prepare_reply(false);
    assert!(!send);
    assert_eq!(info, Some(IgnoringInfo { server: None, client: Some(1) }));

    // A client count that is not ours changes nothing; ours clears it.
    st.apply_info(&IgnoringInfo { server: None, client: Some(7) });
    assert_eq!(st.client, 1);
    st.apply_info(&IgnoringInfo { server: None, client: Some(1) });
    assert_eq!(st.client, 0);
    let (send, info) = st.prepare_reply(false);
    assert!(send);
    assert_eq!(info, None);
}

#[test]
fn client_count_saturates() {
    let mut st = IgnoringOnTheFlyState { server: 0, client: u32::MAX };
    st.prepare_reply(true);
    assert_eq!(st.client, u32::MAX);
}

#[test]
fn one_shot_flags_read_true_once() {
    let mut flags = SuppressionFlags::new();
    assert!(!flags.take_next_file_update());
    flags.suppress_next_file_update();
    flags.suppress_unpause_check();
    assert!(flags.take_next_file_update());
    assert!(!flags.take_next_file_update());
    assert!(flags.unpause_check);
    assert!(flags.take_unpause_check());
    assert!(!flags.take_unpause_check());
}

#[test]
fn local_state_reports_pause_changes_and_seeks() {
    let mut local = LocalPlaybackState::new();
    assert_eq!(local.current(), Some((0, true)));
    // Unpausing while the room plays is no pause change; a jump of 30 s is a seek.
    assert_eq!(local.update_from_player(30_000, false, 0, false), (false, true));
    // Pausing while the room plays is a pause change; a small step is no seek.
    assert_eq!(local.update_from_player(30_500, true, 30_000, false), (true, false));
    assert!(!local.compute_seeked(31_000, 0));
    assert!(local.compute_seeked(40_000, 0));
    // Exactly one second away is not a seek.
    assert!(!local.compute_seeked(31_500, 0));
    assert_eq!(local.current(), Some((30_500, true)));
}

#[test]
fn controlled_room_input_is_split() {
    let (room, password) = parse_controlled_room_input("vip:secret");
    assert_eq!(room, "vip");
    assert_eq!(password.as_deref(), Some("secret"));

    let (room, password) = parse_controlled_room_input("plain");
    assert_eq!(room, "plain");
    assert_eq!(password, None);

    let (room, password) = parse_controlled_room_input("a:b:c");
    assert_eq!(room, "a:b");
    assert_eq!(password.as_deref(), Some("c"));

    let (room, password) = parse_controlled_room_input("trailing:");
    assert_eq!(room, "trailing");
    assert_eq!(password, None);
}

#[test]
fn room_entry_is_added_once() {
    let mut list = vec!["other:pw".to_string()];
    assert!(remember_room_entry(&mut list, "vip", "secret"));
    assert_eq!(list, vec!["other:pw".to_string(), "vip:secret".to_string()]);
    assert!(!remember_room_entry(&mut list, "vip", "secret"));
    assert_eq!(list.len(), 2);
}
