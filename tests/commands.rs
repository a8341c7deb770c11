use syncplay::commands::{
    apply_playlist_action, end_of_file_action, parse_index, plan_chat_input, ChatInput,
    EndOfFileAction,
};
use syncplay::messages::ReadyState;
use syncplay::playlist::Playlist;
use syncplay::room::User;
use syncplay::state::ClientState;

fn listed() -> Playlist {
    let mut p = Playlist::new();
    p.set_items(vec!["a.mkv".to_string(), "b.mkv".to_string()]);
    p
}

#[test]
fn indexes_are_read_like_usize() {
    assert_eq!(parse_index("0"), Some(0));
    assert_eq!(parse_index("+12"), Some(12));
    assert_eq!(parse_index("18446744073709551615"), Some(usize::MAX));
    assert_eq!(parse_index("18446744073709551616"), None);
    assert_eq!(parse_index(""), None);
    assert_eq!(parse_index("+"), None);
    assert_eq!(parse_index("-1"), None);
    assert_eq!(parse_index("1a"), None);
    assert_eq!(parse_index(" 1"), None);
}

#[test]
fn playlist_actions() {
    let mut p = listed();
    assert_eq!(apply_playlist_action(&mut p, "add", Some("c.mkv".to_string())), Ok(true));
    assert_eq!(p.len(), 3);
    assert_eq!(
        apply_playlist_action(&mut p, "add", None),
        Err("Filename required for add action".to_string())
    );
    assert_eq!(apply_playlist_action(&mut p, "remove", Some("0".to_string())), Ok(true));
    assert_eq!(p.get_items()[0].filename, "b.mkv");
    assert_eq!(
        apply_playlist_action(&mut p, "remove", Some("x".to_string())),
        Err("Invalid index for remove action".to_string())
    );
    assert_eq!(
        apply_playlist_action(&mut p, "remove", None),
        Err("Index required for remove action".to_string())
    );
    assert_eq!(apply_playlist_action(&mut p, "next", None), Ok(false));
    assert_eq!(p.get_current_index(), Some(1));
    assert_eq!(apply_playlist_action(&mut p, "previous", None), Ok(false));
    assert_eq!(p.get_current_index(), Some(0));
    assert_eq!(
        apply_playlist_action(&mut p, "shuffle", None),
        Err("Unknown playlist action: shuffle".to_string())
    );
    assert_eq!(apply_playlist_action(&mut p, "clear", None), Ok(true));
    assert!(p.is_empty());
}

#[test]
fn end_of_file_follows_the_playlist() {
    let mut p = listed();
    assert_eq!(
        end_of_file_action(&mut p, true, false, false, &None),
        EndOfFileAction::PlayNext { index: 1, filename: "b.mkv".to_string() }
    );
    assert_eq!(end_of_file_action(&mut p, true, false, false, &None), EndOfFileAction::Nothing);
    assert_eq!(
        end_of_file_action(&mut p, true, false, true, &None),
        EndOfFileAction::Replay("b.mkv".to_string())
    );
    assert_eq!(
        end_of_file_action(&mut p, true, true, false, &None),
        EndOfFileAction::PlayNext { index: 0, filename: "a.mkv".to_string() }
    );
    assert_eq!(end_of_file_action(&mut p, false, true, true, &None), EndOfFileAction::Nothing);
    let mut empty = Playlist::new();
    assert_eq!(
        end_of_file_action(&mut empty, true, false, true, &Some("solo.mkv".to_string())),
        EndOfFileAction::Replay("solo.mkv".to_string())
    );
}

#[test]
fn chat_input_is_planned() {
    let users = vec![User {
        username: "bob".to_string(),
        room: "r".to_string(),
        file: None,
        file_size: None,
        file_duration: None,
        is_ready: true,
        is_controller: false,
    }];
    assert_eq!(plan_chat_input("hi all", &users), ChatInput::Say("hi all".to_string()));
    assert_eq!(plan_chat_input("/r movie night", &users), ChatInput::ChangeRoom("movie night".to_string()));
    assert_eq!(plan_chat_input("/ready", &users), ChatInput::SetReady(true));
    assert_eq!(plan_chat_input("/unready", &users), ChatInput::SetReady(false));
    assert_eq!(plan_chat_input("/list", &users), ChatInput::Show("Users: bob (r)".to_string()));
    assert_eq!(plan_chat_input("/x", &users), ChatInput::Fail("Unknown command: /x".to_string()));
    assert!(matches!(plan_chat_input("/help", &users), ChatInput::Show(t) if t.starts_with("Available commands:")));
    assert_eq!(plan_chat_input("/list", &Vec::new()), ChatInput::Show("Users: ".to_string()));
}

#[test]
fn ready_updates_keep_old_value_without_flag() {
    let mut st = ClientState::new("me".to_string(), "r".to_string());
    let ready = |name: Option<&str>, flag: Option<bool>| ReadyState {
        username: name.map(String::from),
        is_ready: flag,
        manually_initiated: Some(false),
        set_by: None,
    };
    assert!(!st.apply_ready(&ready(None, Some(true))));
    assert!(st.apply_ready(&ready(Some("bob"), Some(true))));
    assert!(st.get_user(&"bob".to_string()).unwrap().is_ready);
    assert!(st.apply_ready(&ready(Some("bob"), None)));
    assert!(st.get_user(&"bob".to_string()).unwrap().is_ready);
    assert!(st.apply_ready(&ready(Some("me"), Some(true))));
    assert!(st.is_ready);
    assert!(st.apply_ready(&ready(Some("me"), None)));
    assert!(st.is_ready);
    assert_eq!(st.get_user(&"bob".to_string()).unwrap().room, "r");
}
