use syncplay::chat::ChatMessage;
use syncplay::events::{chat_message_event, playlist_event, user_list_event};
use syncplay::playlist::Playlist;
use syncplay::room::{newly_alone, room_warning_osd_text, RoomWarningState, User};

#[test]
fn payloads() {
    let mut p = Playlist::new();
    p.set_items(vec!["a".to_string(), "b".to_string()]);
    p.next();
    let e = playlist_event(&p);
    assert_eq!(e.items, vec!["a".to_string(), "b".to_string()]);
    assert_eq!(e.current_index, Some(1));

    let users = vec![User {
        username: "bob".to_string(),
        room: "r".to_string(),
        file: Some("x".to_string()),
        file_size: None,
        file_duration: None,
        is_ready: true,
        is_controller: true,
    }];
    let e = user_list_event(&users);
    assert_eq!(e.users.len(), 1);
    assert_eq!(e.users[0].username, "bob");
    assert!(e.users[0].is_controller);

    let m = ChatMessage::error("bad".to_string());
    let e = chat_message_event(&m);
    assert_eq!(e.message_type, "error");
    assert_eq!(e.message, "bad");
    assert_eq!(e.timestamp, m.timestamp);
    let m = ChatMessage::user("u".to_string(), "hi".to_string());
    assert_eq!(chat_message_event(&m).message_type, "normal");
}

#[test]
fn warning_texts() {
    let w = |alone: bool, d: Option<&str>, n: Option<&str>| RoomWarningState {
        alone,
        file_differences: d.map(String::from),
        not_ready: n.map(String::from),
    };
    assert_eq!(room_warning_osd_text(&w(true, Some("name"), None)), Some("You're alone in the room".to_string()));
    assert_eq!(
        room_warning_osd_text(&w(false, Some("name"), Some("Not ready: b"))),
        Some("File differences: name; Not ready: b".to_string())
    );
    assert_eq!(room_warning_osd_text(&w(false, Some("size"), None)), Some("File differences: size".to_string()));
    assert_eq!(room_warning_osd_text(&w(false, None, Some("Not ready: b"))), Some("Not ready: b".to_string()));
    assert_eq!(room_warning_osd_text(&w(false, None, None)), None);
    assert!(newly_alone(&w(false, None, None), &w(true, None, None), false));
    assert!(!newly_alone(&w(true, None, None), &w(true, None, None), false));
    assert!(!newly_alone(&w(false, None, None), &w(true, None, None), true));
}
