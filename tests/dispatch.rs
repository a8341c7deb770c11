use syncplay::control::TlsStatus;
use syncplay::dispatch::{Session, SessionAction};
use syncplay::messages::{
    ChatMessage, ControllerAuth, ErrorMessage, HelloMessage, NewControlledRoom, PingInfo, PlayState,
    PlaylistChange, PlaylistIndexUpdate, ProtocolMessage, ReadyState, RoomInfo, SetMessage,
    StateMessage, TLSMessage, UserEvent, UserUpdate,
};
use syncplay::session::IgnoringInfo;

fn session(room: &str) -> Session {
    Session::new("u".to_string(), room, "0.1.0".to_string(), true, true, true)
}

fn empty_set() -> SetMessage {
    SetMessage {
        room: None,
        file: None,
        user: None,
        ready: None,
        playlist_index: None,
        playlist_change: None,
        controller_auth: None,
        new_controlled_room: None,
    }
}

fn sent(actions: &[SessionAction]) -> Vec<&ProtocolMessage> {
    actions
        .iter()
        .filter_map(|a| match a {
            SessionAction::Send(m) => Some(m),
            _ => None,
        })
        .collect()
}

fn server_hello() -> ProtocolMessage {
    ProtocolMessage::Hello(HelloMessage {
        username: "u".to_string(),
        password: None,
        room: None,
        version: "1.2.255".to_string(),
        realversion: "1.7.4".to_string(),
        features: None,
        motd: Some("hi".to_string()),
    })
}

#[test]
fn hello_sent_once_and_answered_with_list_request() {
    let mut s = session("r");
    let first = s.hello();
    assert_eq!(sent(&first).len(), 1);
    assert!(matches!(sent(&first)[0], ProtocolMessage::Hello(h) if h.room.as_ref().unwrap().name == "r"));
    assert!(s.hello().is_empty());

    let acts = s.on_server_message(server_hello(), 0, None);
    assert!(matches!(&acts[0], SessionAction::System(t) if t == "Hello u,"));
    assert!(matches!(&acts[1], SessionAction::System(t) if t == "hi"));
    assert_eq!(sent(&acts).len(), 1);
    assert!(matches!(sent(&acts)[0], ProtocolMessage::List(None)));
    assert_eq!(s.server_version.as_deref(), Some("1.7.4"));
}

#[test]
fn controlled_room_login_after_hello() {
    let mut s = session("vip:secret");
    assert_eq!(s.client.room, "vip");
    let acts = s.on_server_message(server_hello(), 0, None);
    let msgs = sent(&acts);
    assert_eq!(msgs.len(), 2);
    match msgs[1] {
        ProtocolMessage::SetUpdate(set) => {
            let auth = set.controller_auth.as_ref().unwrap();
            assert_eq!(auth.room.as_deref(), Some("vip"));
            assert_eq!(auth.password.as_deref(), Some("secret"));
        }
        _ => panic!("expected a controller login"),
    }
    let granted = SetMessage {
        controller_auth: Some(ControllerAuth {
            room: Some("vip".to_string()),
            password: None,
            user: Some("u".to_string()),
            success: Some(true),
        }),
        ..empty_set()
    };
    let acts = s.on_server_message(ProtocolMessage::SetUpdate(granted), 0, None);
    assert!(matches!(&acts[0], SessionAction::System(t) if t == "u authenticated as a room operator"));
    assert!(s.client.get_user(&"u".to_string()).unwrap().is_controller);
    let refused = SetMessage {
        controller_auth: Some(ControllerAuth { room: None, password: None, user: None, success: Some(false) }),
        ..empty_set()
    };
    let acts = s.on_server_message(ProtocolMessage::SetUpdate(refused), 0, None);
    assert!(matches!(&acts[0], SessionAction::ChatError(t) if t == "u failed to identify as a room operator."));
}

#[test]
fn state_is_answered_with_echoed_counters() {
    let mut s = session("r");
    let play = PlayState { position: 12_000, paused: false, do_seek: None, set_by: Some("bob".to_string()) };
    let st = StateMessage {
        playstate: Some(play),
        ping: Some(PingInfo {
            latency_calculation: Some(777),
            client_latency_calculation: Some(1_000),
            client_rtt: None,
            server_rtt: Some(200),
        }),
        ignoring_on_the_fly: Some(IgnoringInfo { server: Some(3), client: None }),
    };
    let local = PlayState { position: 11_000, paused: false, do_seek: None, set_by: None };
    let acts = s.on_server_message(ProtocolMessage::State(st), 2_000, Some(local));
    assert!(matches!(&acts[0], SessionAction::Synchronise { global, message_age: 400 } if global.position == 12_000));
    match &acts[1] {
        SessionAction::Send(ProtocolMessage::State(reply)) => {
            assert_eq!(reply.ignoring_on_the_fly, Some(IgnoringInfo { server: Some(3), client: None }));
            assert_eq!(reply.playstate.as_ref().unwrap().position, 11_000);
            let ping = reply.ping.unwrap();
            assert_eq!(ping.latency_calculation, Some(777));
            assert_eq!(ping.client_latency_calculation, Some(2_000));
            assert_eq!(ping.client_rtt, Some(200));
        }
        _ => panic!("expected a State reply"),
    }
    assert_eq!(s.ignoring.server, 0);
    assert_eq!(s.global.as_ref().unwrap().position, 12_000);
}

#[test]
fn start_tls_errors_and_answers() {
    let mut s = session("r");
    let acts = s.on_server_message(
        ProtocolMessage::Error(ErrorMessage { message: "startTLS not supported".to_string() }),
        0,
        None,
    );
    assert!(matches!(sent(&acts)[0], ProtocolMessage::Hello(_)));
    let acts = s.on_server_message(
        ProtocolMessage::Error(ErrorMessage { message: "wrong".to_string() }),
        0,
        None,
    );
    assert!(matches!(&acts[0], SessionAction::ChatError(t) if t == "wrong"));

    let mut s = session("r");
    let acts = s.on_server_message(ProtocolMessage::TLS(TLSMessage { start_tls: Some("false".to_string()) }), 0, None);
    assert!(matches!(acts[0], SessionAction::TlsStatus(TlsStatus::Unsupported)));
    assert!(matches!(sent(&acts)[0], ProtocolMessage::Hello(_)));
    let acts = s.on_server_message(ProtocolMessage::TLS(TLSMessage { start_tls: Some("true".to_string()) }), 0, None);
    assert!(matches!(acts[0], SessionAction::UpgradeTls));
    let acts = s.on_tls_upgraded(true);
    assert!(matches!(acts[0], SessionAction::TlsStatus(TlsStatus::Enabled)));
    assert_eq!(acts.len(), 2);

    let acts = s.on_server_message(
        ProtocolMessage::Chat(ChatMessage { username: Some("bob".to_string()), message: "yo".to_string() }),
        0,
        None,
    );
    assert!(matches!(&acts[0], SessionAction::ChatLine(Some(u), t) if u == "bob" && t == "yo"));
}

#[test]
fn set_message_parts_in_order() {
    let mut s = session("r");
    let join = UserUpdate {
        room: Some(RoomInfo { name: "r".to_string(), password: None }),
        file: None,
        event: None,
        controller: None,
        is_ready: None,
    };
    let acts = s.on_server_message(
        ProtocolMessage::SetUpdate(SetMessage { user: Some(vec![("bob".to_string(), join)]), ..empty_set() }),
        0,
        None,
    );
    assert!(matches!(&acts[0], SessionAction::System(t) if t == "bob has joined the room: 'r'"));

    let ready = ReadyState { username: Some("bob".to_string()), is_ready: Some(true), manually_initiated: None, set_by: None };
    let leave = UserUpdate { room: None, file: None, event: Some(UserEvent { joined: None, left: Some(true) }), controller: None, is_ready: None };
    let set = SetMessage {
        ready: Some(ready),
        user: Some(vec![("bob".to_string(), leave)]),
        playlist_change: Some(PlaylistChange { user: None, files: vec!["a.mkv".to_string(), "b.mkv".to_string()] }),
        playlist_index: Some(PlaylistIndexUpdate { user: None, index: Some(1) }),
        ..empty_set()
    };
    let acts = s.on_server_message(ProtocolMessage::SetUpdate(set), 0, None);
    assert!(matches!(&acts[0], SessionAction::System(t) if t == "bob has left"));
    assert!(matches!(acts[1], SessionAction::PausePlayer));
    assert!(matches!(&acts[2], SessionAction::LoadMedia { name, notify_server: false } if name == "b.mkv"));
    assert_eq!(s.playlist.get_current_index(), Some(1));
    // The ready update came after the leave, so bob is listed again, ready.
    assert!(s.client.get_user(&"bob".to_string()).unwrap().is_ready);
}

#[test]
fn new_controlled_room_moves_and_logs_in() {
    let mut s = session("r");
    let set = SetMessage {
        new_controlled_room: Some(NewControlledRoom { room_name: "+club:ab12".to_string(), password: "pw".to_string() }),
        ..empty_set()
    };
    let acts = s.on_server_message(ProtocolMessage::SetUpdate(set), 0, None);
    assert!(matches!(&acts[0], SessionAction::System(t) if t.starts_with("Created managed room '+club:ab12'")));
    let msgs = sent(&acts);
    assert_eq!(msgs.len(), 3);
    assert!(matches!(msgs[0], ProtocolMessage::SetUpdate(m) if m.room.as_ref().unwrap().name == "+club:ab12"));
    assert!(matches!(msgs[1], ProtocolMessage::List(None)));
    assert!(matches!(msgs[2], ProtocolMessage::SetUpdate(m) if m.controller_auth.as_ref().unwrap().password.as_deref() == Some("pw")));
    assert_eq!(s.client.room, "+club:ab12");
    assert_eq!(s.pending_password.as_deref(), Some("pw"));

    let file = SetMessage {
        file: Some(syncplay::messages::FileInfo { name: Some("m.mkv".to_string()), size: None, duration: None }),
        ..empty_set()
    };
    let acts = s.on_server_message(ProtocolMessage::SetUpdate(file), 0, None);
    assert!(matches!(&acts[0], SessionAction::LoadMedia { name, notify_server: false } if name == "m.mkv"));
}
