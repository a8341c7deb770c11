use syncplay::control::{decide_tls, format_time, is_start_tls_rejection, sync_action_notice, HelloGate, TlsDecision};
use syncplay::frame::{encode_frame, is_blank_line, next_line, FrameDecoder};
use syncplay::messages::{
    build_hello, build_state_message, classify_envelope, controller_auth_message, playlist_index_message,
    ready_message, room_change_message, tag_name, EnvelopeError, MessageTag, PingInfo, PlayState,
    ProtocolMessage, ErrorMessage,
};
use syncplay::ping::PingService;
use syncplay::session::{IgnoringInfo, IgnoringOnTheFlyState};
use syncplay::sync::SyncAction;

#[test]
fn frames_split_at_line_feeds() {
    assert_eq!(next_line(b"abc\r\ndef"), Some((b"abc".to_vec(), 5)));
    assert_eq!(next_line(b"abc"), None);
    assert_eq!(next_line(b"\n"), Some((Vec::new(), 1)));
    assert!(is_blank_line(b" \t\r"));
    assert!(!is_blank_line(b" x"));
    assert_eq!(encode_frame(b"{\"List\":null}"), b"{\"List\":null}\n".to_vec());
}

#[test]
fn decoder_skips_blank_lines_and_waits_for_complete_ones() {
    let mut d = FrameDecoder::new();
    d.push_bytes(b"\n  \r\n{\"a\":1}\r\n{\"b\"");
    assert_eq!(d.next_frame(), Some(b"{\"a\":1}".to_vec()));
    assert_eq!(d.next_frame(), None);
    d.push_bytes(b":2}\n");
    assert_eq!(d.next_frame(), Some(b"{\"b\":2}".to_vec()));
    assert_eq!(d.next_frame(), None);
}

#[test]
fn frame_round_trip() {
    let payload = b"{\"Hello\":{\"username\":\"u\"}}".to_vec();
    let framed = encode_frame(&payload);
    assert_eq!(next_line(&framed), Some((payload.clone(), payload.len() + 1)));
}

#[test]
fn envelopes_are_classified() {
    let keys = |ks: &[&str]| ks.iter().map(|k| k.to_string()).collect::<Vec<String>>();
    assert_eq!(classify_envelope(&keys(&["Hello"])), Ok(MessageTag::Hello));
    assert_eq!(classify_envelope(&keys(&["Set"])), Ok(MessageTag::SetUpdate));
    assert_eq!(classify_envelope(&keys(&["List"])), Ok(MessageTag::List));
    assert_eq!(classify_envelope(&keys(&["Bogus"])), Err(EnvelopeError::Unknown));
    assert_eq!(classify_envelope(&keys(&[])), Err(EnvelopeError::Malformed));
    assert_eq!(classify_envelope(&keys(&["Hello", "Set"])), Err(EnvelopeError::Malformed));
    for tag in [MessageTag::Hello, MessageTag::SetUpdate, MessageTag::State, MessageTag::Chat,
                MessageTag::Error, MessageTag::TLS, MessageTag::List] {
        assert_eq!(classify_envelope(&keys(&[tag_name(tag)])), Ok(tag));
    }
    let m = ProtocolMessage::Error(ErrorMessage { message: "x".to_string() });
    assert_eq!(m.tag(), MessageTag::Error);
}

#[test]
fn hello_carries_fixed_features() {
    let hello = build_hello("u".to_string(), None, "r".to_string(), "0.1.0".to_string(), true);
    assert_eq!(hello.version, "1.2.255");
    assert_eq!(hello.room.as_ref().unwrap().name, "r");
    let f = hello.features.unwrap();
    assert_eq!(
        (f.shared_playlists, f.chat, f.ready_state, f.managed_rooms, f.persistent_rooms),
        (Some(true), Some(true), Some(true), Some(false), Some(false))
    );
    assert!(hello.motd.is_none());
}

#[test]
fn set_messages() {
    let m = ready_message(Some("u".to_string()), true, false);
    let r = m.ready.unwrap();
    assert_eq!((r.is_ready, r.manually_initiated), (Some(true), Some(false)));
    assert!(m.room.is_none());
    let m = controller_auth_message("vip".to_string(), "secret".to_string());
    let a = m.controller_auth.unwrap();
    assert_eq!((a.room.as_deref(), a.password.as_deref()), (Some("vip"), Some("secret")));
    assert_eq!(room_change_message("lobby".to_string()).room.unwrap().name, "lobby");
    assert_eq!(playlist_index_message("u".to_string(), 2).playlist_index.unwrap().index, Some(2));
}

#[test]
fn state_reply_echoes_server_count() {
    let mut ignoring = IgnoringOnTheFlyState::new();
    ignoring.apply_info(&IgnoringInfo { server: Some(3), client: None });
    let ping = PingInfo { latency_calculation: Some(5), client_latency_calculation: Some(6), client_rtt: Some(7), server_rtt: None };
    let play = PlayState { position: 1_000, paused: false, do_seek: None, set_by: None };
    let m = build_state_message(&mut ignoring, Some(play), ping, false);
    assert_eq!(m.ignoring_on_the_fly, Some(IgnoringInfo { server: Some(3), client: None }));
    assert_eq!(m.playstate.unwrap().position, 1_000);
    assert_eq!(m.ping, Some(ping));
    let m = build_state_message(&mut ignoring, None, ping, true);
    assert_eq!(m.ignoring_on_the_fly, Some(IgnoringInfo { server: None, client: Some(1) }));
    let play = PlayState { position: 2_000, paused: true, do_seek: None, set_by: None };
    let m = build_state_message(&mut ignoring, Some(play), ping, false);
    assert!(m.playstate.is_none());
}

#[test]
fn tls_answers() {
    assert_eq!(decide_tls(&Some("true".to_string())), TlsDecision::Upgrade);
    assert_eq!(decide_tls(&Some("false".to_string())), TlsDecision::Fallback);
    assert_eq!(decide_tls(&Some("send".to_string())), TlsDecision::Ignore);
    assert_eq!(decide_tls(&None), TlsDecision::Ignore);
    assert!(is_start_tls_rejection("Not a json message: startTLS unsupported"));
    assert!(!is_start_tls_rejection("wrong password"));
    let mut gate = HelloGate::new();
    assert!(gate.claim());
    assert!(!gate.claim());
}

#[test]
fn times_are_formatted() {
    assert_eq!(format_time(0), "00:00");
    assert_eq!(format_time(754_400), "12:34");
    assert_eq!(format_time(754_500), "12:35");
    assert_eq!(format_time(3_600_000), "01:00:00");
    assert_eq!(format_time(90_061_000), "1d, 01:01:01");
    assert_eq!(format_time(694_861_000), "1w, 1d, 01:01:01");
    assert_eq!(format_time(-65_000), "-01:05");
    assert_eq!(format_time(-400), "00:00");
}

#[test]
fn action_notices() {
    let bob = "bob".to_string();
    let me = "me".to_string();
    assert_eq!(
        sync_action_notice(SyncAction::SetPaused(true), &bob, &me, 0, 0, 754_000),
        Some("bob paused at 12:34".to_string())
    );
    assert_eq!(sync_action_notice(SyncAction::SetPaused(false), &bob, &me, 0, 0, 0), Some("bob unpaused".to_string()));
    assert_eq!(
        sync_action_notice(SyncAction::Seek(1), &bob, &me, 20_000, 10_000, 10_000),
        Some("Rewinded due to time difference with bob".to_string())
    );
    assert_eq!(
        sync_action_notice(SyncAction::Seek(1), &bob, &me, 0, 10_000, 10_000),
        Some("Fast-forwarded due to time difference with bob".to_string())
    );
    assert_eq!(sync_action_notice(SyncAction::Seek(1), &me, &me, 0, 10_000, 10_000), None);
    assert_eq!(sync_action_notice(SyncAction::NoAction, &bob, &me, 0, 0, 0), None);
    assert_eq!(
        sync_action_notice(SyncAction::ResetSpeed, &bob, &me, 0, 0, 0),
        Some("Reverting speed back to normal".to_string())
    );
}

#[test]
fn ping_window_and_forward_delay() {
    let mut p = PingService::new();
    assert_eq!(p.get_rtt(), 0);
    for rtt in 1..=12 {
        p.record_sample(rtt * 10);
    }
    // The window keeps the last ten samples: 30..=120, averaging 75.
    assert_eq!(p.get_rtt(), 75);
    p.receive_message(10_000, 9_000, 200);
    assert_eq!(p.get_forward_delay(), 400);
    p.receive_message(10_000, 9_900, 300);
    assert_eq!(p.get_forward_delay(), 0);
}

#[test]
fn managed_room_announcement() {
    let t = syncplay::control::managed_room_notice("vip", "secret");
    assert!(t.starts_with("Created managed room 'vip' with password 'secret'. Please save"));
    assert!(t.ends_with("can join the room 'vip:secret' to automatically authenticate themselves."));
}
