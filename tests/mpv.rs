use syncplay::mpv::{MpvPlayerEvent, PropertyId, RequestIds};

#[test]
fn property_ids_round_trip() {
    for p in [PropertyId::TimePos, PropertyId::Pause, PropertyId::Filename, PropertyId::Duration, PropertyId::Path, PropertyId::Speed] {
        assert_eq!(PropertyId::from_u64(p.as_u64()), Some(p));
    }
    assert_eq!(PropertyId::from_u64(0), None);
    assert_eq!(PropertyId::TimePos.property_name(), "time-pos");
    assert_eq!(PropertyId::Speed.as_u64(), 6);
}

#[test]
fn request_ids_roll() {
    let mut ids = RequestIds::new();
    assert_eq!(ids.allocate(), 0);
    assert_eq!(ids.allocate(), 1);
    let mut last = RequestIds { next: u64::MAX };
    assert_eq!(last.allocate(), u64::MAX);
    assert_eq!(last.next, 0);
}

#[test]
fn events_are_read() {
    assert_eq!(MpvPlayerEvent::from_event_name("end-file", Some("eof")), MpvPlayerEvent::EndOfFile);
    assert_eq!(MpvPlayerEvent::from_event_name("end-file", Some("stop")), MpvPlayerEvent::Other);
    assert_eq!(MpvPlayerEvent::from_event_name("end-file", None), MpvPlayerEvent::Other);
    assert_eq!(MpvPlayerEvent::from_event_name("file-loaded", None), MpvPlayerEvent::FileLoaded);
    assert_eq!(MpvPlayerEvent::from_event_name("shutdown", None), MpvPlayerEvent::Shutdown);
}
