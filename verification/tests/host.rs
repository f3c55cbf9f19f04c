use telemax::host::{
    decode_message, frame_header, frame_length, DbusValue, MessageError, Effects, FrameError, Payload, PlayerState, TrackFields,
    MAX_MESSAGE_LEN,
};

fn empty() -> Payload {
    Payload {
        tab_title: None,
        page_title: None,
        duration_us: None,
        current_time_us: None,
        url: None,
        poster: None,
        src: None,
        metadata: None,
        fields: None,
        callbacks: None,
        items: None,
    }
}

const TOLD: Effects = Effects { take_volume: false, take_rate: false, emit: true };
const QUIET: Effects = Effects { take_volume: false, take_rate: false, emit: false };

#[test]
fn initial_state() {
    let s = PlayerState::default();
    assert_eq!(s.status, "Stopped");
    assert_eq!(s.loop_status, "None");
    assert_eq!(s.identity, "Browser Media");
    assert!(s.title.is_empty() && s.url.is_empty());
    assert_eq!((s.duration_us, s.position_us), (0, 0));
    assert!(!s.can_go_next && !s.can_go_previous);
    assert!(s.can_play && s.can_pause && s.can_seek);
}

#[test]
fn playing_event() {
    let mut s = PlayerState::default();
    let p = Payload {
        tab_title: Some("Tab".into()),
        page_title: Some("Page".into()),
        duration_us: Some(120_000_000),
        current_time_us: Some(5_000_000),
        url: Some("https://v".into()),
        poster: Some(String::new()),
        metadata: Some(TrackFields { title: None, artist: Some("Art".into()), album: None }),
        callbacks: Some(vec![Some("nexttrack".into()), None, Some("play".into())]),
        ..empty()
    };
    let e = s.handle_extension_message("mpris", "playing", &p);
    assert_eq!(e, Effects { take_volume: true, take_rate: true, emit: true });
    assert_eq!(s.status, "Playing");
    assert_eq!(s.identity, "Tab");
    assert_eq!(s.title, "Page");
    assert_eq!(s.artist, "Art");
    assert_eq!(s.url, "https://v");
    assert_eq!(s.art_url, "");
    assert_eq!(s.duration_us, 120_000_000);
    assert_eq!(s.position_us, 5_000_000);
    assert!(s.can_go_next);
    assert!(!s.can_go_previous);
}

#[test]
fn status_events() {
    let mut s = PlayerState::default();
    assert_eq!(s.handle_extension_message("mpris", "paused", &empty()), TOLD);
    assert_eq!(s.status, "Paused");
    assert_eq!(s.handle_extension_message("mpris", "gone", &empty()), TOLD);
    assert_eq!(s.status, "Stopped");
    assert_eq!(s.handle_extension_message("mpris", "waiting", &empty()), TOLD);
    assert_eq!(s.handle_extension_message("mpris", "unknown", &empty()), TOLD);
    assert_eq!(s.handle_extension_message("settings", "paused", &empty()), QUIET);
    assert_eq!(s.status, "Stopped");
}

#[test]
fn position_updates_are_quiet() {
    let mut s = PlayerState::default();
    let p = Payload { current_time_us: Some(42), duration_us: Some(7), ..empty() };
    assert_eq!(s.handle_extension_message("mpris", "timeupdate", &p), QUIET);
    assert_eq!(s.position_us, 42);
    assert_eq!(s.duration_us, 0);
    assert_eq!(s.handle_extension_message("mpris", "duration", &p), TOLD);
    assert_eq!(s.duration_us, 7);
}

#[test]
fn rate_and_volume_are_taken_by_the_caller() {
    let mut s = PlayerState::default();
    assert_eq!(
        s.handle_extension_message("mpris", "ratechange", &empty()),
        Effects { take_volume: false, take_rate: true, emit: true }
    );
    assert_eq!(
        s.handle_extension_message("mpris", "volumechange", &empty()),
        Effects { take_volume: true, take_rate: false, emit: true }
    );
}

#[test]
fn metadata_title_and_artwork_events() {
    let mut s = PlayerState::default();
    let p = Payload {
        fields: Some(TrackFields {
            title: Some("T".into()),
            artist: Some("A".into()),
            album: Some("B".into()),
        }),
        ..empty()
    };
    s.handle_extension_message("mpris", "metadata", &p);
    assert_eq!((s.title.as_str(), s.artist.as_str(), s.album.as_str()), ("T", "A", "B"));
    let p = Payload { page_title: Some("Page".into()), ..empty() };
    s.handle_extension_message("mpris", "titlechange", &p);
    assert_eq!(s.title, "T");
    assert_eq!(s.identity, "Page");
    let mut fresh = PlayerState::default();
    fresh.handle_extension_message("mpris", "titlechange", &p);
    assert_eq!(fresh.title, "Page");
    let p = Payload { src: Some("https://a/b.jpg".into()), ..empty() };
    s.handle_extension_message("mpris", "artwork", &p);
    assert_eq!(s.art_url, "https://a/b.jpg");
    let p = Payload { items: Some(vec![Some("previoustrack".into())]), ..empty() };
    s.handle_extension_message("mpris", "callbacks", &p);
    assert!(!s.can_go_next && s.can_go_previous);
}

#[test]
fn metadata_entries() {
    let s = PlayerState::default();
    let e = s.metadata_entries();
    assert_eq!(e.len(), 1);
    assert_eq!(e[0].0, "mpris:trackid");
    assert!(matches!(&e[0].1, DbusValue::ObjectPath(p) if p == "/org/mpris/MediaPlayer2/telemax"));
    let s = PlayerState {
        title: "T".into(),
        artist: "A".into(),
        url: "u".into(),
        duration_us: 9,
        ..PlayerState::default()
    };
    let keys: Vec<&str> = s.metadata_entries().iter().map(|e| e.0).collect();
    assert_eq!(keys, vec!["mpris:trackid", "xesam:title", "xesam:artist", "xesam:url", "mpris:length"]);
    let e = s.metadata_entries();
    assert!(matches!(&e[2].1, DbusValue::StrList(l) if l == &vec!["A".to_string()]));
    assert!(matches!(e[4].1, DbusValue::I64(9)));
}

#[test]
fn relative_seek() {
    let s = PlayerState { position_us: 1_000, ..PlayerState::default() };
    assert_eq!(s.seek_position(500), 1_500);
    assert_eq!(s.seek_position(-5_000), 0);
}

#[test]
fn frames() {
    assert_eq!(frame_length([5, 0, 0, 0]), Ok(5));
    assert_eq!(frame_length([0, 0, 16, 0]), Ok(1_048_576));
    assert_eq!(frame_length([1, 0, 16, 0]), Err(FrameError::TooLarge));
    assert_eq!(frame_length([255, 255, 255, 255]), Err(FrameError::TooLarge));
    assert_eq!(MAX_MESSAGE_LEN, 1024 * 1024);
    assert_eq!(frame_header(0x0102_0304), [4, 3, 2, 1]);
    assert_eq!(frame_header(300), 300u32.to_le_bytes());
    for n in [0usize, 1, 255, 256, 65_535, 1_048_576] {
        assert_eq!(frame_length(frame_header(n)), Ok(n));
    }
}

fn snapshot(s: &PlayerState) -> String {
    format!("{s:?}")
}

#[test]
fn taking_a_payload_twice_is_taking_it_once() {
    let payloads = vec![
        Payload {
            tab_title: Some("Tab".into()),
            page_title: Some("Page".into()),
            duration_us: Some(7),
            poster: Some("p.png".into()),
            metadata: Some(TrackFields { title: Some(String::new()), artist: None, album: Some("Al".into()) }),
            callbacks: Some(vec![Some("previoustrack".into())]),
            ..empty()
        },
        Payload { page_title: Some(String::new()), ..empty() },
        empty(),
    ];
    for p in &payloads {
        let mut s = PlayerState::default();
        s.update_from_payload(p);
        let once = snapshot(&s);
        s.update_from_payload(p);
        assert_eq!(snapshot(&s), once);
    }
}

#[test]
fn decoding_framed_messages() {
    let body = br#"{"subsystem":"mpris","action":"paused"}"#;
    let v = decode_message(frame_header(body.len()), body).ok().expect("parsed");
    assert_eq!(v["action"], "paused");
    assert!(matches!(
        decode_message(frame_header(MAX_MESSAGE_LEN as usize + 1), b""),
        Err(MessageError::TooLarge)
    ));
    match decode_message(frame_header(3), b"{x}") {
        Err(MessageError::Malformed(e)) => assert!(e.contains("line 1"), "{e}"),
        _ => panic!("expected a parse error"),
    }
}
