use telemax::media::{
    art_file_path, auto_select, extract_i64, extract_string, extract_string_list, media_fields,
    next_loop_status, player_bus_names, player_display_name, seek_target, selected_player,
    MetaValue, Metadata, PlayerInfo,
};

fn meta(entries: Vec<(&str, MetaValue)>) -> Metadata {
    Metadata { entries: entries.into_iter().map(|(k, v)| (k.to_string(), v)).collect() }
}

fn s(t: &str) -> MetaValue {
    MetaValue::Str(t.to_string())
}

#[test]
fn strings_from_metadata() {
    let m = meta(vec![("xesam:title", s("Song")), ("n", MetaValue::I64(3))]);
    assert_eq!(extract_string(&m, "xesam:title"), Some("Song".to_string()));
    assert_eq!(extract_string(&m, "n"), None);
    assert_eq!(extract_string(&m, "missing"), None);
}

#[test]
fn string_lists_from_metadata() {
    let m = meta(vec![
        ("artists", MetaValue::Array(vec![s("A"), MetaValue::I32(1), s("B"), s("C")])),
        ("numbers", MetaValue::Array(vec![MetaValue::U32(1)])),
        ("empty", MetaValue::Array(vec![])),
        ("plain", s("Solo")),
        ("other", MetaValue::Other),
    ]);
    assert_eq!(extract_string_list(&m, "artists"), Some("A, B, C".to_string()));
    assert_eq!(extract_string_list(&m, "numbers"), None);
    assert_eq!(extract_string_list(&m, "empty"), None);
    assert_eq!(extract_string_list(&m, "plain"), Some("Solo".to_string()));
    assert_eq!(extract_string_list(&m, "other"), None);
    assert_eq!(extract_string_list(&m, "missing"), None);
}

#[test]
fn integers_from_metadata() {
    let m = meta(vec![
        ("a", MetaValue::I64(-5)),
        ("b", MetaValue::U64(u64::MAX)),
        ("c", MetaValue::I32(-7)),
        ("d", MetaValue::U32(u32::MAX)),
        ("e", s("12")),
    ]);
    assert_eq!(extract_i64(&m, "a"), Some(-5));
    assert_eq!(extract_i64(&m, "b"), Some(-1));
    assert_eq!(extract_i64(&m, "c"), Some(-7));
    assert_eq!(extract_i64(&m, "d"), Some(4294967295));
    assert_eq!(extract_i64(&m, "e"), None);
    assert_eq!(extract_i64(&m, "z"), None);
}

#[test]
fn state_fields() {
    let m = meta(vec![
        ("xesam:title", s("T")),
        ("xesam:artist", MetaValue::Array(vec![s("X"), s("Y")])),
        ("xesam:album", s("Al")),
        ("mpris:artUrl", s("file:///tmp/a.png")),
        ("mpris:length", MetaValue::U64(183_500_999)),
    ]);
    let f = media_fields(&m, Some(-1_500));
    assert_eq!(f.title.as_deref(), Some("T"));
    assert_eq!(f.artist.as_deref(), Some("X, Y"));
    assert_eq!(f.album.as_deref(), Some("Al"));
    assert_eq!(f.art_url.as_deref(), Some("/api/media/art"));
    assert_eq!(f.position_ms, Some(-1));
    assert_eq!(f.duration_ms, Some(183_500));
    let f = media_fields(&meta(vec![]), None);
    assert!(f.title.is_none() && f.artist.is_none() && f.art_url.is_none());
    assert_eq!(f.position_ms, None);
    assert_eq!(f.duration_ms, None);
}

#[test]
fn bus_names_of_players() {
    let names: Vec<String> = [
        "org.freedesktop.DBus",
        "org.mpris.MediaPlayer2.spotify",
        "org.mpris.MediaPlayer2.firefox.instance_1_23",
        ":1.42",
    ]
    .iter()
    .map(|n| n.to_string())
    .collect();
    assert_eq!(
        player_bus_names(&names),
        vec!["org.mpris.MediaPlayer2.spotify", "org.mpris.MediaPlayer2.firefox.instance_1_23"]
    );
    let mut with_host = names.clone();
    with_host.push("org.mpris.MediaPlayer2.telemax".to_string());
    assert_eq!(
        player_bus_names(&with_host),
        vec!["org.mpris.MediaPlayer2.spotify", "org.mpris.MediaPlayer2.telemax"]
    );
    let mut with_kde = names.clone();
    with_kde.insert(0, "org.mpris.MediaPlayer2.plasma-browser-integration".to_string());
    assert_eq!(
        player_bus_names(&with_kde),
        vec![
            "org.mpris.MediaPlayer2.plasma-browser-integration",
            "org.mpris.MediaPlayer2.spotify"
        ]
    );
    assert!(player_bus_names(&vec![]).is_empty());
}

#[test]
fn display_names() {
    let bus = "org.mpris.MediaPlayer2.zen";
    assert_eq!(
        player_display_name(bus, Some("House | Disney+".into()), Some("Zen".into())),
        "House | Disney+ — Zen"
    );
    assert_eq!(player_display_name(bus, Some("T".into()), None), "T");
    assert_eq!(player_display_name(bus, Some("".into()), Some("Spotify".into())), "Spotify");
    assert_eq!(player_display_name(bus, None, None), "zen");
    assert_eq!(player_display_name(":1.5", Some(String::new()), None), ":1.5");
}

#[test]
fn repeat_cycles() {
    assert_eq!(next_loop_status("None"), "Track");
    assert_eq!(next_loop_status("Track"), "Playlist");
    assert_eq!(next_loop_status("Playlist"), "None");
    assert_eq!(next_loop_status("weird"), "None");
    for start in ["None", "Track", "Playlist"] {
        assert_eq!(next_loop_status(next_loop_status(next_loop_status(start))), start);
    }
}

#[test]
fn art_files() {
    let m = meta(vec![("mpris:artUrl", s("file:///home/u/cover.jpg"))]);
    assert_eq!(art_file_path(&m), Some("/home/u/cover.jpg".to_string()));
    let m = meta(vec![("mpris:artUrl", s("https://example.org/a.jpg"))]);
    assert_eq!(art_file_path(&m), None);
    assert_eq!(art_file_path(&meta(vec![])), None);
}

#[test]
fn seeking() {
    let m = meta(vec![("mpris:trackid", s("/org/mpris/track/7"))]);
    assert_eq!(seek_target(&m, 1500), Ok(("/org/mpris/track/7".to_string(), 1_500_000)));
    assert_eq!(
        seek_target(&meta(vec![]), -2),
        Ok(("/org/mpris/MediaPlayer2/TrackList/NoTrack".to_string(), -2000))
    );
}

#[test]
fn seeking_needs_an_object_path() {
    let err = Err("Invalid track path: Invalid object path".to_string());
    for bad in ["", "track", "/a/", "//", "/a//b", "/a-b", "/é"] {
        let m = meta(vec![("mpris:trackid", s(bad))]);
        assert_eq!(seek_target(&m, 10), err, "{bad}");
    }
    for good in ["/", "/a", "/A_1/b2", "/org/mpris/MediaPlayer2/Track/3"] {
        let m = meta(vec![("mpris:trackid", s(good))]);
        assert_eq!(seek_target(&m, 10), Ok((good.to_string(), 10_000)), "{good}");
    }
}

#[test]
fn player_selection() {
    assert_eq!(selected_player(&Some("p".into())), Ok("p".to_string()));
    assert_eq!(selected_player(&None), Err("No player selected".to_string()));
    let players = vec![
        PlayerInfo { id: "a".into(), name: "A".into() },
        PlayerInfo { id: "b".into(), name: "B".into() },
    ];
    assert_eq!(auto_select(&None, &players), Some("a".to_string()));
    assert_eq!(auto_select(&Some("b".into()), &players), Some("b".to_string()));
    assert_eq!(auto_select(&None, &vec![]), None);
}
