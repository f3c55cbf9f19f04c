use telemax::audio::{band_bin_ranges, window_starts, FFT_SIZE, NUM_BANDS, SAMPLES_PER_FRAME, SAMPLE_RATE};
use telemax::error::ApiError;
use telemax::niri::{
    check_first_reply, check_stream_reply, is_action_allowed, reply_of_line, StreamReply,
};
use telemax::text::trim_str;
use telemax::settings::{default_visible_actions, Theme};
use telemax::ws::MediaPush;

#[test]
fn api_errors() {
    let e = ApiError::new("CODE", "msg");
    assert_eq!((e.error.code.as_str(), e.error.message.as_str()), ("CODE", "msg"));
    let (st, e) = ApiError::bad_request("bad");
    assert_eq!((st, e.error.code.as_str(), e.error.message.as_str()), (400, "BAD_REQUEST", "bad"));
    let (st, e) = ApiError::not_found("gone");
    assert_eq!((st, e.error.code.as_str(), e.error.message.as_str()), (404, "NOT_FOUND", "gone"));
    let (st, e) = ApiError::unavailable("NO_MEDIA", "none");
    assert_eq!((st, e.error.code.as_str(), e.error.message.as_str()), (503, "NO_MEDIA", "none"));
}

#[test]
fn settings_defaults() {
    assert_eq!(Theme::default(), Theme::Dark);
    assert_eq!(
        default_visible_actions(),
        vec![
            "close-window",
            "fullscreen-window",
            "maximize-column",
            "screenshot",
            "power-off-monitors",
            "power-on-monitors"
        ]
    );
}

#[test]
fn niri_actions() {
    assert!(is_action_allowed("focus-window"));
    assert!(is_action_allowed("spawn"));
    assert!(is_action_allowed("switch-preset-column-width"));
    assert!(!is_action_allowed("quit"));
    assert!(!is_action_allowed(""));
    assert!(!is_action_allowed("Spawn"));
    for a in default_visible_actions() {
        assert!(is_action_allowed(&a));
    }
}

#[test]
fn event_stream_replies() {
    assert_eq!(check_stream_reply(StreamReply::Handled), Ok(()));
    assert_eq!(
        check_stream_reply(StreamReply::Unexpected("Windows([])".into())),
        Err("unexpected initial EventStream response: Windows([])".to_string())
    );
    assert_eq!(
        check_stream_reply(StreamReply::Failed("boom".into())),
        Err("niri returned error for EventStream: boom".to_string())
    );
}

#[test]
fn media_push() {
    let mut p = MediaPush::new();
    assert!(p.poll("a"));
    assert!(!p.poll("a"));
    assert!(!p.poll("a"));
    assert!(p.poll("a")); // fourth poll: position due
    assert!(p.poll("b"));
    assert_eq!(p.last_sent.as_deref(), Some("b"));
    let mut pushes = 0;
    for _ in 0..1000 {
        if p.poll("b") {
            pushes += 1;
        }
    }
    assert_eq!(pushes, 250);
}

#[test]
fn media_push_wraps_tick() {
    let mut p = MediaPush { last_sent: Some("x".into()), position_tick: 255 };
    assert!(p.poll("x"));
    assert_eq!(p.position_tick, 0);
}

#[test]
fn band_ranges_match_float_formula() {
    let edges: [f32; 10] =
        [30.0, 60.0, 150.0, 400.0, 1000.0, 2500.0, 6000.0, 12000.0, 16000.0, 20000.0];
    let bin_freq = SAMPLE_RATE as f32 / FFT_SIZE as f32;
    let r = band_bin_ranges();
    assert_eq!(r.len(), NUM_BANDS);
    for b in 0..NUM_BANDS {
        let low = (edges[b] / bin_freq).ceil() as usize;
        let high = ((edges[b + 1] / bin_freq).ceil() as usize).min(FFT_SIZE / 2);
        assert_eq!(r[b], (low, high));
    }
    assert_eq!(r[0], (2, 3));
    assert_eq!(r[8], (683, 854));
}

#[test]
fn analysis_windows() {
    assert_eq!(SAMPLES_PER_FRAME, (SAMPLE_RATE as f64 * 0.033) as usize);
    assert!(window_starts(0).is_empty());
    assert!(window_starts(2047).is_empty());
    assert_eq!(window_starts(2048), vec![0]);
    assert_eq!(window_starts(2048 + 1583), vec![0]);
    assert_eq!(window_starts(2048 + 1584), vec![0, 1584]);
    // The draining loop: one frame goes while a full window is buffered.
    for n in [0usize, 3000, 5000, 10_000, 100_000] {
        let mut left = n;
        let mut count = 0;
        while left >= FFT_SIZE {
            count += 1;
            left -= SAMPLES_PER_FRAME.min(left);
        }
        assert_eq!(window_starts(n).len(), count);
    }
}

#[test]
fn first_reply_on_an_event_stream() {
    assert_eq!(check_first_reply("{\"Ok\":\"Handled\"}\n"), Ok(()));
    assert_eq!(
        check_first_reply("{\"Err\":\"boom\"}"),
        Err("niri returned error for EventStream: boom".to_string())
    );
    let e = check_first_reply("{\"Ok\":{\"Version\":\"25.1\"}}").unwrap_err();
    assert!(e.starts_with("unexpected initial EventStream response: "), "{e}");
    assert!(e.contains("25.1"), "{e}");
    let e = check_first_reply("garbage").unwrap_err();
    assert!(e.starts_with("failed to parse initial EventStream response: "), "{e}");
    assert!(e.len() > "failed to parse initial EventStream response: ".len());
}

#[test]
fn push_rule_over_a_run_of_polls() {
    let states = ["a", "a", "a", "a", "a", "b", "b", "a", "a", "a", "a", "a"];
    let mut p = MediaPush::new();
    let sent: Vec<bool> = states.iter().map(|s| p.poll(s)).collect();
    let expected: Vec<bool> = (0..states.len())
        .map(|k| k == 0 || (k + 1) % 4 == 0 || states[k] != states[k - 1])
        .collect();
    assert_eq!(sent, expected);
    assert_eq!(p.position_tick as usize, states.len() % 256);
    assert_eq!(p.last_sent.as_deref(), Some("a"));
}

#[test]
fn replies_to_requests() {
    match reply_of_line("{\"Ok\":{\"Version\":\"25.1\"}}\n") {
        Ok(niri_ipc::Response::Version(v)) => assert_eq!(v, "25.1"),
        other => panic!("{other:?}"),
    }
    assert!(matches!(reply_of_line("{\"Ok\":\"Handled\"}"), Ok(niri_ipc::Response::Handled)));
    assert_eq!(reply_of_line("{\"Err\":\"no such window\"}").unwrap_err(), "no such window");
    let e = reply_of_line("").unwrap_err();
    assert!(e.starts_with("failed to parse response: "), "{e}");
    assert!(e.len() > "failed to parse response: ".len());
}

#[test]
fn trimming_uses_unicode_white_space() {
    assert_eq!(trim_str("\u{3000}\t code\u{a0}\u{2029}\n"), "code");
    assert_eq!(trim_str("\u{200b}x"), "\u{200b}x");
    for c in (0u32..0x3100).filter_map(char::from_u32) {
        let s = c.to_string();
        assert_eq!(trim_str(&s).is_empty(), c.is_whitespace(), "{:#x}", c as u32);
    }
}
