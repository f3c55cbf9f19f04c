use input_linux::Key;
use telemax::keymap::{
    char_to_key_shifted, js_key_to_linux, mouse_button_code, BTN_LEFT, BTN_MIDDLE, BTN_RIGHT,
    KEY_0, KEY_1, KEY_A, KEY_APOSTROPHE, KEY_BACKSPACE, KEY_DOT, KEY_ENTER, KEY_EQUAL, KEY_ESC,
    KEY_F1, KEY_F10, KEY_F11, KEY_F12, KEY_LEFTALT, KEY_LEFTCTRL, KEY_LEFTMETA, KEY_LEFTSHIFT,
    KEY_MINUS, KEY_SLASH, KEY_SPACE, KEY_TAB, KEY_UP, KEY_Z,
};

#[test]
fn key_codes_match_input_linux() {
    let pairs = [
        (KEY_ESC, Key::Esc),
        (KEY_1, Key::Num1),
        (KEY_0, Key::Num0),
        (KEY_MINUS, Key::Minus),
        (KEY_EQUAL, Key::Equal),
        (KEY_BACKSPACE, Key::Backspace),
        (KEY_TAB, Key::Tab),
        (KEY_ENTER, Key::Enter),
        (KEY_LEFTCTRL, Key::LeftCtrl),
        (KEY_A, Key::A),
        (KEY_Z, Key::Z),
        (KEY_APOSTROPHE, Key::Apostrophe),
        (KEY_LEFTSHIFT, Key::LeftShift),
        (KEY_DOT, Key::Dot),
        (KEY_SLASH, Key::Slash),
        (KEY_LEFTALT, Key::LeftAlt),
        (KEY_SPACE, Key::Space),
        (KEY_F1, Key::F1),
        (KEY_F10, Key::F10),
        (KEY_F11, Key::F11),
        (KEY_F12, Key::F12),
        (KEY_UP, Key::Up),
        (KEY_LEFTMETA, Key::LeftMeta),
        (BTN_LEFT, Key::ButtonLeft),
        (BTN_RIGHT, Key::ButtonRight),
        (BTN_MIDDLE, Key::ButtonMiddle),
    ];
    for (code, key) in pairs {
        assert_eq!(Key::from_code(code).unwrap(), key);
    }
}

#[test]
fn every_mapped_key_is_a_linux_key() {
    for c in (0u32..0x80).filter_map(char::from_u32) {
        if let Some((code, _)) = char_to_key_shifted(c) {
            assert!(Key::from_code(code).is_ok());
        }
    }
}

#[test]
fn letters_ignore_case_for_key_names() {
    for (lower, upper) in ('a'..='z').zip('A'..='Z') {
        let l = js_key_to_linux(&lower.to_string());
        let u = js_key_to_linux(&upper.to_string());
        assert!(l.is_some());
        assert_eq!(l, u);
    }
    assert_eq!(js_key_to_linux("a"), Some(Key::A.code()));
    assert_eq!(js_key_to_linux("Q"), Some(Key::Q.code()));
}

#[test]
fn named_keys() {
    assert_eq!(js_key_to_linux("ArrowUp"), Some(Key::Up.code()));
    assert_eq!(js_key_to_linux("ArrowLeft"), Some(Key::Left.code()));
    assert_eq!(js_key_to_linux("Enter"), Some(Key::Enter.code()));
    assert_eq!(js_key_to_linux("Return"), Some(Key::Enter.code()));
    assert_eq!(js_key_to_linux("Escape"), Some(Key::Esc.code()));
    assert_eq!(js_key_to_linux("BackSpace"), Some(Key::Backspace.code()));
    assert_eq!(js_key_to_linux(" "), Some(Key::Space.code()));
    assert_eq!(js_key_to_linux("space"), Some(Key::Space.code()));
    assert_eq!(js_key_to_linux("Space"), Some(Key::Space.code()));
    assert_eq!(js_key_to_linux("F12"), Some(Key::F12.code()));
    assert_eq!(js_key_to_linux("PageDown"), Some(Key::PageDown.code()));
    assert_eq!(js_key_to_linux("Meta"), Some(Key::LeftMeta.code()));
    assert_eq!(js_key_to_linux("\\"), Some(Key::Backslash.code()));
    assert_eq!(js_key_to_linux("`"), Some(Key::Grave.code()));
    assert_eq!(js_key_to_linux("7"), Some(Key::Num7.code()));
}

#[test]
fn unknown_key_names() {
    assert_eq!(js_key_to_linux("Unidentified"), None);
    assert_eq!(js_key_to_linux(""), None);
    assert_eq!(js_key_to_linux("!"), None);
    assert_eq!(js_key_to_linux("arrowup"), None);
    assert_eq!(js_key_to_linux("F13"), None);
    assert_eq!(js_key_to_linux("é"), None);
}

#[test]
fn typed_characters() {
    assert_eq!(char_to_key_shifted('a'), Some((Key::A.code(), false)));
    assert_eq!(char_to_key_shifted('A'), Some((Key::A.code(), true)));
    assert_eq!(char_to_key_shifted('m'), Some((Key::M.code(), false)));
    assert_eq!(char_to_key_shifted('0'), Some((Key::Num0.code(), false)));
    assert_eq!(char_to_key_shifted('!'), Some((Key::Num1.code(), true)));
    assert_eq!(char_to_key_shifted(')'), Some((Key::Num0.code(), true)));
    assert_eq!(char_to_key_shifted('"'), Some((Key::Apostrophe.code(), true)));
    assert_eq!(char_to_key_shifted('?'), Some((Key::Slash.code(), true)));
    assert_eq!(char_to_key_shifted('\n'), Some((Key::Enter.code(), false)));
    assert_eq!(char_to_key_shifted('\t'), Some((Key::Tab.code(), false)));
    assert_eq!(char_to_key_shifted(' '), Some((Key::Space.code(), false)));
    assert_eq!(char_to_key_shifted('é'), None);
    assert_eq!(char_to_key_shifted('\r'), None);
}

#[test]
fn typing_agrees_with_key_names() {
    for c in (0u32..0x80).filter_map(char::from_u32) {
        if c == '\n' || c == '\t' {
            continue;
        }
        if let Some((k, false)) = char_to_key_shifted(c) {
            assert_eq!(js_key_to_linux(&c.to_string()), Some(k));
        }
    }
}

#[test]
fn shifted_characters_share_plain_keys() {
    let all: Vec<char> = (0u32..0x80).filter_map(char::from_u32).collect();
    for &c in &all {
        if let Some((k, true)) = char_to_key_shifted(c) {
            assert!(all.iter().any(|&d| char_to_key_shifted(d) == Some((k, false))));
        }
    }
}

#[test]
fn mouse_buttons() {
    assert_eq!(mouse_button_code("left"), Some(Key::ButtonLeft.code()));
    assert_eq!(mouse_button_code("right"), Some(Key::ButtonRight.code()));
    assert_eq!(mouse_button_code("middle"), Some(Key::ButtonMiddle.code()));
    assert_eq!(mouse_button_code("Left"), None);
    assert_eq!(mouse_button_code("back"), None);
}

#[test]
fn no_two_characters_share_a_keystroke() {
    let typed: Vec<(char, (u16, bool))> = (0u32..0x250)
        .filter_map(char::from_u32)
        .filter_map(|c| char_to_key_shifted(c).map(|k| (c, k)))
        .collect();
    assert_eq!(typed.len(), 26 * 2 + 22 + 2 + 21);
    for (i, (c1, k1)) in typed.iter().enumerate() {
        for (c2, k2) in &typed[i + 1..] {
            assert_ne!(k1, k2, "{c1:?} and {c2:?}");
        }
    }
}
