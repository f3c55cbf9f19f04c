use telemax::input::{
    key_press_actions, key_release_actions, mouse_button_action, pointer_motion, scroll_motion,
    type_text_actions, Axis, KeyAction, Motion,
};
use telemax::keymap::{BTN_LEFT, BTN_RIGHT, KEY_1, KEY_A, KEY_B, KEY_ENTER, KEY_LEFTCTRL, KEY_LEFTSHIFT};
use KeyAction::{Press, Release};

fn balanced(actions: &[KeyAction]) -> bool {
    let mut held = std::collections::HashMap::new();
    for a in actions {
        match a {
            Press(k) => *held.entry(*k).or_insert(0i32) += 1,
            Release(k) => {
                let h = held.entry(*k).or_insert(0i32);
                *h -= 1;
                if *h < 0 {
                    return false;
                }
            }
        }
    }
    held.values().all(|&h| h == 0)
}

#[test]
fn typing_text() {
    assert_eq!(
        type_text_actions("aB!\n"),
        vec![
            Press(KEY_A),
            Release(KEY_A),
            Press(KEY_LEFTSHIFT),
            Press(KEY_B),
            Release(KEY_B),
            Release(KEY_LEFTSHIFT),
            Press(KEY_LEFTSHIFT),
            Press(KEY_1),
            Release(KEY_1),
            Release(KEY_LEFTSHIFT),
            Press(KEY_ENTER),
            Release(KEY_ENTER),
        ]
    );
}

#[test]
fn unsupported_characters_are_skipped() {
    assert_eq!(type_text_actions("é"), vec![]);
    assert_eq!(type_text_actions("aé"), vec![Press(KEY_A), Release(KEY_A)]);
    assert_eq!(type_text_actions(""), vec![]);
}

#[test]
fn typing_is_balanced() {
    for text in ["Hello, World!", "a\tb\nc", "~!@#$%^&*()_+{}|:\"<>?", "日本 text"] {
        assert!(balanced(&type_text_actions(text)));
    }
}

#[test]
fn key_press_with_modifiers() {
    let mods = vec!["Control".to_string(), "Bogus".to_string()];
    assert_eq!(key_press_actions("a", &mods), vec![Press(KEY_LEFTCTRL), Press(KEY_A)]);
    assert_eq!(key_press_actions("A", &vec![]), vec![Press(KEY_LEFTSHIFT), Press(KEY_A)]);
    assert_eq!(key_press_actions("Enter", &vec![]), vec![Press(KEY_ENTER)]);
    assert_eq!(key_press_actions("é", &vec![]), vec![]);
    assert_eq!(key_press_actions("Nope", &mods), vec![Press(KEY_LEFTCTRL)]);
}

#[test]
fn key_release() {
    assert_eq!(key_release_actions("A"), vec![Release(KEY_A), Release(KEY_LEFTSHIFT)]);
    assert_eq!(key_release_actions("a"), vec![Release(KEY_A)]);
    assert_eq!(key_release_actions("Enter"), vec![Release(KEY_ENTER)]);
    assert_eq!(key_release_actions("Nope"), vec![]);
}

#[test]
fn press_then_release_is_balanced() {
    for key in ["a", "A", "?", "Enter", "Shift", "F5", "Nope", "é"] {
        let mut all = key_press_actions(key, &vec![]);
        all.extend(key_release_actions(key));
        assert!(balanced(&all), "{key}");
    }
}

#[test]
fn mouse_button_messages() {
    assert_eq!(mouse_button_action("left", "press"), Some(Press(BTN_LEFT)));
    assert_eq!(mouse_button_action("right", "release"), Some(Release(BTN_RIGHT)));
    assert_eq!(mouse_button_action("right", "anything"), Some(Release(BTN_RIGHT)));
    assert_eq!(mouse_button_action("up", "press"), None);
}

#[test]
fn pointer_and_scroll() {
    assert_eq!(pointer_motion(0, 0), vec![]);
    assert_eq!(
        pointer_motion(3, -2),
        vec![Motion { axis: Axis::X, value: 3 }, Motion { axis: Axis::Y, value: -2 }]
    );
    assert_eq!(pointer_motion(0, 5), vec![Motion { axis: Axis::Y, value: 5 }]);
    assert_eq!(
        scroll_motion(2, 3),
        vec![
            Motion { axis: Axis::Wheel, value: -3 },
            Motion { axis: Axis::HorizontalWheel, value: 2 }
        ]
    );
    assert_eq!(scroll_motion(0, -1), vec![Motion { axis: Axis::Wheel, value: 1 }]);
    assert_eq!(scroll_motion(0, 0), vec![]);
}
