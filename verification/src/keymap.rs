//! Keyboard mapping: browser key names and typed characters to Linux input
//! key codes, for a US keyboard layout.
use vstd::prelude::*;
use crate::text::chars_of;

verus! {

// Linux input-event codes of the keys and buttons this crate sends.
pub const KEY_ESC: u16 = 1;
pub const KEY_1: u16 = 2;
pub const KEY_2: u16 = 3;
pub const KEY_3: u16 = 4;
pub const KEY_4: u16 = 5;
pub const KEY_5: u16 = 6;
pub const KEY_6: u16 = 7;
pub const KEY_7: u16 = 8;
pub const KEY_8: u16 = 9;
pub const KEY_9: u16 = 10;
pub const KEY_0: u16 = 11;
pub const KEY_MINUS: u16 = 12;
pub const KEY_EQUAL: u16 = 13;
pub const KEY_BACKSPACE: u16 = 14;
pub const KEY_TAB: u16 = 15;
pub const KEY_Q: u16 = 16;
pub const KEY_W: u16 = 17;
pub const KEY_E: u16 = 18;
pub const KEY_R: u16 = 19;
pub const KEY_T: u16 = 20;
pub const KEY_Y: u16 = 21;
pub const KEY_U: u16 = 22;
pub const KEY_I: u16 = 23;
pub const KEY_O: u16 = 24;
pub const KEY_P: u16 = 25;
pub const KEY_LEFTBRACE: u16 = 26;
pub const KEY_RIGHTBRACE: u16 = 27;
pub const KEY_ENTER: u16 = 28;
pub const KEY_LEFTCTRL: u16 = 29;
pub const KEY_A: u16 = 30;
pub const KEY_S: u16 = 31;
pub const KEY_D: u16 = 32;
pub const KEY_F: u16 = 33;
pub const KEY_G: u16 = 34;
pub const KEY_H: u16 = 35;
pub const KEY_J: u16 = 36;
pub const KEY_K: u16 = 37;
pub const KEY_L: u16 = 38;
pub const KEY_SEMICOLON: u16 = 39;
pub const KEY_APOSTROPHE: u16 = 40;
pub const KEY_GRAVE: u16 = 41;
pub const KEY_LEFTSHIFT: u16 = 42;
pub const KEY_BACKSLASH: u16 = 43;
pub const KEY_Z: u16 = 44;
pub const KEY_X: u16 = 45;
pub const KEY_C: u16 = 46;
pub const KEY_V: u16 = 47;
pub const KEY_B: u16 = 48;
pub const KEY_N: u16 = 49;
pub const KEY_M: u16 = 50;
pub const KEY_COMMA: u16 = 51;
pub const KEY_DOT: u16 = 52;
pub const KEY_SLASH: u16 = 53;
pub const KEY_LEFTALT: u16 = 56;
pub const KEY_SPACE: u16 = 57;
pub const KEY_F1: u16 = 59;
pub const KEY_F2: u16 = 60;
pub const KEY_F3: u16 = 61;
pub const KEY_F4: u16 = 62;
pub const KEY_F5: u16 = 63;
pub const KEY_F6: u16 = 64;
pub const KEY_F7: u16 = 65;
pub const KEY_F8: u16 = 66;
pub const KEY_F9: u16 = 67;
pub const KEY_F10: u16 = 68;
pub const KEY_F11: u16 = 87;
pub const KEY_F12: u16 = 88;
pub const KEY_HOME: u16 = 102;
pub const KEY_UP: u16 = 103;
pub const KEY_PAGEUP: u16 = 104;
pub const KEY_LEFT: u16 = 105;
pub const KEY_RIGHT: u16 = 106;
pub const KEY_END: u16 = 107;
pub const KEY_DOWN: u16 = 108;
pub const KEY_PAGEDOWN: u16 = 109;
pub const KEY_INSERT: u16 = 110;
pub const KEY_DELETE: u16 = 111;
pub const KEY_LEFTMETA: u16 = 125;
pub const BTN_LEFT: u16 = 272;
pub const BTN_RIGHT: u16 = 273;
pub const BTN_MIDDLE: u16 = 274;

// ---------------------------------------------------------------------------
// The tables
// ---------------------------------------------------------------------------

/// The keys of the letters a to z, in alphabetical order.
pub open spec fn letter_keys() -> Seq<u16> {
    seq![
        KEY_A, KEY_B, KEY_C, KEY_D, KEY_E, KEY_F, KEY_G, KEY_H, KEY_I, KEY_J, KEY_K, KEY_L, KEY_M,
        KEY_N, KEY_O, KEY_P, KEY_Q, KEY_R, KEY_S, KEY_T, KEY_U, KEY_V, KEY_W, KEY_X, KEY_Y, KEY_Z,
    ]
}

/// The characters typed without shift that are neither letters nor
/// control characters, each with its key; each is also the name a browser
/// gives that key.
pub open spec fn plain_symbols() -> Seq<(char, u16)> {
    seq![
        ('0', KEY_0), ('1', KEY_1), ('2', KEY_2), ('3', KEY_3), ('4', KEY_4), ('5', KEY_5),
        ('6', KEY_6), ('7', KEY_7), ('8', KEY_8), ('9', KEY_9), ('-', KEY_MINUS), ('=', KEY_EQUAL),
        ('[', KEY_LEFTBRACE), (']', KEY_RIGHTBRACE), ('\\', KEY_BACKSLASH), (';', KEY_SEMICOLON),
        ('\'', KEY_APOSTROPHE), ('`', KEY_GRAVE), (',', KEY_COMMA), ('.', KEY_DOT),
        ('/', KEY_SLASH), (' ', KEY_SPACE),
    ]
}

/// The control characters that can be typed, each with its key.
pub open spec fn control_chars() -> Seq<(char, u16)> {
    seq![('\n', KEY_ENTER), ('\t', KEY_TAB)]
}

/// The symbols typed with shift on a US layout, each with its key.
pub open spec fn shifted_symbols() -> Seq<(char, u16)> {
    seq![
        ('!', KEY_1), ('@', KEY_2), ('#', KEY_3), ('$', KEY_4), ('%', KEY_5), ('^', KEY_6),
        ('&', KEY_7), ('*', KEY_8), ('(', KEY_9), (')', KEY_0), ('_', KEY_MINUS), ('+', KEY_EQUAL),
        ('{', KEY_LEFTBRACE), ('}', KEY_RIGHTBRACE), ('|', KEY_BACKSLASH), (':', KEY_SEMICOLON),
        ('"', KEY_APOSTROPHE), ('~', KEY_GRAVE), ('<', KEY_COMMA), ('>', KEY_DOT), ('?', KEY_SLASH),
    ]
}

/// Browser key names of more than one character, each with its key.
pub open spec fn named_keys() -> Seq<(Seq<char>, u16)> {
    seq![
        ("F1"@, KEY_F1), ("F2"@, KEY_F2), ("F3"@, KEY_F3), ("F4"@, KEY_F4), ("F5"@, KEY_F5),
        ("F6"@, KEY_F6), ("F7"@, KEY_F7), ("F8"@, KEY_F8), ("F9"@, KEY_F9), ("F10"@, KEY_F10),
        ("F11"@, KEY_F11), ("F12"@, KEY_F12), ("ArrowUp"@, KEY_UP), ("ArrowDown"@, KEY_DOWN),
        ("ArrowLeft"@, KEY_LEFT), ("ArrowRight"@, KEY_RIGHT), ("Enter"@, KEY_ENTER),
        ("Return"@, KEY_ENTER), ("Escape"@, KEY_ESC), ("Backspace"@, KEY_BACKSPACE),
        ("BackSpace"@, KEY_BACKSPACE), ("Tab"@, KEY_TAB), ("space"@, KEY_SPACE),
        ("Space"@, KEY_SPACE), ("Home"@, KEY_HOME), ("End"@, KEY_END), ("PageUp"@, KEY_PAGEUP),
        ("PageDown"@, KEY_PAGEDOWN), ("Insert"@, KEY_INSERT), ("Delete"@, KEY_DELETE),
        ("Control"@, KEY_LEFTCTRL), ("Shift"@, KEY_LEFTSHIFT), ("Alt"@, KEY_LEFTALT),
        ("Meta"@, KEY_LEFTMETA),
    ]
}

/// The key of the first entry of `t` for `c`.
pub open spec fn lookup_char(t: Seq<(char, u16)>, c: char) -> Option<u16>
    decreases t.len(),
{
    if t.len() == 0 {
        None
    } else if t[0].0 == c {
        Some(t[0].1)
    } else {
        lookup_char(t.drop_first(), c)
    }
}

/// The key of the first entry of `t` named `name`.
pub open spec fn lookup_name(t: Seq<(Seq<char>, u16)>, name: Seq<char>) -> Option<u16>
    decreases t.len(),
{
    if t.len() == 0 {
        None
    } else if t[0].0 == name {
        Some(t[0].1)
    } else {
        lookup_name(t.drop_first(), name)
    }
}

/// The views of a table of names.
pub open spec fn names_view(t: Seq<(&str, u16)>) -> Seq<(Seq<char>, u16)> {
    t.map_values(|e: (&str, u16)| (e.0@, e.1))
}

/// A lower-case letter of the Latin alphabet.
pub open spec fn is_lower(c: char) -> bool {
    'a' <= c && c <= 'z'
}

/// An upper-case letter of the Latin alphabet.
pub open spec fn is_upper(c: char) -> bool {
    'A' <= c && c <= 'Z'
}

/// The key that types the character `c` on a US layout, and whether shift
/// must be held for it.
pub open spec fn char_key(c: char) -> Option<(u16, bool)> {
    if is_lower(c) {
        Some((letter_keys()[c as int - 'a' as int], false))
    } else if is_upper(c) {
        Some((letter_keys()[c as int - 'A' as int], true))
    } else {
        match lookup_char(plain_symbols(), c) {
            Some(k) => Some((k, false)),
            None => match lookup_char(control_chars(), c) {
                Some(k) => Some((k, false)),
                None => match lookup_char(shifted_symbols(), c) {
                    Some(k) => Some((k, true)),
                    None => None,
                },
            },
        }
    }
}

/// The key a browser `KeyboardEvent.key` name stands for: a single letter
/// in either case, a single unshifted symbol, or one of the named keys.
pub open spec fn js_key(name: Seq<char>) -> Option<u16> {
    if name.len() == 1 {
        let c = name[0];
        if is_lower(c) {
            Some(letter_keys()[c as int - 'a' as int])
        } else if is_upper(c) {
            Some(letter_keys()[c as int - 'A' as int])
        } else {
            lookup_char(plain_symbols(), c)
        }
    } else {
        lookup_name(named_keys(), name)
    }
}

// ---------------------------------------------------------------------------
// The executable tables
// ---------------------------------------------------------------------------

fn letter_key_table() -> (t: Vec<u16>)
    ensures
        t@ == letter_keys(),
{
    let t = vec![
        KEY_A, KEY_B, KEY_C, KEY_D, KEY_E, KEY_F, KEY_G, KEY_H, KEY_I, KEY_J, KEY_K, KEY_L, KEY_M,
        KEY_N, KEY_O, KEY_P, KEY_Q, KEY_R, KEY_S, KEY_T, KEY_U, KEY_V, KEY_W, KEY_X, KEY_Y, KEY_Z,
    ];
    assert(t@ =~= letter_keys());
    t
}

fn plain_symbol_table() -> (t: Vec<(char, u16)>)
    ensures
        t@ == plain_symbols(),
{
    let t = vec![
        ('0', KEY_0), ('1', KEY_1), ('2', KEY_2), ('3', KEY_3), ('4', KEY_4), ('5', KEY_5),
        ('6', KEY_6), ('7', KEY_7), ('8', KEY_8), ('9', KEY_9), ('-', KEY_MINUS), ('=', KEY_EQUAL),
        ('[', KEY_LEFTBRACE), (']', KEY_RIGHTBRACE), ('\\', KEY_BACKSLASH), (';', KEY_SEMICOLON),
        ('\'', KEY_APOSTROPHE), ('`', KEY_GRAVE), (',', KEY_COMMA), ('.', KEY_DOT),
        ('/', KEY_SLASH), (' ', KEY_SPACE),
    ];
    assert(t@ =~= plain_symbols());
    t
}

fn control_char_table() -> (t: Vec<(char, u16)>)
    ensures
        t@ == control_chars(),
{
    let t = vec![('\n', KEY_ENTER), ('\t', KEY_TAB)];
    assert(t@ =~= control_chars());
    t
}

fn shifted_symbol_table() -> (t: Vec<(char, u16)>)
    ensures
        t@ == shifted_symbols(),
{
    let t = vec![
        ('!', KEY_1), ('@', KEY_2), ('#', KEY_3), ('$', KEY_4), ('%', KEY_5), ('^', KEY_6),
        ('&', KEY_7), ('*', KEY_8), ('(', KEY_9), (')', KEY_0), ('_', KEY_MINUS), ('+', KEY_EQUAL),
        ('{', KEY_LEFTBRACE), ('}', KEY_RIGHTBRACE), ('|', KEY_BACKSLASH), (':', KEY_SEMICOLON),
        ('"', KEY_APOSTROPHE), ('~', KEY_GRAVE), ('<', KEY_COMMA), ('>', KEY_DOT), ('?', KEY_SLASH),
    ];
    assert(t@ =~= shifted_symbols());
    t
}

fn named_key_table() -> (t: Vec<(&'static str, u16)>)
    ensures
        names_view(t@) == named_keys(),
{
    let t = vec![
        ("F1", KEY_F1), ("F2", KEY_F2), ("F3", KEY_F3), ("F4", KEY_F4), ("F5", KEY_F5),
        ("F6", KEY_F6), ("F7", KEY_F7), ("F8", KEY_F8), ("F9", KEY_F9), ("F10", KEY_F10),
        ("F11", KEY_F11), ("F12", KEY_F12), ("ArrowUp", KEY_UP), ("ArrowDown", KEY_DOWN),
        ("ArrowLeft", KEY_LEFT), ("ArrowRight", KEY_RIGHT), ("Enter", KEY_ENTER),
        ("Return", KEY_ENTER), ("Escape", KEY_ESC), ("Backspace", KEY_BACKSPACE),
        ("BackSpace", KEY_BACKSPACE), ("Tab", KEY_TAB), ("space", KEY_SPACE),
        ("Space", KEY_SPACE), ("Home", KEY_HOME), ("End", KEY_END), ("PageUp", KEY_PAGEUP),
        ("PageDown", KEY_PAGEDOWN), ("Insert", KEY_INSERT), ("Delete", KEY_DELETE),
        ("Control", KEY_LEFTCTRL), ("Shift", KEY_LEFTSHIFT), ("Alt", KEY_LEFTALT),
        ("Meta", KEY_LEFTMETA),
    ];
    assert(names_view(t@) =~= named_keys());
    t
}

/// The key of the first entry of `t` for `c`.
pub fn find_char_key(t: &Vec<(char, u16)>, c: char) -> (r: Option<u16>)
    ensures
        r == lookup_char(t@, c),
{
    let mut i: usize = 0;
    assert(t@.skip(0) =~= t@);
    while i < t.len()
        invariant
            i <= t.len(),
            lookup_char(t@, c) == lookup_char(t@.skip(i as int), c),
        decreases t.len() - i,
    {
        assert(t@.skip(i as int)[0] == t@[i as int]);
        if t[i].0 == c {
            return Some(t[i].1);
        }
        assert(t@.skip(i as int).drop_first() =~= t@.skip(i + 1));
        i = i + 1;
    }
    None
}

/// The key of the first entry of `t` named `name`.
pub fn find_named_key(t: &Vec<(&str, u16)>, name: &str) -> (r: Option<u16>)
    ensures
        r == lookup_name(names_view(t@), name@),
{
    let ghost tv = names_view(t@);
    let mut i: usize = 0;
    assert(tv.skip(0) =~= tv);
    while i < t.len()
        invariant
            i <= t.len(),
            tv == names_view(t@),
            lookup_name(tv, name@) == lookup_name(tv.skip(i as int), name@),
        decreases t.len() - i,
    {
        assert(tv.skip(i as int)[0] == tv[i as int]);
        if crate::text::str_eq(t[i].0, name) {
            return Some(t[i].1);
        }
        assert(tv.skip(i as int).drop_first() =~= tv.skip(i + 1));
        i = i + 1;
    }
    None
}

/// The position of a letter in the alphabet, when `c` is a letter of the
/// given case.
fn letter_index(c: char, upper: bool) -> (r: Option<usize>)
    ensures
        upper ==> r == (if is_upper(c) {
            Some((c as int - 'A' as int) as usize)
        } else {
            None::<usize>
        }),
        !upper ==> r == (if is_lower(c) {
            Some((c as int - 'a' as int) as usize)
        } else {
            None::<usize>
        }),
{
    let n = c as u32;
    if upper {
        if 65 <= n && n <= 90 {
            Some((n - 65) as usize)
        } else {
            None
        }
    } else {
        if 97 <= n && n <= 122 {
            Some((n - 97) as usize)
        } else {
            None
        }
    }
}

/// Maps a browser `KeyboardEvent.key` name to a Linux key code: letters
/// a-z in either case, digits, F1-F12, arrow keys, common navigation keys,
/// modifiers, punctuation and white-space keys.
pub fn js_key_to_linux(key: &str) -> (r: Option<u16>)
    ensures
        r == js_key(key@),
{
    let v = chars_of(key);
    if v.len() == 1 {
        let c = v[0];
        let letters = letter_key_table();
        match letter_index(c, false) {
            Some(i) => {
                return Some(letters[i]);
            },
            None => {},
        }
        match letter_index(c, true) {
            Some(i) => {
                return Some(letters[i]);
            },
            None => {},
        }
        let plain = plain_symbol_table();
        find_char_key(&plain, c)
    } else {
        let named = named_key_table();
        find_named_key(&named, key)
    }
}

/// The key that types `ch` on a US keyboard layout, and whether shift must
/// be held for it (upper-case letters and shifted symbols).
pub fn char_to_key_shifted(ch: char) -> (r: Option<(u16, bool)>)
    ensures
        r == char_key(ch),
{
    let letters = letter_key_table();
    match letter_index(ch, false) {
        Some(i) => {
            return Some((letters[i], false));
        },
        None => {},
    }
    match letter_index(ch, true) {
        Some(i) => {
            return Some((letters[i], true));
        },
        None => {},
    }
    let plain = plain_symbol_table();
    match find_char_key(&plain, ch) {
        Some(k) => {
            return Some((k, false));
        },
        None => {},
    }
    let control = control_char_table();
    match find_char_key(&control, ch) {
        Some(k) => {
            return Some((k, false));
        },
        None => {},
    }
    let shifted = shifted_symbol_table();
    match find_char_key(&shifted, ch) {
        Some(k) => Some((k, true)),
        None => None,
    }
}

/// The button of the mouse named `left`, `right` or `middle`.
pub open spec fn mouse_button_key(name: Seq<char>) -> Option<u16> {
    lookup_name(seq![("left"@, BTN_LEFT), ("right"@, BTN_RIGHT), ("middle"@, BTN_MIDDLE)], name)
}

/// Maps a mouse button name (`left`, `right` or `middle`) to its button
/// code.
pub fn mouse_button_code(button: &str) -> (r: Option<u16>)
    ensures
        r == mouse_button_key(button@),
{
    let t = vec![("left", BTN_LEFT), ("right", BTN_RIGHT), ("middle", BTN_MIDDLE)];
    assert(names_view(t@) =~= seq![("left"@, BTN_LEFT), ("right"@, BTN_RIGHT), ("middle"@, BTN_MIDDLE)]);
    find_named_key(&t, button)
}

// ---------------------------------------------------------------------------
// Laws of the mapping
// ---------------------------------------------------------------------------

/// The entry of `t` that `lookup_char` finds.
pub proof fn lemma_lookup_char_found(t: Seq<(char, u16)>, c: char)
    requires
        lookup_char(t, c) is Some,
    ensures
        exists|i: int|
            0 <= i < t.len() && t[i].0 == c && t[i].1 == lookup_char(t, c).unwrap() && forall|j: int|
                0 <= j < i ==> t[j].0 != c,
    decreases t.len(),
{
    if t[0].0 != c {
        lemma_lookup_char_found(t.drop_first(), c);
        let i = choose|i: int|
            0 <= i < t.drop_first().len() && t.drop_first()[i].0 == c && t.drop_first()[i].1
                == lookup_char(t.drop_first(), c).unwrap() && forall|j: int|
                0 <= j < i ==> t.drop_first()[j].0 != c;
        assert(t[i + 1] == t.drop_first()[i]);
        assert forall|j: int| 0 <= j < i + 1 implies t[j].0 != c by {
            if j > 0 {
                assert(t[j] == t.drop_first()[j - 1]);
            }
        }
    } else {
        assert(t[0].0 == c);
    }
}

/// `lookup_char` finds the first entry for a character.
pub proof fn lemma_lookup_char_at(t: Seq<(char, u16)>, i: int)
    requires
        0 <= i < t.len(),
        forall|j: int| 0 <= j < i ==> t[j].0 != t[i].0,
    ensures
        lookup_char(t, t[i].0) == Some(t[i].1),
    decreases i,
{
    if i > 0 {
        let u = t.drop_first();
        assert forall|j: int| 0 <= j < i - 1 implies #[trigger] u[j].0 != u[i - 1].0 by {
            assert(u[j] == t[j + 1]);
        }
        lemma_lookup_char_at(t.drop_first(), i - 1);
        assert(t.drop_first()[i - 1] == t[i]);
    }
}

/// The upper-case form of a lower-case letter.
pub open spec fn upper_of(c: char) -> char {
    (c as int - 32) as char
}

/// Letters name their key in either case.
pub proof fn law_key_names_ignore_case(c: char)
    requires
        is_lower(c),
    ensures
        js_key(seq![c]) == js_key(seq![upper_of(c)]),
        js_key(seq![c]) == Some(letter_keys()[c as int - 'a' as int]),
{
}

/// A lower-case letter is typed with its key alone, its upper-case form
/// with the same key and shift.
pub proof fn law_upper_case_needs_shift(c: char)
    requires
        is_lower(c),
    ensures
        char_key(c) == Some((letter_keys()[c as int - 'a' as int], false)),
        char_key(upper_of(c)) == Some((letter_keys()[c as int - 'a' as int], true)),
{
}

/// A character typed without shift, other than newline and tab, is typed
/// with the key that its one-character browser name stands for.
pub proof fn law_typing_agrees_with_key_names(c: char)
    requires
        char_key(c) matches Some((k, false)),
        c != '\n',
        c != '\t',
    ensures
        js_key(seq![c]) == Some(char_key(c).unwrap().0),
{
    if !is_lower(c) && !is_upper(c) && lookup_char(plain_symbols(), c) is None {
        if lookup_char(control_chars(), c) is Some {
            lemma_lookup_char_found(control_chars(), c);
            let i = choose|i: int|
                0 <= i < control_chars().len() && control_chars()[i].0 == c && control_chars()[i].1
                    == lookup_char(control_chars(), c).unwrap() && forall|j: int|
                    0 <= j < i ==> control_chars()[j].0 != c;
            assert(i == 0 || i == 1);
        }
    }
    assert(seq![c][0] == c);
}

/// Every character typed with shift is typed on a key that also types a
/// character without shift.
pub proof fn law_shift_shares_plain_keys(c: char)
    requires
        char_key(c) matches Some((k, true)),
    ensures
        exists|d: char| #[trigger] char_key(d) == Some((char_key(c).unwrap().0, false)),
{
    let k = char_key(c).unwrap().0;
    if is_upper(c) {
        let d = ((c as int) + 32) as char;
        assert(is_lower(d));
        assert(char_key(d) == Some((k, false)));
    } else {
        let plain = plain_symbols();
        let shifted = shifted_symbols();
        assert(lookup_char(plain, c) is None);
        assert(lookup_char(control_chars(), c) is None);
        lemma_lookup_char_found(shifted, c);
        let i = choose|i: int|
            0 <= i < shifted.len() && shifted[i].0 == c && shifted[i].1 == lookup_char(
                shifted,
                c,
            ).unwrap() && forall|j: int| 0 <= j < i ==> shifted[j].0 != c;
        let j: int = if i < 9 {
            i + 1
        } else if i == 9 {
            0
        } else {
            i
        };
        assert(plain[j].1 == shifted[i].1) by {
            assert(0 <= i < 21);
            if i == 0 {} else if i == 1 {} else if i == 2 {} else if i == 3 {} else if i == 4 {}
            else if i == 5 {} else if i == 6 {} else if i == 7 {} else if i == 8 {}
            else if i == 9 {} else if i == 10 {} else if i == 11 {} else if i == 12 {}
            else if i == 13 {} else if i == 14 {} else if i == 15 {} else if i == 16 {}
            else if i == 17 {} else if i == 18 {} else if i == 19 {} else {}
        }
        let d = plain[j].0;
        assert(forall|m: int| 0 <= m < j ==> plain[m].0 != d) by {
            if j == 0 {} else if j == 1 {} else if j == 2 {} else if j == 3 {} else if j == 4 {}
            else if j == 5 {} else if j == 6 {} else if j == 7 {} else if j == 8 {}
            else if j == 9 {} else if j == 10 {} else if j == 11 {} else if j == 12 {}
            else if j == 13 {} else if j == 14 {} else if j == 15 {} else if j == 16 {}
            else if j == 17 {} else if j == 18 {} else if j == 19 {} else {}
        }
        lemma_lookup_char_at(plain, j);
        assert(!is_lower(d) && !is_upper(d)) by {
            if j == 0 {} else if j == 1 {} else if j == 2 {} else if j == 3 {} else if j == 4 {}
            else if j == 5 {} else if j == 6 {} else if j == 7 {} else if j == 8 {}
            else if j == 9 {} else if j == 10 {} else if j == 11 {} else if j == 12 {}
            else if j == 13 {} else if j == 14 {} else if j == 15 {} else if j == 16 {}
            else if j == 17 {} else if j == 18 {} else if j == 19 {} else {}
        }
        assert(char_key(d) == Some((k, false)));
    }
}

/// The letters a to z, each with its key.
pub open spec fn lower_letters() -> Seq<(char, u16)> {
    Seq::new(26, |i: int| ((('a' as int) + i) as char, letter_keys()[i]))
}

/// The letters A to Z, each with its key.
pub open spec fn upper_letters() -> Seq<(char, u16)> {
    Seq::new(26, |i: int| ((('A' as int) + i) as char, letter_keys()[i]))
}

/// Every character typed without shift, with its key.
pub open spec fn unshifted_chars() -> Seq<(char, u16)> {
    lower_letters() + plain_symbols() + control_chars()
}

/// Every character typed with shift, with its key.
pub open spec fn shifted_chars() -> Seq<(char, u16)> {
    upper_letters() + shifted_symbols()
}

/// The place of key `k` in `unshifted_chars`, or -1.
pub open spec fn unshifted_place(k: u16) -> int {
    if k == KEY_A {
        0
    } else if k == KEY_B {
        1
    } else if k == KEY_C {
        2
    } else if k == KEY_D {
        3
    } else if k == KEY_E {
        4
    } else if k == KEY_F {
        5
    } else if k == KEY_G {
        6
    } else if k == KEY_H {
        7
    } else if k == KEY_I {
        8
    } else if k == KEY_J {
        9
    } else if k == KEY_K {
        10
    } else if k == KEY_L {
        11
    } else if k == KEY_M {
        12
    } else if k == KEY_N {
        13
    } else if k == KEY_O {
        14
    } else if k == KEY_P {
        15
    } else if k == KEY_Q {
        16
    } else if k == KEY_R {
        17
    } else if k == KEY_S {
        18
    } else if k == KEY_T {
        19
    } else if k == KEY_U {
        20
    } else if k == KEY_V {
        21
    } else if k == KEY_W {
        22
    } else if k == KEY_X {
        23
    } else if k == KEY_Y {
        24
    } else if k == KEY_Z {
        25
    } else if k == KEY_0 {
        26
    } else if k == KEY_1 {
        27
    } else if k == KEY_2 {
        28
    } else if k == KEY_3 {
        29
    } else if k == KEY_4 {
        30
    } else if k == KEY_5 {
        31
    } else if k == KEY_6 {
        32
    } else if k == KEY_7 {
        33
    } else if k == KEY_8 {
        34
    } else if k == KEY_9 {
        35
    } else if k == KEY_MINUS {
        36
    } else if k == KEY_EQUAL {
        37
    } else if k == KEY_LEFTBRACE {
        38
    } else if k == KEY_RIGHTBRACE {
        39
    } else if k == KEY_BACKSLASH {
        40
    } else if k == KEY_SEMICOLON {
        41
    } else if k == KEY_APOSTROPHE {
        42
    } else if k == KEY_GRAVE {
        43
    } else if k == KEY_COMMA {
        44
    } else if k == KEY_DOT {
        45
    } else if k == KEY_SLASH {
        46
    } else if k == KEY_SPACE {
        47
    } else if k == KEY_ENTER {
        48
    } else if k == KEY_TAB {
        49
    } else {
        -1
    }
}

/// The place of key `k` in `shifted_chars`, or -1.
pub open spec fn shifted_place(k: u16) -> int {
    if k == KEY_A {
        0
    } else if k == KEY_B {
        1
    } else if k == KEY_C {
        2
    } else if k == KEY_D {
        3
    } else if k == KEY_E {
        4
    } else if k == KEY_F {
        5
    } else if k == KEY_G {
        6
    } else if k == KEY_H {
        7
    } else if k == KEY_I {
        8
    } else if k == KEY_J {
        9
    } else if k == KEY_K {
        10
    } else if k == KEY_L {
        11
    } else if k == KEY_M {
        12
    } else if k == KEY_N {
        13
    } else if k == KEY_O {
        14
    } else if k == KEY_P {
        15
    } else if k == KEY_Q {
        16
    } else if k == KEY_R {
        17
    } else if k == KEY_S {
        18
    } else if k == KEY_T {
        19
    } else if k == KEY_U {
        20
    } else if k == KEY_V {
        21
    } else if k == KEY_W {
        22
    } else if k == KEY_X {
        23
    } else if k == KEY_Y {
        24
    } else if k == KEY_Z {
        25
    } else if k == KEY_1 {
        26
    } else if k == KEY_2 {
        27
    } else if k == KEY_3 {
        28
    } else if k == KEY_4 {
        29
    } else if k == KEY_5 {
        30
    } else if k == KEY_6 {
        31
    } else if k == KEY_7 {
        32
    } else if k == KEY_8 {
        33
    } else if k == KEY_9 {
        34
    } else if k == KEY_0 {
        35
    } else if k == KEY_MINUS {
        36
    } else if k == KEY_EQUAL {
        37
    } else if k == KEY_LEFTBRACE {
        38
    } else if k == KEY_RIGHTBRACE {
        39
    } else if k == KEY_BACKSLASH {
        40
    } else if k == KEY_SEMICOLON {
        41
    } else if k == KEY_APOSTROPHE {
        42
    } else if k == KEY_GRAVE {
        43
    } else if k == KEY_COMMA {
        44
    } else if k == KEY_DOT {
        45
    } else if k == KEY_SLASH {
        46
    } else {
        -1
    }
}

/// Each key of `unshifted_chars` is found at its own place.
proof fn lemma_unshifted_place(i: int)
    requires
        0 <= i < unshifted_chars().len(),
    ensures
        unshifted_place(unshifted_chars()[i].1) == i,
{
    assert(unshifted_chars().len() == 50);
        if i == 0 {} else if i == 1 {} else if i == 2 {} else if i == 3 {} else if i == 4 {}
        else if i == 5 {} else if i == 6 {} else if i == 7 {} else if i == 8 {}
        else if i == 9 {} else if i == 10 {} else if i == 11 {} else if i == 12 {}
        else if i == 13 {} else if i == 14 {} else if i == 15 {} else if i == 16 {}
        else if i == 17 {} else if i == 18 {} else if i == 19 {} else if i == 20 {}
        else if i == 21 {} else if i == 22 {} else if i == 23 {} else if i == 24 {}
        else if i == 25 {} else if i == 26 {} else if i == 27 {} else if i == 28 {}
        else if i == 29 {} else if i == 30 {} else if i == 31 {} else if i == 32 {}
        else if i == 33 {} else if i == 34 {} else if i == 35 {} else if i == 36 {}
        else if i == 37 {} else if i == 38 {} else if i == 39 {} else if i == 40 {}
        else if i == 41 {} else if i == 42 {} else if i == 43 {} else if i == 44 {}
        else if i == 45 {} else if i == 46 {} else if i == 47 {} else if i == 48 {} else {}
}

/// Each key of `shifted_chars` is found at its own place.
proof fn lemma_shifted_place(i: int)
    requires
        0 <= i < shifted_chars().len(),
    ensures
        shifted_place(shifted_chars()[i].1) == i,
{
    assert(shifted_chars().len() == 47);
        if i == 0 {} else if i == 1 {} else if i == 2 {} else if i == 3 {} else if i == 4 {}
        else if i == 5 {} else if i == 6 {} else if i == 7 {} else if i == 8 {}
        else if i == 9 {} else if i == 10 {} else if i == 11 {} else if i == 12 {}
        else if i == 13 {} else if i == 14 {} else if i == 15 {} else if i == 16 {}
        else if i == 17 {} else if i == 18 {} else if i == 19 {} else if i == 20 {}
        else if i == 21 {} else if i == 22 {} else if i == 23 {} else if i == 24 {}
        else if i == 25 {} else if i == 26 {} else if i == 27 {} else if i == 28 {}
        else if i == 29 {} else if i == 30 {} else if i == 31 {} else if i == 32 {}
        else if i == 33 {} else if i == 34 {} else if i == 35 {} else if i == 36 {}
        else if i == 37 {} else if i == 38 {} else if i == 39 {} else if i == 40 {}
        else if i == 41 {} else if i == 42 {} else if i == 43 {} else if i == 44 {}
        else if i == 45 {} else {}
}

/// A typed character stands in the table of its shift state, with its key.
proof fn lemma_char_in_table(c: char)
    requires
        char_key(c) is Some,
    ensures
        char_key(c).unwrap().1 ==> exists|i: int|
            0 <= i < shifted_chars().len() && #[trigger] shifted_chars()[i] == (
                c,
                char_key(c).unwrap().0,
            ),
        !char_key(c).unwrap().1 ==> exists|i: int|
            0 <= i < unshifted_chars().len() && #[trigger] unshifted_chars()[i] == (
                c,
                char_key(c).unwrap().0,
            ),
{
    let k = char_key(c).unwrap().0;
    let u = unshifted_chars();
    let v = shifted_chars();
    if is_lower(c) {
        let i = c as int - 'a' as int;
        assert(u[i] == lower_letters()[i]);
        assert(u[i] == (c, k));
    } else if is_upper(c) {
        let i = c as int - 'A' as int;
        assert(v[i] == upper_letters()[i]);
        assert(v[i] == (c, k));
    } else if lookup_char(plain_symbols(), c) is Some {
        let t = plain_symbols();
        lemma_lookup_char_found(t, c);
        let i = choose|i: int|
            0 <= i < t.len() && t[i].0 == c && t[i].1 == lookup_char(t, c).unwrap() && forall|j: int|
                0 <= j < i ==> t[j].0 != c;
        assert(u[26 + i] == t[i]);
        assert(u[26 + i] == (c, k));
    } else if lookup_char(control_chars(), c) is Some {
        let t = control_chars();
        lemma_lookup_char_found(t, c);
        let i = choose|i: int|
            0 <= i < t.len() && t[i].0 == c && t[i].1 == lookup_char(t, c).unwrap() && forall|j: int|
                0 <= j < i ==> t[j].0 != c;
        assert(u[48 + i] == t[i]);
        assert(u[48 + i] == (c, k));
    } else {
        let t = shifted_symbols();
        lemma_lookup_char_found(t, c);
        let i = choose|i: int|
            0 <= i < t.len() && t[i].0 == c && t[i].1 == lookup_char(t, c).unwrap() && forall|j: int|
                0 <= j < i ==> t[j].0 != c;
        assert(v[26 + i] == t[i]);
        assert(v[26 + i] == (c, k));
    }
}

/// No two characters are typed with the same keystroke: a key together with
/// the shift state names one character.
pub proof fn law_keystrokes_distinct(c1: char, c2: char)
    requires
        char_key(c1) is Some,
        char_key(c1) == char_key(c2),
    ensures
        c1 == c2,
{
    lemma_char_in_table(c1);
    lemma_char_in_table(c2);
    let k = char_key(c1).unwrap().0;
    if char_key(c1).unwrap().1 {
        let v = shifted_chars();
        let i = choose|i: int| 0 <= i < v.len() && #[trigger] v[i] == (c1, k);
        let j = choose|j: int| 0 <= j < v.len() && #[trigger] v[j] == (c2, k);
        lemma_shifted_place(i);
        lemma_shifted_place(j);
    } else {
        let u = unshifted_chars();
        let i = choose|i: int| 0 <= i < u.len() && #[trigger] u[i] == (c1, k);
        let j = choose|j: int| 0 <= j < u.len() && #[trigger] u[j] == (c2, k);
        lemma_unshifted_place(i);
        lemma_unshifted_place(j);
    }
}

/// The browser names that spell key `k`: a letter in either case, the
/// character a symbol key types, or the name of a key that has none, with
/// its other spellings.
pub open spec fn key_spellings(k: u16) -> Set<Seq<char>> {
    if k == KEY_A {
        set![seq!['a'], seq!['A']]
    } else if k == KEY_B {
        set![seq!['b'], seq!['B']]
    } else if k == KEY_C {
        set![seq!['c'], seq!['C']]
    } else if k == KEY_D {
        set![seq!['d'], seq!['D']]
    } else if k == KEY_E {
        set![seq!['e'], seq!['E']]
    } else if k == KEY_F {
        set![seq!['f'], seq!['F']]
    } else if k == KEY_G {
        set![seq!['g'], seq!['G']]
    } else if k == KEY_H {
        set![seq!['h'], seq!['H']]
    } else if k == KEY_I {
        set![seq!['i'], seq!['I']]
    } else if k == KEY_J {
        set![seq!['j'], seq!['J']]
    } else if k == KEY_K {
        set![seq!['k'], seq!['K']]
    } else if k == KEY_L {
        set![seq!['l'], seq!['L']]
    } else if k == KEY_M {
        set![seq!['m'], seq!['M']]
    } else if k == KEY_N {
        set![seq!['n'], seq!['N']]
    } else if k == KEY_O {
        set![seq!['o'], seq!['O']]
    } else if k == KEY_P {
        set![seq!['p'], seq!['P']]
    } else if k == KEY_Q {
        set![seq!['q'], seq!['Q']]
    } else if k == KEY_R {
        set![seq!['r'], seq!['R']]
    } else if k == KEY_S {
        set![seq!['s'], seq!['S']]
    } else if k == KEY_T {
        set![seq!['t'], seq!['T']]
    } else if k == KEY_U {
        set![seq!['u'], seq!['U']]
    } else if k == KEY_V {
        set![seq!['v'], seq!['V']]
    } else if k == KEY_W {
        set![seq!['w'], seq!['W']]
    } else if k == KEY_X {
        set![seq!['x'], seq!['X']]
    } else if k == KEY_Y {
        set![seq!['y'], seq!['Y']]
    } else if k == KEY_Z {
        set![seq!['z'], seq!['Z']]
    } else if k == KEY_0 {
        set![seq!['0']]
    } else if k == KEY_1 {
        set![seq!['1']]
    } else if k == KEY_2 {
        set![seq!['2']]
    } else if k == KEY_3 {
        set![seq!['3']]
    } else if k == KEY_4 {
        set![seq!['4']]
    } else if k == KEY_5 {
        set![seq!['5']]
    } else if k == KEY_6 {
        set![seq!['6']]
    } else if k == KEY_7 {
        set![seq!['7']]
    } else if k == KEY_8 {
        set![seq!['8']]
    } else if k == KEY_9 {
        set![seq!['9']]
    } else if k == KEY_MINUS {
        set![seq!['-']]
    } else if k == KEY_EQUAL {
        set![seq!['=']]
    } else if k == KEY_LEFTBRACE {
        set![seq!['[']]
    } else if k == KEY_RIGHTBRACE {
        set![seq![']']]
    } else if k == KEY_BACKSLASH {
        set![seq!['\\']]
    } else if k == KEY_SEMICOLON {
        set![seq![';']]
    } else if k == KEY_APOSTROPHE {
        set![seq!['\'']]
    } else if k == KEY_GRAVE {
        set![seq!['`']]
    } else if k == KEY_COMMA {
        set![seq![',']]
    } else if k == KEY_DOT {
        set![seq!['.']]
    } else if k == KEY_SLASH {
        set![seq!['/']]
    } else if k == KEY_SPACE {
        set![seq![' '], "space"@, "Space"@]
    } else if k == KEY_F1 {
        set!["F1"@]
    } else if k == KEY_F2 {
        set!["F2"@]
    } else if k == KEY_F3 {
        set!["F3"@]
    } else if k == KEY_F4 {
        set!["F4"@]
    } else if k == KEY_F5 {
        set!["F5"@]
    } else if k == KEY_F6 {
        set!["F6"@]
    } else if k == KEY_F7 {
        set!["F7"@]
    } else if k == KEY_F8 {
        set!["F8"@]
    } else if k == KEY_F9 {
        set!["F9"@]
    } else if k == KEY_F10 {
        set!["F10"@]
    } else if k == KEY_F11 {
        set!["F11"@]
    } else if k == KEY_F12 {
        set!["F12"@]
    } else if k == KEY_UP {
        set!["ArrowUp"@]
    } else if k == KEY_DOWN {
        set!["ArrowDown"@]
    } else if k == KEY_LEFT {
        set!["ArrowLeft"@]
    } else if k == KEY_RIGHT {
        set!["ArrowRight"@]
    } else if k == KEY_ENTER {
        set!["Enter"@, "Return"@]
    } else if k == KEY_ESC {
        set!["Escape"@]
    } else if k == KEY_BACKSPACE {
        set!["Backspace"@, "BackSpace"@]
    } else if k == KEY_TAB {
        set!["Tab"@]
    } else if k == KEY_HOME {
        set!["Home"@]
    } else if k == KEY_END {
        set!["End"@]
    } else if k == KEY_PAGEUP {
        set!["PageUp"@]
    } else if k == KEY_PAGEDOWN {
        set!["PageDown"@]
    } else if k == KEY_INSERT {
        set!["Insert"@]
    } else if k == KEY_DELETE {
        set!["Delete"@]
    } else if k == KEY_LEFTCTRL {
        set!["Control"@]
    } else if k == KEY_LEFTSHIFT {
        set!["Shift"@]
    } else if k == KEY_LEFTALT {
        set!["Alt"@]
    } else if k == KEY_LEFTMETA {
        set!["Meta"@]
    } else {
        Set::empty()
    }
}

/// The entry of a name table that `lookup_name` finds.
proof fn lemma_lookup_name_found(t: Seq<(Seq<char>, u16)>, name: Seq<char>)
    requires
        lookup_name(t, name) is Some,
    ensures
        exists|i: int| 0 <= i < t.len() && t[i].0 == name && t[i].1 == lookup_name(t, name).unwrap(),
    decreases t.len(),
{
    if t[0].0 != name {
        lemma_lookup_name_found(t.drop_first(), name);
        let i = choose|i: int|
            0 <= i < t.drop_first().len() && t.drop_first()[i].0 == name && t.drop_first()[i].1
                == lookup_name(t.drop_first(), name).unwrap();
        assert(t[i + 1] == t.drop_first()[i]);
    } else {
        assert(t[0].0 == name);
    }
}

/// Each browser key name stands for the key it spells: the key a name maps
/// to has that name among its spellings. So two names map to one key only
/// when they spell the same key (a letter in either case; a space, `space`
/// and `Space`; `Enter` and `Return`; `Backspace` and `BackSpace`).
pub proof fn law_key_names_spell_their_key(name: Seq<char>, other: Seq<char>)
    requires
        js_key(name) is Some,
    ensures
        key_spellings(js_key(name).unwrap()).contains(name),
        js_key(other) == js_key(name) ==> key_spellings(js_key(name).unwrap()).contains(other),
{
    lemma_key_name_spelled(name);
    if js_key(other) == js_key(name) {
        lemma_key_name_spelled(other);
    }
}

proof fn lemma_key_name_spelled(name: Seq<char>)
    requires
        js_key(name) is Some,
    ensures
        key_spellings(js_key(name).unwrap()).contains(name),
{
    if name.len() == 1 {
        let c = name[0];
        assert(name =~= seq![c]);
        if is_lower(c) {
            if c == 'a' {
                assert(key_spellings(KEY_A).contains(seq![c]));
            } else if c == 'b' {
                assert(key_spellings(KEY_B).contains(seq![c]));
            } else if c == 'c' {
                assert(key_spellings(KEY_C).contains(seq![c]));
            } else if c == 'd' {
                assert(key_spellings(KEY_D).contains(seq![c]));
            } else if c == 'e' {
                assert(key_spellings(KEY_E).contains(seq![c]));
            } else if c == 'f' {
                assert(key_spellings(KEY_F).contains(seq![c]));
            } else if c == 'g' {
                assert(key_spellings(KEY_G).contains(seq![c]));
            } else if c == 'h' {
                assert(key_spellings(KEY_H).contains(seq![c]));
            } else if c == 'i' {
                assert(key_spellings(KEY_I).contains(seq![c]));
            } else if c == 'j' {
                assert(key_spellings(KEY_J).contains(seq![c]));
            } else if c == 'k' {
                assert(key_spellings(KEY_K).contains(seq![c]));
            } else if c == 'l' {
                assert(key_spellings(KEY_L).contains(seq![c]));
            } else if c == 'm' {
                assert(key_spellings(KEY_M).contains(seq![c]));
            } else if c == 'n' {
                assert(key_spellings(KEY_N).contains(seq![c]));
            } else if c == 'o' {
                assert(key_spellings(KEY_O).contains(seq![c]));
            } else if c == 'p' {
                assert(key_spellings(KEY_P).contains(seq![c]));
            } else if c == 'q' {
                assert(key_spellings(KEY_Q).contains(seq![c]));
            } else if c == 'r' {
                assert(key_spellings(KEY_R).contains(seq![c]));
            } else if c == 's' {
                assert(key_spellings(KEY_S).contains(seq![c]));
            } else if c == 't' {
                assert(key_spellings(KEY_T).contains(seq![c]));
            } else if c == 'u' {
                assert(key_spellings(KEY_U).contains(seq![c]));
            } else if c == 'v' {
                assert(key_spellings(KEY_V).contains(seq![c]));
            } else if c == 'w' {
                assert(key_spellings(KEY_W).contains(seq![c]));
            } else if c == 'x' {
                assert(key_spellings(KEY_X).contains(seq![c]));
            } else if c == 'y' {
                assert(key_spellings(KEY_Y).contains(seq![c]));
            } else if c == 'z' {
                assert(key_spellings(KEY_Z).contains(seq![c]));
            }
        } else if is_upper(c) {
            if c == 'A' {
                assert(key_spellings(KEY_A).contains(seq![c]));
            } else if c == 'B' {
                assert(key_spellings(KEY_B).contains(seq![c]));
            } else if c == 'C' {
                assert(key_spellings(KEY_C).contains(seq![c]));
            } else if c == 'D' {
                assert(key_spellings(KEY_D).contains(seq![c]));
            } else if c == 'E' {
                assert(key_spellings(KEY_E).contains(seq![c]));
            } else if c == 'F' {
                assert(key_spellings(KEY_F).contains(seq![c]));
            } else if c == 'G' {
                assert(key_spellings(KEY_G).contains(seq![c]));
            } else if c == 'H' {
                assert(key_spellings(KEY_H).contains(seq![c]));
            } else if c == 'I' {
                assert(key_spellings(KEY_I).contains(seq![c]));
            } else if c == 'J' {
                assert(key_spellings(KEY_J).contains(seq![c]));
            } else if c == 'K' {
                assert(key_spellings(KEY_K).contains(seq![c]));
            } else if c == 'L' {
                assert(key_spellings(KEY_L).contains(seq![c]));
            } else if c == 'M' {
                assert(key_spellings(KEY_M).contains(seq![c]));
            } else if c == 'N' {
                assert(key_spellings(KEY_N).contains(seq![c]));
            } else if c == 'O' {
                assert(key_spellings(KEY_O).contains(seq![c]));
            } else if c == 'P' {
                assert(key_spellings(KEY_P).contains(seq![c]));
            } else if c == 'Q' {
                assert(key_spellings(KEY_Q).contains(seq![c]));
            } else if c == 'R' {
                assert(key_spellings(KEY_R).contains(seq![c]));
            } else if c == 'S' {
                assert(key_spellings(KEY_S).contains(seq![c]));
            } else if c == 'T' {
                assert(key_spellings(KEY_T).contains(seq![c]));
            } else if c == 'U' {
                assert(key_spellings(KEY_U).contains(seq![c]));
            } else if c == 'V' {
                assert(key_spellings(KEY_V).contains(seq![c]));
            } else if c == 'W' {
                assert(key_spellings(KEY_W).contains(seq![c]));
            } else if c == 'X' {
                assert(key_spellings(KEY_X).contains(seq![c]));
            } else if c == 'Y' {
                assert(key_spellings(KEY_Y).contains(seq![c]));
            } else if c == 'Z' {
                assert(key_spellings(KEY_Z).contains(seq![c]));
            }
        } else {
            let t = plain_symbols();
            lemma_lookup_char_found(t, c);
            let i = choose|i: int|
                0 <= i < t.len() && t[i].0 == c && t[i].1 == lookup_char(t, c).unwrap() && forall|j: int|
                    0 <= j < i ==> t[j].0 != c;
            if i == 0 {
                assert(key_spellings(t[0].1).contains(seq![t[0].0]));
            } else if i == 1 {
                assert(key_spellings(t[1].1).contains(seq![t[1].0]));
            } else if i == 2 {
                assert(key_spellings(t[2].1).contains(seq![t[2].0]));
            } else if i == 3 {
                assert(key_spellings(t[3].1).contains(seq![t[3].0]));
            } else if i == 4 {
                assert(key_spellings(t[4].1).contains(seq![t[4].0]));
            } else if i == 5 {
                assert(key_spellings(t[5].1).contains(seq![t[5].0]));
            } else if i == 6 {
                assert(key_spellings(t[6].1).contains(seq![t[6].0]));
            } else if i == 7 {
                assert(key_spellings(t[7].1).contains(seq![t[7].0]));
            } else if i == 8 {
                assert(key_spellings(t[8].1).contains(seq![t[8].0]));
            } else if i == 9 {
                assert(key_spellings(t[9].1).contains(seq![t[9].0]));
            } else if i == 10 {
                assert(key_spellings(t[10].1).contains(seq![t[10].0]));
            } else if i == 11 {
                assert(key_spellings(t[11].1).contains(seq![t[11].0]));
            } else if i == 12 {
                assert(key_spellings(t[12].1).contains(seq![t[12].0]));
            } else if i == 13 {
                assert(key_spellings(t[13].1).contains(seq![t[13].0]));
            } else if i == 14 {
                assert(key_spellings(t[14].1).contains(seq![t[14].0]));
            } else if i == 15 {
                assert(key_spellings(t[15].1).contains(seq![t[15].0]));
            } else if i == 16 {
                assert(key_spellings(t[16].1).contains(seq![t[16].0]));
            } else if i == 17 {
                assert(key_spellings(t[17].1).contains(seq![t[17].0]));
            } else if i == 18 {
                assert(key_spellings(t[18].1).contains(seq![t[18].0]));
            } else if i == 19 {
                assert(key_spellings(t[19].1).contains(seq![t[19].0]));
            } else if i == 20 {
                assert(key_spellings(t[20].1).contains(seq![t[20].0]));
            } else if i == 21 {
                assert(key_spellings(t[21].1).contains(seq![t[21].0]));
            }
        }
    } else {
        let t = named_keys();
        lemma_lookup_name_found(t, name);
        let i = choose|i: int| 0 <= i < t.len() && t[i].0 == name && t[i].1 == lookup_name(t, name).unwrap();
            if i == 0 {
                assert(key_spellings(t[0].1).contains(t[0].0));
            } else if i == 1 {
                assert(key_spellings(t[1].1).contains(t[1].0));
            } else if i == 2 {
                assert(key_spellings(t[2].1).contains(t[2].0));
            } else if i == 3 {
                assert(key_spellings(t[3].1).contains(t[3].0));
            } else if i == 4 {
                assert(key_spellings(t[4].1).contains(t[4].0));
            } else if i == 5 {
                assert(key_spellings(t[5].1).contains(t[5].0));
            } else if i == 6 {
                assert(key_spellings(t[6].1).contains(t[6].0));
            } else if i == 7 {
                assert(key_spellings(t[7].1).contains(t[7].0));
            } else if i == 8 {
                assert(key_spellings(t[8].1).contains(t[8].0));
            } else if i == 9 {
                assert(key_spellings(t[9].1).contains(t[9].0));
            } else if i == 10 {
                assert(key_spellings(t[10].1).contains(t[10].0));
            } else if i == 11 {
                assert(key_spellings(t[11].1).contains(t[11].0));
            } else if i == 12 {
                assert(key_spellings(t[12].1).contains(t[12].0));
            } else if i == 13 {
                assert(key_spellings(t[13].1).contains(t[13].0));
            } else if i == 14 {
                assert(key_spellings(t[14].1).contains(t[14].0));
            } else if i == 15 {
                assert(key_spellings(t[15].1).contains(t[15].0));
            } else if i == 16 {
                assert(key_spellings(t[16].1).contains(t[16].0));
            } else if i == 17 {
                assert(key_spellings(t[17].1).contains(t[17].0));
            } else if i == 18 {
                assert(key_spellings(t[18].1).contains(t[18].0));
            } else if i == 19 {
                assert(key_spellings(t[19].1).contains(t[19].0));
            } else if i == 20 {
                assert(key_spellings(t[20].1).contains(t[20].0));
            } else if i == 21 {
                assert(key_spellings(t[21].1).contains(t[21].0));
            } else if i == 22 {
                assert(key_spellings(t[22].1).contains(t[22].0));
            } else if i == 23 {
                assert(key_spellings(t[23].1).contains(t[23].0));
            } else if i == 24 {
                assert(key_spellings(t[24].1).contains(t[24].0));
            } else if i == 25 {
                assert(key_spellings(t[25].1).contains(t[25].0));
            } else if i == 26 {
                assert(key_spellings(t[26].1).contains(t[26].0));
            } else if i == 27 {
                assert(key_spellings(t[27].1).contains(t[27].0));
            } else if i == 28 {
                assert(key_spellings(t[28].1).contains(t[28].0));
            } else if i == 29 {
                assert(key_spellings(t[29].1).contains(t[29].0));
            } else if i == 30 {
                assert(key_spellings(t[30].1).contains(t[30].0));
            } else if i == 31 {
                assert(key_spellings(t[31].1).contains(t[31].0));
            } else if i == 32 {
                assert(key_spellings(t[32].1).contains(t[32].0));
            } else if i == 33 {
                assert(key_spellings(t[33].1).contains(t[33].0));
            }
    }
}

} // verus!
