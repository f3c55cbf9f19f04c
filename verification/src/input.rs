//! What the virtual keyboard and mouse are told to do for text, key
//! messages and button messages from the phone.
use vstd::prelude::*;
use crate::keymap::char_key;
use crate::keymap::char_to_key_shifted;
use crate::keymap::js_key;
use crate::keymap::js_key_to_linux;
use crate::keymap::mouse_button_code;
use crate::keymap::mouse_button_key;
use crate::keymap::KEY_LEFTSHIFT;
use crate::text::chars_of;
use crate::text::str_eq;

verus! {

/// A key or button going down or up, by its Linux code.
#[derive(Debug, Clone, Copy, PartialEq, Eq, Structural)]
pub enum KeyAction {
    Press(u16),
    Release(u16),
}

/// The actions that type `c`: its key pressed and released, inside shift
/// where the character needs it; nothing for a character with no key.
pub open spec fn char_actions(c: char) -> Seq<KeyAction> {
    match char_key(c) {
        Some((k, shift)) => if shift {
            seq![
                KeyAction::Press(KEY_LEFTSHIFT),
                KeyAction::Press(k),
                KeyAction::Release(k),
                KeyAction::Release(KEY_LEFTSHIFT),
            ]
        } else {
            seq![KeyAction::Press(k), KeyAction::Release(k)]
        },
        None => Seq::empty(),
    }
}

/// The actions that type a text, character by character.
pub open spec fn text_actions(s: Seq<char>) -> Seq<KeyAction>
    decreases s.len(),
{
    if s.len() == 0 {
        Seq::empty()
    } else {
        text_actions(s.drop_last()) + char_actions(s.last())
    }
}

/// The presses for the modifier keys of a key message, in order; names that
/// stand for no key are skipped.
pub open spec fn modifier_presses(mods: Seq<Seq<char>>) -> Seq<KeyAction>
    decreases mods.len(),
{
    if mods.len() == 0 {
        Seq::empty()
    } else {
        modifier_presses(mods.drop_last()) + match js_key(mods.last()) {
            Some(k) => seq![KeyAction::Press(k)],
            None => Seq::<KeyAction>::empty(),
        }
    }
}

/// The actions for a key going down: a single character is pressed as it is
/// typed (with shift first where needed), a longer name as the key it
/// stands for.
pub open spec fn key_down_actions(key: Seq<char>) -> Seq<KeyAction> {
    if key.len() == 1 {
        match char_key(key[0]) {
            Some((k, shift)) => if shift {
                seq![KeyAction::Press(KEY_LEFTSHIFT), KeyAction::Press(k)]
            } else {
                seq![KeyAction::Press(k)]
            },
            None => Seq::empty(),
        }
    } else {
        match js_key(key) {
            Some(k) => seq![KeyAction::Press(k)],
            None => Seq::empty(),
        }
    }
}

/// The actions for a key going up: the reverse of its going down.
pub open spec fn key_up_actions(key: Seq<char>) -> Seq<KeyAction> {
    if key.len() == 1 {
        match char_key(key[0]) {
            Some((k, shift)) => if shift {
                seq![KeyAction::Release(k), KeyAction::Release(KEY_LEFTSHIFT)]
            } else {
                seq![KeyAction::Release(k)]
            },
            None => Seq::empty(),
        }
    } else {
        match js_key(key) {
            Some(k) => seq![KeyAction::Release(k)],
            None => Seq::empty(),
        }
    }
}

/// The actions that type `text` on a US keyboard layout; characters with no
/// key are skipped.
pub fn type_text_actions(text: &str) -> (r: Vec<KeyAction>)
    ensures
        r@ == text_actions(text@),
{
    let v = chars_of(text);
    let mut r: Vec<KeyAction> = Vec::new();
    let mut i: usize = 0;
    while i < v.len()
        invariant
            v@ == text@,
            i <= v.len(),
            r@ == text_actions(text@.take(i as int)),
        decreases v.len() - i,
    {
        let ghost before = r@;
        match char_to_key_shifted(v[i]) {
            Some((k, shift)) => {
                if shift {
                    r.push(KeyAction::Press(KEY_LEFTSHIFT));
                }
                r.push(KeyAction::Press(k));
                r.push(KeyAction::Release(k));
                if shift {
                    r.push(KeyAction::Release(KEY_LEFTSHIFT));
                }
            },
            None => {},
        }
        assert(text@.take(i + 1).drop_last() =~= text@.take(i as int));
        assert(r@ =~= before + char_actions(v@[i as int]));
        i = i + 1;
    }
    assert(text@.take(v.len() as int) =~= text@);
    r
}

/// The actions for a key-press message: the modifiers are pressed first,
/// then the key itself.
pub fn key_press_actions(key: &str, modifiers: &Vec<String>) -> (r: Vec<KeyAction>)
    ensures
        r@ == modifier_presses(crate::settings::strings_view(modifiers@)) + key_down_actions(key@),
{
    let ghost mv = crate::settings::strings_view(modifiers@);
    let mut r: Vec<KeyAction> = Vec::new();
    let mut i: usize = 0;
    while i < modifiers.len()
        invariant
            mv == crate::settings::strings_view(modifiers@),
            i <= modifiers.len(),
            r@ == modifier_presses(mv.take(i as int)),
        decreases modifiers.len() - i,
    {
        let ghost before = r@;
        match js_key_to_linux(modifiers[i].as_str()) {
            Some(k) => {
                r.push(KeyAction::Press(k));
            },
            None => {},
        }
        assert(mv.take(i + 1).drop_last() =~= mv.take(i as int));
        assert(mv.take(i + 1).last() == modifiers@[i as int]@);
        assert(r@ =~= modifier_presses(mv.take(i + 1)));
        i = i + 1;
    }
    assert(mv.take(modifiers.len() as int) =~= mv);
    let ghost mods = r@;
    let v = chars_of(key);
    if v.len() == 1 {
        match char_to_key_shifted(v[0]) {
            Some((k, shift)) => {
                if shift {
                    r.push(KeyAction::Press(KEY_LEFTSHIFT));
                }
                r.push(KeyAction::Press(k));
            },
            None => {},
        }
    } else {
        match js_key_to_linux(key) {
            Some(k) => {
                r.push(KeyAction::Press(k));
            },
            None => {},
        }
    }
    assert(r@ =~= mods + key_down_actions(key@));
    r
}

/// The actions for a key-release message: the key comes up, then shift if
/// the key was typed with it.
pub fn key_release_actions(key: &str) -> (r: Vec<KeyAction>)
    ensures
        r@ == key_up_actions(key@),
{
    let mut r: Vec<KeyAction> = Vec::new();
    let v = chars_of(key);
    if v.len() == 1 {
        match char_to_key_shifted(v[0]) {
            Some((k, shift)) => {
                r.push(KeyAction::Release(k));
                if shift {
                    r.push(KeyAction::Release(KEY_LEFTSHIFT));
                }
            },
            None => {},
        }
    } else {
        match js_key_to_linux(key) {
            Some(k) => {
                r.push(KeyAction::Release(k));
            },
            None => {},
        }
    }
    assert(r@ =~= key_up_actions(key@));
    r
}

/// What a mouse-button message asks of the mouse: the named button goes
/// down when the state is `press` and up otherwise; nothing for an unknown
/// button.
pub open spec fn mouse_button_event(button: Seq<char>, state: Seq<char>) -> Option<KeyAction> {
    match mouse_button_key(button) {
        Some(b) => if state == "press"@ {
            Some(KeyAction::Press(b))
        } else {
            Some(KeyAction::Release(b))
        },
        None => None,
    }
}

/// The mouse action for a mouse-button message.
pub fn mouse_button_action(button: &str, state: &str) -> (r: Option<KeyAction>)
    ensures
        r == mouse_button_event(button@, state@),
{
    let pressed = str_eq(state, "press");
    match mouse_button_code(button) {
        Some(b) => if pressed {
            Some(KeyAction::Press(b))
        } else {
            Some(KeyAction::Release(b))
        },
        None => None,
    }
}

/// A relative axis of the virtual mouse.
#[derive(Debug, Clone, Copy, PartialEq, Eq, Structural)]
pub enum Axis {
    X,
    Y,
    Wheel,
    HorizontalWheel,
}

/// A motion along one relative axis.
#[derive(Debug, Clone, Copy, PartialEq, Eq, Structural)]
pub struct Motion {
    pub axis: Axis,
    pub value: i32,
}

/// The motion on `axis` by `value`, or nothing when it is zero.
pub open spec fn motion_if_moved(axis: Axis, value: int) -> Seq<Motion> {
    if value != 0 {
        seq![Motion { axis, value: value as i32 }]
    } else {
        Seq::empty()
    }
}

/// The events for moving the pointer by whole steps: horizontal first, and
/// no event for an axis that does not move.
pub fn pointer_motion(dx: i32, dy: i32) -> (r: Vec<Motion>)
    ensures
        r@ == motion_if_moved(Axis::X, dx as int) + motion_if_moved(Axis::Y, dy as int),
{
    let mut r: Vec<Motion> = Vec::new();
    if dx != 0 {
        r.push(Motion { axis: Axis::X, value: dx });
    }
    if dy != 0 {
        r.push(Motion { axis: Axis::Y, value: dy });
    }
    assert(r@ =~= motion_if_moved(Axis::X, dx as int) + motion_if_moved(Axis::Y, dy as int));
    r
}

/// The events for scrolling by whole steps: the vertical wheel turns against
/// `dy` (natural scrolling) and goes first; the horizontal wheel follows
/// `dx`.
pub fn scroll_motion(dx: i32, dy: i32) -> (r: Vec<Motion>)
    requires
        dy != i32::MIN,
    ensures
        r@ == motion_if_moved(Axis::Wheel, -dy) + motion_if_moved(Axis::HorizontalWheel, dx as int),
{
    let wheel = -dy;
    let mut r: Vec<Motion> = Vec::new();
    if wheel != 0 {
        r.push(Motion { axis: Axis::Wheel, value: wheel });
    }
    if dx != 0 {
        r.push(Motion { axis: Axis::HorizontalWheel, value: dx });
    }
    assert(r@ =~= motion_if_moved(Axis::Wheel, -dy) + motion_if_moved(
        Axis::HorizontalWheel,
        dx as int,
    ));
    r
}

// ---------------------------------------------------------------------------
// Laws
// ---------------------------------------------------------------------------

/// How far a sequence of actions leaves key `k` held: its presses less its
/// releases.
pub open spec fn held(actions: Seq<KeyAction>, k: u16) -> int
    decreases actions.len(),
{
    if actions.len() == 0 {
        0
    } else {
        held(actions.drop_last(), k) + match actions.last() {
            KeyAction::Press(j) => if j == k {
                1int
            } else {
                0int
            },
            KeyAction::Release(j) => if j == k {
                -1int
            } else {
                0int
            },
        }
    }
}

/// Every key released is down, and every key pressed comes up again.
pub open spec fn balanced(actions: Seq<KeyAction>) -> bool {
    &&& forall|k: u16| #[trigger] held(actions, k) == 0
    &&& forall|i: int, k: u16| 0 <= i <= actions.len() ==> #[trigger] held(actions.take(i), k) >= 0
}

proof fn lemma_held_concat(a: Seq<KeyAction>, b: Seq<KeyAction>, k: u16)
    ensures
        held(a + b, k) == held(a, k) + held(b, k),
    decreases b.len(),
{
    if b.len() == 0 {
        assert(a + b =~= a);
    } else {
        assert((a + b).drop_last() =~= a + b.drop_last());
        lemma_held_concat(a, b.drop_last(), k);
    }
}

proof fn lemma_balanced_concat(a: Seq<KeyAction>, b: Seq<KeyAction>)
    requires
        balanced(a),
        balanced(b),
    ensures
        balanced(a + b),
{
    assert forall|k: u16| #[trigger] held(a + b, k) == 0 by {
        lemma_held_concat(a, b, k);
    }
    assert forall|i: int, k: u16| 0 <= i <= (a + b).len() implies #[trigger] held(
        (a + b).take(i),
        k,
    ) >= 0 by {
        if i <= a.len() {
            assert((a + b).take(i) =~= a.take(i));
        } else {
            assert((a + b).take(i) =~= a + b.take(i - a.len()));
            lemma_held_concat(a, b.take(i - a.len()), k);
            assert(held(b.take(i - a.len()), k) >= 0);
            assert(a.take(a.len() as int) =~= a);
        }
    }
}

/// Keys pressed in order and let go in the reverse order: one key, or a
/// key under a held key, or nothing.
pub open spec fn is_nested_tap(a: Seq<KeyAction>) -> bool {
    ||| a.len() == 0
    ||| (a.len() == 2 && (a[0] matches KeyAction::Press(x) && a[1] == KeyAction::Release(x)))
    ||| (a.len() == 4 && (a[0] matches KeyAction::Press(p) && (a[1] matches KeyAction::Press(q)
        && a[2] == KeyAction::Release(q) && a[3] == KeyAction::Release(p))))
}

proof fn lemma_nested_tap_balanced(a: Seq<KeyAction>)
    requires
        is_nested_tap(a),
    ensures
        balanced(a),
{
    assert forall|i: int, k: u16| 0 <= i <= a.len() implies #[trigger] held(a.take(i), k) >= 0 by {
        reveal_with_fuel(held, 5);
        if a.len() == 4 {
            assert(a.take(1).drop_last() =~= a.take(0));
            assert(a.take(2).drop_last() =~= a.take(1));
            assert(a.take(3).drop_last() =~= a.take(2));
            assert(a.take(4).drop_last() =~= a.take(3));
        } else if a.len() == 2 {
            assert(a.take(1).drop_last() =~= a.take(0));
            assert(a.take(2).drop_last() =~= a.take(1));
        } else {
            assert(a.take(0) =~= Seq::<KeyAction>::empty());
        }
    }
    assert forall|k: u16| #[trigger] held(a, k) == 0 by {
        reveal_with_fuel(held, 5);
        if a.len() == 4 {
            assert(a.drop_last().drop_last().drop_last().drop_last() =~= Seq::<KeyAction>::empty());
        } else if a.len() == 2 {
            assert(a.drop_last().drop_last() =~= Seq::<KeyAction>::empty());
        } else {
            assert(a =~= Seq::<KeyAction>::empty());
        }
    }
}

proof fn lemma_char_actions_balanced(c: char)
    ensures
        balanced(char_actions(c)),
{
    lemma_nested_tap_balanced(char_actions(c));
}

/// Typing a text leaves no key held, and never lets go of a key that is not
/// down.
pub proof fn law_typing_is_balanced(s: Seq<char>)
    ensures
        balanced(text_actions(s)),
    decreases s.len(),
{
    if s.len() == 0 {
        assert forall|i: int, k: u16| 0 <= i <= 0 implies #[trigger] held(
            Seq::<KeyAction>::empty().take(i),
            k,
        ) >= 0 by {
            assert(Seq::<KeyAction>::empty().take(i) =~= Seq::<KeyAction>::empty());
        }
    } else {
        law_typing_is_balanced(s.drop_last());
        lemma_char_actions_balanced(s.last());
        lemma_balanced_concat(text_actions(s.drop_last()), char_actions(s.last()));
    }
}

/// A key pressed without modifiers and then released leaves no key held.
pub proof fn law_press_then_release_is_balanced(key: Seq<char>)
    ensures
        balanced(key_down_actions(key) + key_up_actions(key)),
{
    lemma_nested_tap_balanced(key_down_actions(key) + key_up_actions(key));
}

/// Modifiers are pressed one by one, in the order given: the presses for a
/// list are those for its first part followed by those for the rest, and a
/// single modifier is pressed when its name names a key and skipped when it
/// does not.
pub proof fn law_modifiers_pressed_in_order(a: Seq<Seq<char>>, b: Seq<Seq<char>>, m: Seq<char>)
    ensures
        modifier_presses(a + b) == modifier_presses(a) + modifier_presses(b),
        modifier_presses(seq![m]) == match js_key(m) {
            Some(k) => seq![KeyAction::Press(k)],
            None => Seq::<KeyAction>::empty(),
        },
        modifier_presses(Seq::<Seq<char>>::empty()) == Seq::<KeyAction>::empty(),
    decreases b.len(),
{
    assert(seq![m].drop_last() =~= Seq::<Seq<char>>::empty());
    assert(seq![m].last() == m);
    let one = match js_key(m) {
        Some(k) => seq![KeyAction::Press(k)],
        None => Seq::<KeyAction>::empty(),
    };
    assert(Seq::<KeyAction>::empty() + one =~= one);
    assert(modifier_presses(Seq::<Seq<char>>::empty()) == Seq::<KeyAction>::empty());
    assert(modifier_presses(seq![m]) == modifier_presses(seq![m].drop_last()) + one);
    if b.len() == 0 {
        assert(a + b =~= a);
        assert(modifier_presses(a) + Seq::<KeyAction>::empty() =~= modifier_presses(a));
    } else {
        law_modifiers_pressed_in_order(a, b.drop_last(), m);
        assert((a + b).drop_last() =~= a + b.drop_last());
        assert((a + b).last() == b.last());
        let tail = match js_key(b.last()) {
            Some(k) => seq![KeyAction::Press(k)],
            None => Seq::<KeyAction>::empty(),
        };
        assert(modifier_presses(a) + modifier_presses(b.drop_last()) + tail =~= modifier_presses(a)
            + (modifier_presses(b.drop_last()) + tail));
    }
}

} // verus!
