//! When the websocket pushes the media state to the phone: on every change,
//! and every fourth poll for the playing position.
use vstd::prelude::*;

verus! {

/// How many polls pass between pushes made only for the position.
pub const POSITION_EVERY: u8 = 4;

/// What the media push remembers between polls.
pub struct MediaPush {
    /// The comparable form of the last state pushed because it changed.
    pub last_sent: Option<String>,
    /// Polls so far, modulo 256.
    pub position_tick: u8,
}

/// The push state as the contracts see it.
pub struct MediaPushView {
    pub last_sent: Option<Seq<char>>,
    pub position_tick: u8,
}

impl View for MediaPush {
    type V = MediaPushView;

    open spec fn view(&self) -> MediaPushView {
        MediaPushView {
            last_sent: match self.last_sent {
                Some(s) => Some(s@),
                None => None,
            },
            position_tick: self.position_tick,
        }
    }
}

/// One poll that found the player state, whose comparable form (the state
/// without its position) is `current`: the tick advances; the state is
/// pushed if it changed or the position is due, and remembered if it
/// changed.
pub open spec fn push_step(s: MediaPushView, current: Seq<char>) -> (MediaPushView, bool) {
    let tick = ((s.position_tick + 1) % 256) as u8;
    let changed = s.last_sent != Some(current);
    let due = tick % 4 == 0;
    (
        MediaPushView {
            last_sent: if changed {
                Some(current)
            } else {
                s.last_sent
            },
            position_tick: tick,
        },
        changed || due,
    )
}

impl MediaPush {
    /// Nothing pushed yet.
    pub fn new() -> (p: Self)
        ensures
            p@ == (MediaPushView { last_sent: None, position_tick: 0 }),
    {
        MediaPush { last_sent: None, position_tick: 0 }
    }

    /// Handles one poll whose player state has the comparable form
    /// `current`; returns whether the state is to be pushed.
    pub fn poll(&mut self, current: &str) -> (send: bool)
        ensures
            (final(self)@, send) == push_step(old(self)@, current@),
    {
        self.position_tick = self.position_tick.wrapping_add(1);
        let due = self.position_tick % POSITION_EVERY == 0;
        let changed = match &self.last_sent {
            Some(s) => !crate::text::str_eq(s.as_str(), current),
            None => true,
        };
        if changed {
            self.last_sent = Some(current.to_owned());
        }
        changed || due
    }
}

/// Four polls in a row push at least once, whatever they find: the
/// position reaches the phone at least every fourth poll.
pub proof fn law_position_pushed_every_four_polls(
    s: MediaPushView,
    a: Seq<char>,
    b: Seq<char>,
    c: Seq<char>,
    d: Seq<char>,
)
    ensures
        ({
            let (s1, p1) = push_step(s, a);
            let (s2, p2) = push_step(s1, b);
            let (s3, p3) = push_step(s2, c);
            let (s4, p4) = push_step(s3, d);
            p1 || p2 || p3 || p4
        }),
{
}

/// A state that did not change is not pushed again unless the position is
/// due.
pub proof fn law_unchanged_state_waits(s: MediaPushView, current: Seq<char>)
    requires
        s.last_sent == Some(current),
        (s.position_tick + 1) % 4 != 0,
    ensures
        !push_step(s, current).1,
        push_step(s, current).0.last_sent == s.last_sent,
{
}

/// Polls, in order, that found player states with the comparable forms
/// `states`: the push state after them, and for each whether it pushed.
pub open spec fn run_polls(s: MediaPushView, states: Seq<Seq<char>>) -> (MediaPushView, Seq<bool>)
    decreases states.len(),
{
    if states.len() == 0 {
        (s, Seq::empty())
    } else {
        let (s0, sent0) = run_polls(s, states.drop_last());
        let (s1, p) = push_step(s0, states.last());
        (s1, sent0.push(p))
    }
}

/// Whether the poll at place `k` (counting from 0) of a run from a fresh
/// push state pushes: the first poll does, every fourth poll does, and any
/// other poll does when its state differs from the one before.
pub open spec fn pushed_at(states: Seq<Seq<char>>, k: int) -> bool {
    k == 0 || (k + 1) % 4 == 0 || states[k] != states[k - 1]
}

/// The count of polls wraps at 256, a multiple of four.
proof fn lemma_tick_wraps(n: int)
    requires
        n >= 0,
    ensures
        (n % 256 + 1) % 256 == (n + 1) % 256,
        ((n + 1) % 256) % 4 == (n + 1) % 4,
{
    assert((n % 256 + 1) % 256 == (n + 1) % 256) by (nonlinear_arith)
        requires
            n >= 0,
    ;
    assert(((n + 1) % 256) % 4 == (n + 1) % 4) by (nonlinear_arith)
        requires
            n >= 0,
    ;
}

/// Over any run of polls from a fresh push state, the poll at place `k`
/// pushes exactly when it is the first, a fourth, or its state differs from
/// the state of the poll before; the state last seen is remembered.
pub proof fn law_push_rule_over_a_run(states: Seq<Seq<char>>)
    ensures
        ({
            let (s, sent) = run_polls(MediaPushView { last_sent: None, position_tick: 0 }, states);
            &&& sent.len() == states.len()
            &&& forall|k: int| 0 <= k < states.len() ==> sent[k] == #[trigger] pushed_at(states, k)
            &&& s.position_tick == states.len() % 256
            &&& s.last_sent == if states.len() == 0 {
                None
            } else {
                Some(states.last())
            }
        }),
    decreases states.len(),
{
    if states.len() > 0 {
        let n = states.len() - 1;
        let prev = states.drop_last();
        law_push_rule_over_a_run(prev);
        let (s0, sent0) = run_polls(MediaPushView { last_sent: None, position_tick: 0 }, prev);
        lemma_tick_wraps(n);
        let (s, sent) = run_polls(MediaPushView { last_sent: None, position_tick: 0 }, states);
        assert(sent == sent0.push(push_step(s0, states.last()).1));
        assert forall|k: int| 0 <= k < states.len() implies sent[k] == #[trigger] pushed_at(
            states,
            k,
        ) by {
            if k < n {
                assert(pushed_at(prev, k) == pushed_at(states, k));
            } else if n > 0 {
                assert(prev.last() == states[n - 1]);
            }
        }
    }
}

} // verus!
