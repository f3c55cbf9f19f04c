//! The actions of the Niri compositor that clients may invoke, and the check
//! of the compositor's first answer on an event stream.
use vstd::prelude::*;
use crate::text::str_eq;

verus! {

/// The kebab-case action names clients are allowed to invoke.
pub open spec fn allowed_actions() -> Seq<Seq<char>> {
    seq![
        "focus-window"@, "close-window"@, "fullscreen-window"@, "focus-column-left"@,
        "focus-column-right"@, "focus-window-up"@, "focus-window-down"@, "move-column-left"@,
        "move-column-right"@, "move-window-up"@, "move-window-down"@, "focus-workspace-up"@,
        "focus-workspace-down"@, "focus-workspace"@, "move-window-to-workspace-up"@,
        "move-window-to-workspace-down"@, "focus-monitor-left"@, "focus-monitor-right"@,
        "focus-monitor-up"@, "focus-monitor-down"@, "move-window-to-monitor-left"@,
        "move-window-to-monitor-right"@, "power-off-monitors"@, "power-on-monitors"@,
        "screenshot"@, "screenshot-screen"@, "screenshot-window"@, "maximize-column"@,
        "toggle-window-floating"@, "switch-preset-column-width"@, "spawn"@,
    ]
}

fn allowed_action_table() -> (t: Vec<&'static str>)
    ensures
        t@.map_values(|s: &str| s@) == allowed_actions(),
{
    let t = vec![
        "focus-window", "close-window", "fullscreen-window", "focus-column-left",
        "focus-column-right", "focus-window-up", "focus-window-down", "move-column-left",
        "move-column-right", "move-window-up", "move-window-down", "focus-workspace-up",
        "focus-workspace-down", "focus-workspace", "move-window-to-workspace-up",
        "move-window-to-workspace-down", "focus-monitor-left", "focus-monitor-right",
        "focus-monitor-up", "focus-monitor-down", "move-window-to-monitor-left",
        "move-window-to-monitor-right", "power-off-monitors", "power-on-monitors", "screenshot",
        "screenshot-screen", "screenshot-window", "maximize-column", "toggle-window-floating",
        "switch-preset-column-width", "spawn",
    ];
    assert(t@.map_values(|s: &str| s@) =~= allowed_actions());
    t
}

/// Whether the given kebab-case action name is in the whitelist.
pub fn is_action_allowed(action: &str) -> (r: bool)
    ensures
        r == allowed_actions().contains(action@),
{
    let t = allowed_action_table();
    let ghost tv = t@.map_values(|s: &str| s@);
    let mut i: usize = 0;
    while i < t.len()
        invariant
            i <= t.len(),
            tv == t@.map_values(|s: &str| s@),
            tv == allowed_actions(),
            forall|j: int| 0 <= j < i ==> tv[j] != action@,
        decreases t.len() - i,
    {
        if str_eq(t[i], action) {
            assert(tv[i as int] == action@);
            return true;
        }
        i = i + 1;
    }
    false
}

/// The compositor's first answer on an event stream, by what the check
/// needs of it.
pub enum StreamReply {
    /// The request was handled: events follow.
    Handled,
    /// Some other response, by its debug form.
    Unexpected(String),
    /// The compositor's error message.
    Failed(String),
}

/// The outcome of the check: success, or the error message.
pub open spec fn stream_reply_check(r: StreamReply) -> Result<(), Seq<char>> {
    match r {
        StreamReply::Handled => Ok(()),
        StreamReply::Unexpected(d) => Err("unexpected initial EventStream response: "@ + d@),
        StreamReply::Failed(e) => Err("niri returned error for EventStream: "@ + e@),
    }
}

/// Checks the first answer on an event stream: only `Handled` lets the
/// stream go on.
pub fn check_stream_reply(reply: StreamReply) -> (r: Result<(), String>)
    ensures
        match (r, stream_reply_check(reply)) {
            (Ok(()), Ok(())) => true,
            (Err(e), Err(s)) => e@ == s,
            _ => false,
        },
{
    match reply {
        StreamReply::Handled => Ok(()),
        StreamReply::Unexpected(d) => {
            let mut e = "unexpected initial EventStream response: ".to_owned();
            e.append(d.as_str());
            Err(e)
        },
        StreamReply::Failed(m) => {
            let mut e = "niri returned error for EventStream: ".to_owned();
            e.append(m.as_str());
            Err(e)
        },
    }
}

/// The first answer as the contracts see it. The debug form that an
/// unexpected response carries is left out: a response such as `Outputs`
/// holds a hash map, whose debug form lists its entries in an order that
/// each process seeds anew.
pub enum StreamReplyView {
    Handled,
    Unexpected,
    Failed(Seq<char>),
}

impl View for StreamReply {
    type V = StreamReplyView;

    open spec fn view(&self) -> StreamReplyView {
        match self {
            StreamReply::Handled => StreamReplyView::Handled,
            StreamReply::Unexpected(_) => StreamReplyView::Unexpected,
            StreamReply::Failed(e) => StreamReplyView::Failed(e@),
        }
    }
}

/// What `serde_json::from_str::<niri_ipc::Reply>` reads from the first line
/// the compositor writes on an event stream: the answer, or the text of the
/// parse error.
pub uninterp spec fn niri_first_reply(line: Seq<char>) -> Result<StreamReplyView, Seq<char>>;

/// `serde_json::from_str::<niri_ipc::Reply>` on the first line of an event
/// stream, its variants sorted one for one: `Handled`, any other response by
/// its debug form, the compositor's error message, or the parse error's
/// text. The debug form of another response is left unsaid (see
/// `StreamReplyView`).
#[verifier::external_body]
fn parse_first_reply(line: &str) -> (r: Result<StreamReply, String>)
    ensures
        match r {
            Ok(x) => niri_first_reply(line@) == Ok::<StreamReplyView, Seq<char>>(x@),
            Err(e) => niri_first_reply(line@) == Err::<StreamReplyView, Seq<char>>(e@),
        },
{
    match serde_json::from_str::<niri_ipc::Reply>(line) {
        Ok(Ok(niri_ipc::Response::Handled)) => Ok(StreamReply::Handled),
        Ok(Ok(other)) => Ok(StreamReply::Unexpected(format!("{other:?}"))),
        Ok(Err(e)) => Ok(StreamReply::Failed(e)),
        Err(e) => Err(e.to_string()),
    }
}

/// Checks a parsed first answer: a parse error and every answer but
/// `Handled` stop the stream, each with its message.
pub fn check_parsed_reply(parsed: Result<StreamReply, String>) -> (r: Result<(), String>)
    ensures
        match parsed {
            Err(e) => r matches Err(m) && m@ == "failed to parse initial EventStream response: "@
                + e@,
            Ok(x) => match (r, stream_reply_check(x)) {
                (Ok(()), Ok(())) => true,
                (Err(e), Err(s)) => e@ == s,
                _ => false,
            },
        },
{
    match parsed {
        Err(e) => {
            let mut m = "failed to parse initial EventStream response: ".to_owned();
            m.append(e.as_str());
            Err(m)
        },
        Ok(x) => check_stream_reply(x),
    }
}

/// Reads and checks the first line the compositor writes on an event
/// stream: only a `Handled` answer lets the stream go on.
pub fn check_first_reply(line: &str) -> (r: Result<(), String>)
    ensures
        match niri_first_reply(line@) {
            Err(e) => r matches Err(m) && m@ == "failed to parse initial EventStream response: "@
                + e,
            Ok(StreamReplyView::Handled) => r is Ok,
            Ok(StreamReplyView::Unexpected) => r matches Err(m) && m@.len() >= 41 && m@.take(41)
                == "unexpected initial EventStream response: "@,
            Ok(StreamReplyView::Failed(e)) => r matches Err(m) && m@
                == "niri returned error for EventStream: "@ + e,
        },
{
    let parsed = parse_first_reply(line);
    let ghost pv = parsed;
    let r = check_parsed_reply(parsed);
    proof {
        reveal_strlit("unexpected initial EventStream response: ");
        let pre = "unexpected initial EventStream response: "@;
        match pv {
            Ok(StreamReply::Unexpected(d)) => {
                let m = r->Err_0;
                assert(m@ == pre + d@);
                assert(m@.take(41) =~= pre);
            },
            _ => {},
        }
    }
    r
}

#[verifier::external_type_specification]
#[verifier::external_body]
pub struct ExResponse(niri_ipc::Response);

/// A reply to a request, as the contracts see it: the compositor answered,
/// or refused with its message. Which response came is carried through
/// unread.
pub enum ReplyView {
    Answered,
    Refused(Seq<char>),
}

/// What `serde_json::from_str::<niri_ipc::Reply>` reads from a reply line:
/// an answer, a refusal with the compositor's message, or the text of the
/// parse error.
pub uninterp spec fn niri_reply(line: Seq<char>) -> Result<ReplyView, Seq<char>>;

/// `serde_json::from_str::<niri_ipc::Reply>` on a reply line, the parse
/// error given by its text. The response itself is opaque here: which one
/// came is left unsaid.
#[verifier::external_body]
fn parse_reply(line: &str) -> (r: Result<Result<niri_ipc::Response, String>, String>)
    ensures
        match r {
            Ok(Ok(_)) => niri_reply(line@) == Ok::<ReplyView, Seq<char>>(ReplyView::Answered),
            Ok(Err(m)) => niri_reply(line@) == Ok::<ReplyView, Seq<char>>(ReplyView::Refused(m@)),
            Err(e) => niri_reply(line@) == Err::<ReplyView, Seq<char>>(e@),
        },
{
    match serde_json::from_str::<niri_ipc::Reply>(line) {
        Ok(x) => Ok(x),
        Err(e) => Err(e.to_string()),
    }
}

/// The outcome of a request from the line the compositor answered with: its
/// response; its own error message; or, where the line is no reply, the
/// parse error with its cause.
pub fn reply_of_line(line: &str) -> (r: Result<niri_ipc::Response, String>)
    ensures
        match niri_reply(line@) {
            Err(e) => r matches Err(m) && m@ == "failed to parse response: "@ + e,
            Ok(ReplyView::Refused(e)) => r matches Err(m) && m@ == e,
            Ok(ReplyView::Answered) => r is Ok,
        },
{
    reply_of_parsed(parse_reply(line))
}

/// The outcome of a request from its parsed reply: the response as it came,
/// the compositor's message, or the parse error behind its prefix.
pub fn reply_of_parsed(parsed: Result<Result<niri_ipc::Response, String>, String>) -> (r: Result<
    niri_ipc::Response,
    String,
>)
    ensures
        match parsed {
            Err(e) => r matches Err(m) && m@ == "failed to parse response: "@ + e@,
            Ok(Err(e)) => r matches Err(m) && m@ == e@,
            Ok(Ok(x)) => r == Ok::<niri_ipc::Response, String>(x),
        },
{
    match parsed {
        Err(e) => {
            let mut m = "failed to parse response: ".to_owned();
            m.append(e.as_str());
            Err(m)
        },
        Ok(Err(m)) => Err(m),
        Ok(Ok(response)) => Ok(response),
    }
}

/// The action buttons the phone shows by default are all actions clients may
/// invoke.
pub proof fn law_default_actions_allowed()
    ensures
        forall|i: int|
            0 <= i < crate::settings::spec_default_visible_actions().len()
                ==> allowed_actions().contains(
                #[trigger] crate::settings::spec_default_visible_actions()[i],
            ),
{
    let d = crate::settings::spec_default_visible_actions();
    let a = allowed_actions();
    assert(a[1] == d[0]);
    assert(a[2] == d[1]);
    assert(a[27] == d[2]);
    assert(a[24] == d[3]);
    assert(a[22] == d[4]);
    assert(a[23] == d[5]);
    assert forall|i: int| 0 <= i < d.len() implies a.contains(#[trigger] d[i]) by {
        if i == 0 {
            assert(a[1] == d[i]);
        } else if i == 1 {
            assert(a[2] == d[i]);
        } else if i == 2 {
            assert(a[27] == d[i]);
        } else if i == 3 {
            assert(a[24] == d[i]);
        } else if i == 4 {
            assert(a[22] == d[i]);
        } else {
            assert(a[23] == d[i]);
        }
    }
}

/// The whitelist: a list of 31 names whose members are exactly these
/// actions; `is_action_allowed` answers true for them and for no other name.
pub proof fn law_whitelist()
    ensures
        allowed_actions().len() == 31,
        allowed_actions().to_set() == set![
            "focus-window"@,
            "close-window"@,
            "fullscreen-window"@,
            "focus-column-left"@,
            "focus-column-right"@,
            "focus-window-up"@,
            "focus-window-down"@,
            "move-column-left"@,
            "move-column-right"@,
            "move-window-up"@,
            "move-window-down"@,
            "focus-workspace-up"@,
            "focus-workspace-down"@,
            "focus-workspace"@,
            "move-window-to-workspace-up"@,
            "move-window-to-workspace-down"@,
            "focus-monitor-left"@,
            "focus-monitor-right"@,
            "focus-monitor-up"@,
            "focus-monitor-down"@,
            "move-window-to-monitor-left"@,
            "move-window-to-monitor-right"@,
            "power-off-monitors"@,
            "power-on-monitors"@,
            "screenshot"@,
            "screenshot-screen"@,
            "screenshot-window"@,
            "maximize-column"@,
            "toggle-window-floating"@,
            "switch-preset-column-width"@,
            "spawn"@,
        ],
{
    let a = allowed_actions();
    let w = set![
        "focus-window"@,
            "close-window"@,
            "fullscreen-window"@,
            "focus-column-left"@,
            "focus-column-right"@,
            "focus-window-up"@,
            "focus-window-down"@,
            "move-column-left"@,
            "move-column-right"@,
            "move-window-up"@,
            "move-window-down"@,
            "focus-workspace-up"@,
            "focus-workspace-down"@,
            "focus-workspace"@,
            "move-window-to-workspace-up"@,
            "move-window-to-workspace-down"@,
            "focus-monitor-left"@,
            "focus-monitor-right"@,
            "focus-monitor-up"@,
            "focus-monitor-down"@,
            "move-window-to-monitor-left"@,
            "move-window-to-monitor-right"@,
            "power-off-monitors"@,
            "power-on-monitors"@,
            "screenshot"@,
            "screenshot-screen"@,
            "screenshot-window"@,
            "maximize-column"@,
            "toggle-window-floating"@,
            "switch-preset-column-width"@,
            "spawn"@,
    ];
    assert forall|x: Seq<char>| a.contains(x) <==> w.contains(x) by {
        if a.contains(x) {
            let i = choose|i: int| 0 <= i < a.len() && a[i] == x;
        }
        if w.contains(x) {
            if x == "focus-window"@ { assert(a[0] == x); }
            if x == "close-window"@ { assert(a[1] == x); }
            if x == "fullscreen-window"@ { assert(a[2] == x); }
            if x == "focus-column-left"@ { assert(a[3] == x); }
            if x == "focus-column-right"@ { assert(a[4] == x); }
            if x == "focus-window-up"@ { assert(a[5] == x); }
            if x == "focus-window-down"@ { assert(a[6] == x); }
            if x == "move-column-left"@ { assert(a[7] == x); }
            if x == "move-column-right"@ { assert(a[8] == x); }
            if x == "move-window-up"@ { assert(a[9] == x); }
            if x == "move-window-down"@ { assert(a[10] == x); }
            if x == "focus-workspace-up"@ { assert(a[11] == x); }
            if x == "focus-workspace-down"@ { assert(a[12] == x); }
            if x == "focus-workspace"@ { assert(a[13] == x); }
            if x == "move-window-to-workspace-up"@ { assert(a[14] == x); }
            if x == "move-window-to-workspace-down"@ { assert(a[15] == x); }
            if x == "focus-monitor-left"@ { assert(a[16] == x); }
            if x == "focus-monitor-right"@ { assert(a[17] == x); }
            if x == "focus-monitor-up"@ { assert(a[18] == x); }
            if x == "focus-monitor-down"@ { assert(a[19] == x); }
            if x == "move-window-to-monitor-left"@ { assert(a[20] == x); }
            if x == "move-window-to-monitor-right"@ { assert(a[21] == x); }
            if x == "power-off-monitors"@ { assert(a[22] == x); }
            if x == "power-on-monitors"@ { assert(a[23] == x); }
            if x == "screenshot"@ { assert(a[24] == x); }
            if x == "screenshot-screen"@ { assert(a[25] == x); }
            if x == "screenshot-window"@ { assert(a[26] == x); }
            if x == "maximize-column"@ { assert(a[27] == x); }
            if x == "toggle-window-floating"@ { assert(a[28] == x); }
            if x == "switch-preset-column-width"@ { assert(a[29] == x); }
            if x == "spawn"@ { assert(a[30] == x); }
        }
    }
    assert(a.to_set() =~= w);
}

} // verus!
