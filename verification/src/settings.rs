use vstd::prelude::*;

verus! {

/// Colour scheme of the web client.
#[derive(Debug, Clone, Copy, PartialEq, Eq, Structural)]
pub enum Theme {
    Dark,
    Light,
}

impl Default for Theme {
    /// The client starts dark.
    fn default() -> (t: Self)
        ensures
            t == Theme::Dark,
    {
        Theme::Dark
    }
}

/// A launcher button on the phone: a name and the command it spawns.
#[derive(Debug, Clone)]
pub struct AppShortcut {
    pub id: String,
    pub name: String,
    pub command: Vec<String>,
    pub icon: Option<String>,
}

/// The actions shown on the phone when no settings file says otherwise.
pub open spec fn spec_default_visible_actions() -> Seq<Seq<char>> {
    seq![
        "close-window"@,
        "fullscreen-window"@,
        "maximize-column"@,
        "screenshot"@,
        "power-off-monitors"@,
        "power-on-monitors"@,
    ]
}

/// Views of a list of strings.
pub open spec fn strings_view(v: Seq<String>) -> Seq<Seq<char>> {
    v.map_values(|s: String| s@)
}

/// The action buttons shown by default, in display order.
pub fn default_visible_actions() -> (actions: Vec<String>)
    ensures
        strings_view(actions@) == spec_default_visible_actions(),
{
    let mut actions: Vec<String> = Vec::new();
    actions.push("close-window".to_owned());
    actions.push("fullscreen-window".to_owned());
    actions.push("maximize-column".to_owned());
    actions.push("screenshot".to_owned());
    actions.push("power-off-monitors".to_owned());
    actions.push("power-on-monitors".to_owned());
    assert(strings_view(actions@) =~= spec_default_visible_actions());
    actions
}

} // verus!
