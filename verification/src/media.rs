//! Media players over MPRIS: which bus names are players, what they are
//! called, what their metadata says, and how the controls step.
use vstd::prelude::*;
use crate::settings::strings_view;
use crate::text::contains_seq;
use crate::text::contains_str;
use crate::text::has_prefix;
use crate::text::starts_with;
use crate::text::str_eq;
use crate::text::strip_prefix;

verus! {

/// A media player the phone can choose: its bus name and a display name.
#[derive(Debug, Clone)]
pub struct PlayerInfo {
    pub id: String,
    pub name: String,
}

/// A metadata value as a player reports it, by the shapes this crate reads.
pub enum MetaValue {
    Str(String),
    Array(Vec<MetaValue>),
    I64(i64),
    U64(u64),
    I32(i32),
    U32(u32),
    Other,
}

/// A player's metadata: keys with their values, each key once.
pub struct Metadata {
    pub entries: Vec<(String, MetaValue)>,
}

/// The value of the first entry of `entries` under `key`.
pub open spec fn meta_lookup(entries: Seq<(String, MetaValue)>, key: Seq<char>) -> Option<MetaValue>
    decreases entries.len(),
{
    if entries.len() == 0 {
        None
    } else if entries[0].0@ == key {
        Some(entries[0].1)
    } else {
        meta_lookup(entries.drop_first(), key)
    }
}

impl Metadata {
    /// The value under `key`.
    pub open spec fn get(&self, key: Seq<char>) -> Option<MetaValue> {
        meta_lookup(self.entries@, key)
    }

    /// The value under `key`.
    pub fn lookup(&self, key: &str) -> (r: Option<&MetaValue>)
        ensures
            match r {
                Some(v) => self.get(key@) == Some(*v),
                None => self.get(key@) is None,
            },
    {
        let mut i: usize = 0;
        assert(self.entries@.skip(0) =~= self.entries@);
        while i < self.entries.len()
            invariant
                i <= self.entries.len(),
                meta_lookup(self.entries@, key@) == meta_lookup(self.entries@.skip(i as int), key@),
            decreases self.entries.len() - i,
        {
            assert(self.entries@.skip(i as int)[0] == self.entries@[i as int]);
            if str_eq(self.entries[i].0.as_str(), key) {
                return Some(&self.entries[i].1);
            }
            assert(self.entries@.skip(i as int).drop_first() =~= self.entries@.skip(i + 1));
            i = i + 1;
        }
        None
    }
}

/// The text a metadata value holds, if it is a string.
pub open spec fn meta_str(v: MetaValue) -> Option<Seq<char>> {
    match v {
        MetaValue::Str(s) => Some(s@),
        _ => None,
    }
}

/// The string under `key`.
pub open spec fn meta_string(m: Metadata, key: Seq<char>) -> Option<Seq<char>> {
    match m.get(key) {
        Some(v) => meta_str(v),
        None => None,
    }
}

/// The strings among a list of values, in order.
pub open spec fn strings_among(vs: Seq<MetaValue>) -> Seq<Seq<char>>
    decreases vs.len(),
{
    if vs.len() == 0 {
        Seq::empty()
    } else {
        strings_among(vs.drop_last()) + match meta_str(vs.last()) {
            Some(s) => seq![s],
            None => Seq::<Seq<char>>::empty(),
        }
    }
}

/// The parts joined, with `sep` between each two.
pub open spec fn join(parts: Seq<Seq<char>>, sep: Seq<char>) -> Seq<char>
    decreases parts.len(),
{
    if parts.len() == 0 {
        Seq::empty()
    } else if parts.len() == 1 {
        parts[0]
    } else {
        join(parts.drop_last(), sep) + sep + parts.last()
    }
}

/// The list under `key` as one text: the strings of an array joined by
/// `, ` (none if it holds no string), or a plain string.
pub open spec fn meta_string_list(m: Metadata, key: Seq<char>) -> Option<Seq<char>> {
    match m.get(key) {
        Some(MetaValue::Array(items)) => {
            let strs = strings_among(items@);
            if strs.len() == 0 {
                None
            } else {
                Some(join(strs, ", "@))
            }
        },
        _ => meta_string(m, key),
    }
}

/// The integer under `key`, the unsigned ones taken as `i64` (wrapping).
pub open spec fn meta_i64(m: Metadata, key: Seq<char>) -> Option<i64> {
    match m.get(key) {
        Some(MetaValue::I64(n)) => Some(n),
        Some(MetaValue::U64(n)) => Some(n as i64),
        Some(MetaValue::I32(n)) => Some(n as i64),
        Some(MetaValue::U32(n)) => Some(n as i64),
        _ => None,
    }
}

/// The view of an optional string.
pub open spec fn opt_string_view(s: Option<String>) -> Option<Seq<char>> {
    match s {
        Some(t) => Some(t@),
        None => None,
    }
}

/// The string under `key`.
pub fn extract_string(metadata: &Metadata, key: &str) -> (r: Option<String>)
    ensures
        opt_string_view(r) == meta_string(*metadata, key@),
{
    match metadata.lookup(key) {
        Some(MetaValue::Str(s)) => Some(s.clone()),
        _ => None,
    }
}

/// The list under `key` joined by `, `, or the plain string under it.
pub fn extract_string_list(metadata: &Metadata, key: &str) -> (r: Option<String>)
    ensures
        opt_string_view(r) == meta_string_list(*metadata, key@),
{
    match metadata.lookup(key) {
        Some(MetaValue::Array(items)) => {
            let mut out = String::new();
            let mut count: usize = 0;
            let mut i: usize = 0;
            while i < items.len()
                invariant
                    i <= items.len(),
                    count == strings_among(items@.take(i as int)).len(),
                    count <= i,
                    out@ == join(strings_among(items@.take(i as int)), ", "@),
                decreases items.len() - i,
            {
                let ghost before = strings_among(items@.take(i as int));
                assert(items@.take(i + 1).drop_last() =~= items@.take(i as int));
                match &items[i] {
                    MetaValue::Str(s) => {
                        if count > 0 {
                            out.append(", ");
                        }
                        out.append(s.as_str());
                        count = count + 1;
                        proof {
                            let after = strings_among(items@.take(i + 1));
                            assert(after =~= before.push(s@));
                            assert(after.drop_last() =~= before);
                            if before.len() == 0 {
                                assert(out@ =~= join(after, ", "@));
                            }
                        }
                    },
                    _ => {
                        assert(strings_among(items@.take(i + 1)) =~= before);
                    },
                }
                i = i + 1;
            }
            assert(items@.take(items.len() as int) =~= items@);
            if count == 0 {
                None
            } else {
                Some(out)
            }
        },
        _ => extract_string(metadata, key),
    }
}

/// The integer under `key`.
pub fn extract_i64(metadata: &Metadata, key: &str) -> (r: Option<i64>)
    ensures
        r == meta_i64(*metadata, key@),
{
    match metadata.lookup(key) {
        Some(MetaValue::I64(n)) => Some(*n),
        Some(MetaValue::U64(n)) => Some(*n as i64),
        Some(MetaValue::I32(n)) => Some(*n as i64),
        Some(MetaValue::U32(n)) => Some(*n as i64),
        _ => None,
    }
}

/// Microseconds to whole milliseconds, rounding toward zero.
pub open spec fn us_to_ms(us: i64) -> i64 {
    if us >= 0 {
        (us / 1000) as i64
    } else {
        (-((-us) / 1000)) as i64
    }
}

/// What a player's state shows of its metadata and position.
pub struct MediaFields {
    pub title: Option<String>,
    pub artist: Option<String>,
    pub album: Option<String>,
    pub art_url: Option<String>,
    pub position_ms: Option<i64>,
    pub duration_ms: Option<i64>,
}

/// The metadata fields of a player's state, and its position in
/// milliseconds from the position the player reports in microseconds. The
/// art is served by this program, so only whether there is any is kept.
pub fn media_fields(metadata: &Metadata, position_us: Option<i64>) -> (f: MediaFields)
    ensures
        opt_string_view(f.title) == meta_string(*metadata, "xesam:title"@),
        opt_string_view(f.artist) == meta_string_list(*metadata, "xesam:artist"@),
        opt_string_view(f.album) == meta_string(*metadata, "xesam:album"@),
        opt_string_view(f.art_url) == (if meta_string(*metadata, "mpris:artUrl"@) is Some {
            Some("/api/media/art"@)
        } else {
            None
        }),
        f.position_ms == (match position_us {
            Some(us) => Some(us_to_ms(us)),
            None => None,
        }),
        f.duration_ms == (match meta_i64(*metadata, "mpris:length"@) {
            Some(us) => Some(us_to_ms(us)),
            None => None,
        }),
{
    let title = extract_string(metadata, "xesam:title");
    let artist = extract_string_list(metadata, "xesam:artist");
    let album = extract_string(metadata, "xesam:album");
    let art_url = match extract_string(metadata, "mpris:artUrl") {
        Some(_) => Some("/api/media/art".to_owned()),
        None => None,
    };
    let position_ms = match position_us {
        Some(us) => Some(us / 1000),
        None => None,
    };
    let duration_ms = match extract_i64(metadata, "mpris:length") {
        Some(us) => Some(us / 1000),
        None => None,
    };
    MediaFields { title, artist, album, art_url, position_ms, duration_ms }
}

/// The bus-name prefix of MPRIS media players.
pub open spec fn mpris_prefix() -> Seq<char> {
    "org.mpris.MediaPlayer2."@
}

/// A browser-integration host is running, which gives richer data than the
/// browsers' own players.
pub open spec fn has_browser_integration(names: Seq<Seq<char>>) -> bool {
    exists|i: int|
        0 <= i < names.len() && (#[trigger] names[i] == "org.mpris.MediaPlayer2.telemax"@ || names[i]
            == "org.mpris.MediaPlayer2.plasma-browser-integration"@)
}

/// A bus name is listed as a player: it is an MPRIS player, and not a
/// browser's own player while an integration host runs.
pub open spec fn is_listed_player(name: Seq<char>, integration: bool) -> bool {
    has_prefix(name, mpris_prefix()) && !(integration && contains_seq(name, ".instance_"@))
}

/// The listed players among `names`, in order.
pub open spec fn listed_players(names: Seq<Seq<char>>, integration: bool) -> Seq<Seq<char>> {
    names.filter(|n: Seq<char>| is_listed_player(n, integration))
}

/// The bus names, among all names on the session bus, that are listed as
/// media players, in bus order.
pub fn player_bus_names(names: &Vec<String>) -> (r: Vec<String>)
    ensures
        strings_view(r@) == listed_players(
            strings_view(names@),
            has_browser_integration(strings_view(names@)),
        ),
{
    let ghost nv = strings_view(names@);
    let mut integration = false;
    let mut i: usize = 0;
    while i < names.len()
        invariant
            nv == strings_view(names@),
            i <= names.len(),
            integration == exists|j: int|
                0 <= j < i && (#[trigger] nv[j] == "org.mpris.MediaPlayer2.telemax"@ || nv[j]
                    == "org.mpris.MediaPlayer2.plasma-browser-integration"@),
        decreases names.len() - i,
    {
        let s = names[i].as_str();
        if str_eq(s, "org.mpris.MediaPlayer2.telemax") || str_eq(
            s,
            "org.mpris.MediaPlayer2.plasma-browser-integration",
        ) {
            integration = true;
        }
        assert(nv[i as int] == names@[i as int]@);
        i = i + 1;
    }
    let ghost integ = has_browser_integration(nv);
    assert(integration == integ);
    let mut r: Vec<String> = Vec::new();
    let mut i: usize = 0;
    while i < names.len()
        invariant
            nv == strings_view(names@),
            integration == integ,
            i <= names.len(),
            strings_view(r@) == nv.take(i as int).filter(
                |n: Seq<char>| is_listed_player(n, integ),
            ),
        decreases names.len() - i,
    {
        let s = names[i].as_str();
        let ghost before = r@;
        let keep = starts_with(s, "org.mpris.MediaPlayer2.") && !(integration && contains_str(
            s,
            ".instance_",
        ));
        if keep {
            r.push(names[i].clone());
        }
        proof {
            let p = |n: Seq<char>| is_listed_player(n, integ);
            assert(nv.take(i + 1).drop_last() =~= nv.take(i as int));
            assert(nv.take(i + 1).last() == nv[i as int]);
            reveal_with_fuel(Seq::filter, 1);
            assert(strings_view(r@) =~= nv.take(i + 1).filter(p));
        }
        i = i + 1;
    }
    assert(nv.take(names.len() as int) =~= nv);
    r
}

/// The display name of a player: "title — identity" while it plays
/// something, else its identity, else its bus name without the MPRIS
/// prefix. An empty title counts as none.
pub open spec fn display_name(
    bus_name: Seq<char>,
    title: Option<Seq<char>>,
    identity: Option<Seq<char>>,
) -> Seq<char> {
    let fallback = if has_prefix(bus_name, mpris_prefix()) {
        bus_name.skip(mpris_prefix().len() as int)
    } else {
        bus_name
    };
    let t = match title {
        Some(t) if t.len() > 0 => Some(t),
        _ => None,
    };
    match (t, identity) {
        (Some(t), Some(id)) => t + " — "@ + id,
        (Some(t), None) => t,
        (None, Some(id)) => id,
        (None, None) => fallback,
    }
}

/// The display name of a player from its bus name, the title of what it
/// plays and its identity, as the player reports them.
pub fn player_display_name(bus_name: &str, title: Option<String>, identity: Option<String>) -> (r:
    String)
    ensures
        r@ == display_name(bus_name@, opt_string_view(title), opt_string_view(identity)),
{
    let fallback = match strip_prefix(bus_name, "org.mpris.MediaPlayer2.") {
        Some(rest) => rest.to_owned(),
        None => bus_name.to_owned(),
    };
    let t = match title {
        Some(t) => if t.as_str().unicode_len() > 0 {
            Some(t)
        } else {
            None
        },
        None => None,
    };
    match (t, identity) {
        (Some(t), Some(id)) => {
            let mut s = t;
            s.append(" — ");
            s.append(id.as_str());
            s
        },
        (Some(t), None) => t,
        (None, Some(id)) => id,
        (None, None) => fallback,
    }
}

/// The loop status after a press of the repeat button: None, Track and
/// Playlist in turn; anything else starts over at None.
pub open spec fn next_loop(current: Seq<char>) -> Seq<char> {
    if current == "None"@ {
        "Track"@
    } else if current == "Track"@ {
        "Playlist"@
    } else {
        "None"@
    }
}

/// The loop status after a press of the repeat button.
pub fn next_loop_status(current: &str) -> (r: &'static str)
    ensures
        r@ == next_loop(current@),
{
    if str_eq(current, "None") {
        "Track"
    } else if str_eq(current, "Track") {
        "Playlist"
    } else {
        "None"
    }
}

/// The local file that holds a player's cover art: its art URL without the
/// `file://` scheme, when it has one.
pub open spec fn art_path(m: Metadata) -> Option<Seq<char>> {
    match meta_string(m, "mpris:artUrl"@) {
        Some(url) => if has_prefix(url, "file://"@) {
            Some(url.skip("file://"@.len() as int))
        } else {
            None
        },
        None => None,
    }
}

/// The local file that holds a player's cover art, if any.
pub fn art_file_path(metadata: &Metadata) -> (r: Option<String>)
    ensures
        opt_string_view(r) == art_path(*metadata),
{
    match extract_string(metadata, "mpris:artUrl") {
        Some(url) => match strip_prefix(url.as_str(), "file://") {
            Some(p) => Some(p.to_owned()),
            None => None,
        },
        None => None,
    }
}

/// The track a seek applies to, and the position in microseconds.
pub open spec fn seek_request(m: Metadata, position_ms: i64) -> (Seq<char>, int) {
    (
        match meta_string(m, "mpris:trackid"@) {
            Some(t) => t,
            None => "/org/mpris/MediaPlayer2/TrackList/NoTrack"@,
        },
        position_ms * 1000,
    )
}

/// A character that may stand in an element of a D-Bus object path: an
/// ASCII letter or digit, or `_`.
pub open spec fn is_path_char(c: char) -> bool {
    ('a' <= c && c <= 'z') || ('A' <= c && c <= 'Z') || ('0' <= c && c <= '9') || c == '_'
}

/// A D-Bus object path: `/` alone, or `/` followed by non-empty elements of
/// path characters separated by single `/`, with no `/` at the end.
pub open spec fn is_object_path(s: Seq<char>) -> bool {
    &&& s.len() >= 1
    &&& s[0] == '/'
    &&& (s.len() == 1 || s.last() != '/')
    &&& forall|i: int|
        1 <= i < s.len() ==> is_path_char(#[trigger] s[i]) || (s[i] == '/' && s[i - 1] != '/')
}

/// `zbus::zvariant::ObjectPath::try_from` on a string, by whether it
/// succeeds: it accepts exactly the object paths.
#[verifier::external_body]
fn object_path_ok(s: &str) -> (r: bool)
    ensures
        r == is_object_path(s@),
{
    zbus::zvariant::ObjectPath::try_from(s).is_ok()
}

/// The message of a seek whose track is no object path; its second part is
/// what `zvariant` writes for a path it refuses.
pub open spec fn invalid_track_message() -> Seq<char> {
    "Invalid track path: Invalid object path"@
}

/// The track and position, in microseconds, of a seek to `position_ms`;
/// an error where the track is no object path.
pub fn seek_target(metadata: &Metadata, position_ms: i64) -> (r: Result<(String, i64), String>)
    requires
        i64::MIN <= position_ms * 1000 <= i64::MAX,
    ensures
        is_object_path(seek_request(*metadata, position_ms).0) <==> r is Ok,
        r matches Ok(t) ==> (t.0@, t.1 as int) == seek_request(*metadata, position_ms),
        r matches Err(e) ==> e@ == invalid_track_message(),
{
    let track = match extract_string(metadata, "mpris:trackid") {
        Some(t) => t,
        None => "/org/mpris/MediaPlayer2/TrackList/NoTrack".to_owned(),
    };
    if !object_path_ok(track.as_str()) {
        let e = "Invalid track path: Invalid object path".to_owned();
        proof {
            reveal_strlit("Invalid track path: Invalid object path");
        }
        return Err(e);
    }
    Ok((track, position_ms * 1000))
}

/// The player to act on, or the error when none is chosen.
pub fn selected_player(selected: &Option<String>) -> (r: Result<String, String>)
    ensures
        match (r, selected) {
            (Ok(p), Some(s)) => p@ == s@,
            (Err(e), None) => e@ == "No player selected"@,
            _ => false,
        },
{
    match selected {
        Some(s) => Ok(s.clone()),
        None => Err("No player selected".to_owned()),
    }
}

/// The player chosen for a state query: the chosen one, or else the first
/// player listed, if any.
pub fn auto_select(selected: &Option<String>, players: &Vec<PlayerInfo>) -> (r: Option<String>)
    ensures
        match selected {
            Some(s) => opt_string_view(r) == Some(s@),
            None => if players@.len() > 0 {
                opt_string_view(r) == Some(players@[0].id@)
            } else {
                r is None
            },
        },
{
    match selected {
        Some(s) => Some(s.clone()),
        None => if players.len() > 0 {
            Some(players[0].id.clone())
        } else {
            None
        },
    }
}

// ---------------------------------------------------------------------------
// Laws
// ---------------------------------------------------------------------------

/// Three presses of the repeat button bring any of the three loop states
/// back, and every press yields one of them.
pub proof fn law_repeat_cycles(current: Seq<char>)
    ensures
        (current == "None"@ || current == "Track"@ || current == "Playlist"@) ==> next_loop(
            next_loop(next_loop(current)),
        ) == current,
        next_loop(current) == "None"@ || next_loop(current) == "Track"@ || next_loop(current)
            == "Playlist"@,
{
    reveal_strlit("None");
    reveal_strlit("Track");
    reveal_strlit("Playlist");
}

/// Every listed player is an MPRIS player.
pub proof fn law_listed_players_are_mpris(names: Seq<Seq<char>>, integration: bool)
    ensures
        forall|i: int|
            0 <= i < listed_players(names, integration).len() ==> has_prefix(
                #[trigger] listed_players(names, integration)[i],
                mpris_prefix(),
            ),
{
    let p = |n: Seq<char>| is_listed_player(n, integration);
    assert forall|i: int| 0 <= i < names.filter(p).len() implies has_prefix(
        #[trigger] names.filter(p)[i],
        mpris_prefix(),
    ) by {
        broadcast use vstd::seq_lib::group_filter_ensures;

        assert(names.filter(p).contains(names.filter(p)[i]));
    }
}

} // verus!
