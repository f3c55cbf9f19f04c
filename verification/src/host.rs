//! The browser media bridge: the player state that the browser extension's
//! media events keep up to date, the metadata it is shown with, and the
//! framing of native messages.
use vstd::prelude::*;
use crate::text::str_eq;

verus! {

// ---------------------------------------------------------------------------
// The player state
// ---------------------------------------------------------------------------

/// What the bridge knows of the media playing in the browser; the volume
/// and the playback rate are kept beside it by the caller.
#[derive(Debug, Clone)]
pub struct PlayerState {
    /// `Playing`, `Paused` or `Stopped`.
    pub status: String,
    pub title: String,
    pub artist: String,
    pub album: String,
    pub art_url: String,
    pub url: String,
    pub duration_us: i64,
    pub position_us: i64,
    /// `None`, `Track` or `Playlist`.
    pub loop_status: String,
    pub can_go_next: bool,
    pub can_go_previous: bool,
    pub can_play: bool,
    pub can_pause: bool,
    pub can_seek: bool,
    pub identity: String,
}

/// The player state as the contracts see it.
pub struct PlayerView {
    pub status: Seq<char>,
    pub title: Seq<char>,
    pub artist: Seq<char>,
    pub album: Seq<char>,
    pub art_url: Seq<char>,
    pub url: Seq<char>,
    pub duration_us: i64,
    pub position_us: i64,
    pub loop_status: Seq<char>,
    pub can_go_next: bool,
    pub can_go_previous: bool,
    pub can_play: bool,
    pub can_pause: bool,
    pub can_seek: bool,
    pub identity: Seq<char>,
}

impl View for PlayerState {
    type V = PlayerView;

    open spec fn view(&self) -> PlayerView {
        PlayerView {
            status: self.status@,
            title: self.title@,
            artist: self.artist@,
            album: self.album@,
            art_url: self.art_url@,
            url: self.url@,
            duration_us: self.duration_us,
            position_us: self.position_us,
            loop_status: self.loop_status@,
            can_go_next: self.can_go_next,
            can_go_previous: self.can_go_previous,
            can_play: self.can_play,
            can_pause: self.can_pause,
            can_seek: self.can_seek,
            identity: self.identity@,
        }
    }
}

/// The state before any event: stopped, nothing known, every control but
/// next and previous offered.
pub open spec fn initial_player() -> PlayerView {
    PlayerView {
        status: "Stopped"@,
        title: Seq::empty(),
        artist: Seq::empty(),
        album: Seq::empty(),
        art_url: Seq::empty(),
        url: Seq::empty(),
        duration_us: 0,
        position_us: 0,
        loop_status: "None"@,
        can_go_next: false,
        can_go_previous: false,
        can_play: true,
        can_pause: true,
        can_seek: true,
        identity: "Browser Media"@,
    }
}

impl Default for PlayerState {
    fn default() -> (s: Self)
        ensures
            s@ == initial_player(),
    {
        PlayerState {
            status: "Stopped".to_owned(),
            title: String::new(),
            artist: String::new(),
            album: String::new(),
            art_url: String::new(),
            url: String::new(),
            duration_us: 0,
            position_us: 0,
            loop_status: "None".to_owned(),
            can_go_next: false,
            can_go_previous: false,
            can_play: true,
            can_pause: true,
            can_seek: true,
            identity: "Browser Media".to_owned(),
        }
    }
}

// ---------------------------------------------------------------------------
// Media events
// ---------------------------------------------------------------------------

/// Title, artist and album, where an object gives them as strings.
pub struct TrackFields {
    pub title: Option<String>,
    pub artist: Option<String>,
    pub album: Option<String>,
}

/// The payload of a media event, by what the bridge reads of it. Times are
/// in microseconds; strings are present where the payload gives strings.
pub struct Payload {
    /// `tabTitle`.
    pub tab_title: Option<String>,
    /// `pageTitle`.
    pub page_title: Option<String>,
    /// `duration`.
    pub duration_us: Option<i64>,
    /// `currentTime`.
    pub current_time_us: Option<i64>,
    /// `url`.
    pub url: Option<String>,
    /// `poster`.
    pub poster: Option<String>,
    /// `src`.
    pub src: Option<String>,
    /// The `metadata` member, when it is an object.
    pub metadata: Option<TrackFields>,
    /// The payload itself, when it is an object.
    pub fields: Option<TrackFields>,
    /// The `callbacks` member, when it is an array: each item's string.
    pub callbacks: Option<Vec<Option<String>>>,
    /// The payload itself, when it is an array: each item's string.
    pub items: Option<Vec<Option<String>>>,
}

/// What the caller does beside the update of the state.
#[derive(Debug, Clone, Copy, PartialEq, Eq, Structural)]
pub struct Effects {
    /// Take the payload's `volume`, where it is a number.
    pub take_volume: bool,
    /// Take the payload's `playbackRate`, where it is a number.
    pub take_rate: bool,
    /// Tell D-Bus clients that the properties changed.
    pub emit: bool,
}

pub open spec fn opt_view(s: Option<String>) -> Option<Seq<char>> {
    match s {
        Some(t) => Some(t@),
        None => None,
    }
}

pub open spec fn items_view(v: Seq<Option<String>>) -> Seq<Option<Seq<char>>> {
    v.map_values(|o: Option<String>| opt_view(o))
}

/// One of the items is the string `name`.
pub open spec fn offers(items: Seq<Option<Seq<char>>>, name: Seq<char>) -> bool {
    exists|i: int| 0 <= i < items.len() && #[trigger] items[i] == Some(name)
}

/// The state with the track fields of an object.
pub open spec fn take_track(st: PlayerView, f: TrackFields) -> PlayerView {
    let s1 = match f.title {
        Some(t) => PlayerView { title: t@, ..st },
        None => st,
    };
    let s2 = match f.artist {
        Some(a) => PlayerView { artist: a@, ..s1 },
        None => s1,
    };
    match f.album {
        Some(a) => PlayerView { album: a@, ..s2 },
        None => s2,
    }
}

/// The state with the next and previous controls the page offers.
pub open spec fn take_callbacks(st: PlayerView, items: Seq<Option<Seq<char>>>) -> PlayerView {
    PlayerView {
        can_go_next: offers(items, "nexttrack"@),
        can_go_previous: offers(items, "previoustrack"@),
        ..st
    }
}

/// The state with what a `playing` event tells of the media: the tab title
/// as identity, duration, position, page URL and a non-empty poster as art.
pub open spec fn take_playing_media(st: PlayerView, p: Payload) -> PlayerView {
    let s1 = match p.tab_title {
        Some(t) => PlayerView { identity: t@, ..st },
        None => st,
    };
    let s2 = match p.duration_us {
        Some(d) => PlayerView { duration_us: d, ..s1 },
        None => s1,
    };
    let s3 = match p.current_time_us {
        Some(t) => PlayerView { position_us: t, ..s2 },
        None => s2,
    };
    let s4 = match p.url {
        Some(u) => PlayerView { url: u@, ..s3 },
        None => s3,
    };
    match p.poster {
        Some(q) => if q@.len() > 0 {
            PlayerView { art_url: q@, ..s4 }
        } else {
            s4
        },
        None => s4,
    }
}

/// The state with what a `playing` event tells of the track: the fields of
/// its metadata, the page title where no title is known, and the controls
/// the page offers.
pub open spec fn take_playing_track(st: PlayerView, p: Payload) -> PlayerView {
    let s1 = match p.metadata {
        Some(m) => take_track(st, m),
        None => st,
    };
    let s2 = if s1.title.len() == 0 {
        match p.page_title {
            Some(t) => PlayerView { title: t@, ..s1 },
            None => s1,
        }
    } else {
        s1
    };
    match p.callbacks {
        Some(c) => take_callbacks(s2, items_view(c@)),
        None => s2,
    }
}

/// The state with what a `playing` event tells.
pub open spec fn take_playing(st: PlayerView, p: Payload) -> PlayerView {
    take_playing_track(take_playing_media(st, p), p)
}

/// The state and effects after a message from the extension. Only the
/// `mpris` subsystem is heard; position updates are too frequent to be
/// announced.
pub open spec fn handle_event(st: PlayerView, subsystem: Seq<char>, action: Seq<char>, p: Payload) -> (
    PlayerView,
    Effects,
) {
    let quiet = Effects { take_volume: false, take_rate: false, emit: false };
    let told = Effects { take_volume: false, take_rate: false, emit: true };
    if subsystem != "mpris"@ {
        (st, quiet)
    } else if action == "playing"@ {
        (
            take_playing(PlayerView { status: "Playing"@, ..st }, p),
            Effects { take_volume: true, take_rate: true, emit: true },
        )
    } else if action == "paused"@ {
        (PlayerView { status: "Paused"@, ..st }, told)
    } else if action == "stopped"@ || action == "gone"@ {
        (PlayerView { status: "Stopped"@, ..st }, told)
    } else if action == "duration"@ {
        (
            match p.duration_us {
                Some(d) => PlayerView { duration_us: d, ..st },
                None => st,
            },
            told,
        )
    } else if action == "timeupdate"@ {
        (
            match p.current_time_us {
                Some(t) => PlayerView { position_us: t, ..st },
                None => st,
            },
            quiet,
        )
    } else if action == "ratechange"@ {
        (st, Effects { take_volume: false, take_rate: true, emit: true })
    } else if action == "volumechange"@ {
        (st, Effects { take_volume: true, take_rate: false, emit: true })
    } else if action == "metadata"@ {
        (
            match p.fields {
                Some(f) => take_track(st, f),
                None => st,
            },
            told,
        )
    } else if action == "titlechange"@ {
        (
            match p.page_title {
                Some(t) => PlayerView {
                    title: if st.title.len() == 0 {
                        t@
                    } else {
                        st.title
                    },
                    identity: t@,
                    ..st
                },
                None => st,
            },
            told,
        )
    } else if action == "callbacks"@ {
        (
            match p.items {
                Some(c) => take_callbacks(st, items_view(c@)),
                None => st,
            },
            told,
        )
    } else if action == "artwork"@ {
        (
            match p.src {
                Some(u) => PlayerView { art_url: u@, ..st },
                None => st,
            },
            told,
        )
    } else {
        (st, told)
    }
}

fn clone_opt(s: &Option<String>) -> (r: Option<String>)
    ensures
        opt_view(r) == opt_view(*s),
{
    match s {
        Some(t) => Some(t.clone()),
        None => None,
    }
}

/// Whether one of the items is the string `name`.
fn offers_name(items: &Vec<Option<String>>, name: &str) -> (r: bool)
    ensures
        r == offers(items_view(items@), name@),
{
    let ghost iv = items_view(items@);
    let mut i: usize = 0;
    while i < items.len()
        invariant
            i <= items.len(),
            iv == items_view(items@),
            forall|j: int| 0 <= j < i ==> iv[j] != Some(name@),
        decreases items.len() - i,
    {
        match &items[i] {
            Some(s) => {
                if str_eq(s.as_str(), name) {
                    assert(iv[i as int] == Some(name@));
                    return true;
                }
            },
            None => {},
        }
        i = i + 1;
    }
    false
}

impl PlayerState {
    fn apply_track(&mut self, f: &TrackFields)
        ensures
            final(self)@ == take_track(old(self)@, *f),
    {
        match &f.title {
            Some(t) => {
                self.title = t.clone();
            },
            None => {},
        }
        match &f.artist {
            Some(a) => {
                self.artist = a.clone();
            },
            None => {},
        }
        match &f.album {
            Some(a) => {
                self.album = a.clone();
            },
            None => {},
        }
    }

    fn apply_callbacks(&mut self, items: &Vec<Option<String>>)
        ensures
            final(self)@ == take_callbacks(old(self)@, items_view(items@)),
    {
        self.can_go_next = offers_name(items, "nexttrack");
        self.can_go_previous = offers_name(items, "previoustrack");
    }

    fn take_media_fields(&mut self, payload: &Payload)
        ensures
            final(self)@ == take_playing_media(old(self)@, *payload),
    {
        match &payload.tab_title {
            Some(t) => {
                self.identity = t.clone();
            },
            None => {},
        }
        match payload.duration_us {
            Some(d) => {
                self.duration_us = d;
            },
            None => {},
        }
        match payload.current_time_us {
            Some(t) => {
                self.position_us = t;
            },
            None => {},
        }
        match &payload.url {
            Some(u) => {
                self.url = u.clone();
            },
            None => {},
        }
        match &payload.poster {
            Some(q) => {
                if q.as_str().unicode_len() > 0 {
                    self.art_url = q.clone();
                }
            },
            None => {},
        }
    }

    fn take_track_fields(&mut self, payload: &Payload)
        ensures
            final(self)@ == take_playing_track(old(self)@, *payload),
    {
        match &payload.metadata {
            Some(m) => self.apply_track(m),
            None => {},
        }
        if self.title.as_str().unicode_len() == 0 {
            match &payload.page_title {
                Some(t) => {
                    self.title = t.clone();
                },
                None => {},
            }
        }
        match &payload.callbacks {
            Some(c) => self.apply_callbacks(c),
            None => {},
        }
    }

    /// Takes what a `playing` event's payload tells of the media.
    pub fn update_from_payload(&mut self, payload: &Payload)
        ensures
            final(self)@ == take_playing(old(self)@, *payload),
    {
        self.take_media_fields(payload);
        self.take_track_fields(payload);
    }

    /// Handles a message from the browser extension: updates the state and
    /// says what else is to be done.
    pub fn handle_extension_message(&mut self, subsystem: &str, action: &str, payload: &Payload) -> (e:
        Effects)
        ensures
            (final(self)@, e) == handle_event(old(self)@, subsystem@, action@, *payload),
    {
        let quiet = Effects { take_volume: false, take_rate: false, emit: false };
        let told = Effects { take_volume: false, take_rate: false, emit: true };
        if !str_eq(subsystem, "mpris") {
            return quiet;
        }
        if str_eq(action, "playing") {
            self.status = "Playing".to_owned();
            self.update_from_payload(payload);
            Effects { take_volume: true, take_rate: true, emit: true }
        } else if str_eq(action, "paused") {
            self.status = "Paused".to_owned();
            told
        } else if str_eq(action, "stopped") || str_eq(action, "gone") {
            self.status = "Stopped".to_owned();
            told
        } else if str_eq(action, "duration") {
            match payload.duration_us {
                Some(d) => {
                    self.duration_us = d;
                },
                None => {},
            }
            told
        } else if str_eq(action, "timeupdate") {
            match payload.current_time_us {
                Some(t) => {
                    self.position_us = t;
                },
                None => {},
            }
            quiet
        } else if str_eq(action, "ratechange") {
            Effects { take_volume: false, take_rate: true, emit: true }
        } else if str_eq(action, "volumechange") {
            Effects { take_volume: true, take_rate: false, emit: true }
        } else if str_eq(action, "metadata") {
            match &payload.fields {
                Some(f) => self.apply_track(f),
                None => {},
            }
            told
        } else if str_eq(action, "titlechange") {
            match &payload.page_title {
                Some(t) => {
                    if self.title.as_str().unicode_len() == 0 {
                        self.title = t.clone();
                    }
                    self.identity = t.clone();
                },
                None => {},
            }
            told
        } else if str_eq(action, "callbacks") {
            match &payload.items {
                Some(c) => self.apply_callbacks(c),
                None => {},
            }
            told
        } else if str_eq(action, "artwork") {
            match &payload.src {
                Some(u) => {
                    self.art_url = u.clone();
                },
                None => {},
            }
            told
        } else {
            told
        }
    }

    /// The position a relative seek by `offset` microseconds asks for,
    /// never before the start.
    pub fn seek_position(&self, offset: i64) -> (p: i64)
        requires
            i64::MIN <= self.position_us + offset <= i64::MAX,
        ensures
            p == (if self.position_us + offset > 0 {
                self.position_us + offset
            } else {
                0
            }),
    {
        let p = self.position_us + offset;
        if p > 0 {
            p
        } else {
            0
        }
    }

    /// The MPRIS metadata of the media, in the order given: always a track
    /// id, then each known text, and the length when it is positive.
    pub fn metadata_entries(&self) -> (r: Vec<(&'static str, DbusValue)>)
        ensures
            entries_view(r@) == metadata_of(self@),
    {
        let mut r: Vec<(&'static str, DbusValue)> = Vec::new();
        r.push(("mpris:trackid", DbusValue::ObjectPath("/org/mpris/MediaPlayer2/telemax".to_owned())));
        let ghost e0 = entries_view(r@);
        if self.title.as_str().unicode_len() > 0 {
            r.push(("xesam:title", DbusValue::Str(self.title.clone())));
        }
        let ghost e1 = entries_view(r@);
        if self.artist.as_str().unicode_len() > 0 {
            let mut list: Vec<String> = Vec::new();
            list.push(self.artist.clone());
            assert(crate::settings::strings_view(list@) =~= seq![self.artist@]);
            r.push(("xesam:artist", DbusValue::StrList(list)));
        }
        let ghost e2 = entries_view(r@);
        if self.album.as_str().unicode_len() > 0 {
            r.push(("xesam:album", DbusValue::Str(self.album.clone())));
        }
        let ghost e3 = entries_view(r@);
        if self.art_url.as_str().unicode_len() > 0 {
            r.push(("mpris:artUrl", DbusValue::Str(self.art_url.clone())));
        }
        let ghost e4 = entries_view(r@);
        if self.url.as_str().unicode_len() > 0 {
            r.push(("xesam:url", DbusValue::Str(self.url.clone())));
        }
        let ghost e5 = entries_view(r@);
        if self.duration_us > 0 {
            r.push(("mpris:length", DbusValue::I64(self.duration_us)));
        }
        proof {
            let st = self@;
            assert(e0 =~= seq![("mpris:trackid"@, DbusView::ObjectPath("/org/mpris/MediaPlayer2/telemax"@))]);
            assert(e1 =~= e0 + if st.title.len() > 0 {
                seq![("xesam:title"@, DbusView::Str(st.title))]
            } else {
                Seq::empty()
            });
            assert(e2 =~= e1 + if st.artist.len() > 0 {
                seq![("xesam:artist"@, DbusView::StrList(seq![st.artist]))]
            } else {
                Seq::empty()
            });
            assert(e3 =~= e2 + if st.album.len() > 0 {
                seq![("xesam:album"@, DbusView::Str(st.album))]
            } else {
                Seq::empty()
            });
            assert(e4 =~= e3 + if st.art_url.len() > 0 {
                seq![("mpris:artUrl"@, DbusView::Str(st.art_url))]
            } else {
                Seq::empty()
            });
            assert(e5 =~= e4 + if st.url.len() > 0 {
                seq![("xesam:url"@, DbusView::Str(st.url))]
            } else {
                Seq::empty()
            });
            assert(entries_view(r@) =~= e5 + if st.duration_us > 0 {
                seq![("mpris:length"@, DbusView::I64(st.duration_us))]
            } else {
                Seq::empty()
            });
        }
        r
    }
}

/// A value of the MPRIS metadata.
pub enum DbusValue {
    ObjectPath(String),
    Str(String),
    StrList(Vec<String>),
    I64(i64),
}

/// A metadata value as the contracts see it.
pub enum DbusView {
    ObjectPath(Seq<char>),
    Str(Seq<char>),
    StrList(Seq<Seq<char>>),
    I64(i64),
}

pub open spec fn dbus_view(v: DbusValue) -> DbusView {
    match v {
        DbusValue::ObjectPath(p) => DbusView::ObjectPath(p@),
        DbusValue::Str(s) => DbusView::Str(s@),
        DbusValue::StrList(l) => DbusView::StrList(crate::settings::strings_view(l@)),
        DbusValue::I64(n) => DbusView::I64(n),
    }
}

pub open spec fn entries_view(e: Seq<(&str, DbusValue)>) -> Seq<(Seq<char>, DbusView)> {
    e.map_values(|x: (&str, DbusValue)| (x.0@, dbus_view(x.1)))
}

/// The entry for `key` holding `v`, present when `present` holds.
pub open spec fn entry_if(present: bool, key: Seq<char>, v: DbusView) -> Seq<(Seq<char>, DbusView)> {
    if present {
        seq![(key, v)]
    } else {
        Seq::empty()
    }
}

/// The MPRIS metadata of a player state.
pub open spec fn metadata_of(st: PlayerView) -> Seq<(Seq<char>, DbusView)> {
    seq![("mpris:trackid"@, DbusView::ObjectPath("/org/mpris/MediaPlayer2/telemax"@))] + entry_if(
        st.title.len() > 0,
        "xesam:title"@,
        DbusView::Str(st.title),
    ) + entry_if(st.artist.len() > 0, "xesam:artist"@, DbusView::StrList(seq![st.artist]))
        + entry_if(st.album.len() > 0, "xesam:album"@, DbusView::Str(st.album)) + entry_if(
        st.art_url.len() > 0,
        "mpris:artUrl"@,
        DbusView::Str(st.art_url),
    ) + entry_if(st.url.len() > 0, "xesam:url"@, DbusView::Str(st.url)) + entry_if(
        st.duration_us > 0,
        "mpris:length"@,
        DbusView::I64(st.duration_us),
    )
}

// ---------------------------------------------------------------------------
// Native messaging frames
// ---------------------------------------------------------------------------

/// The largest message the bridge reads, in bytes.
pub const MAX_MESSAGE_LEN: u32 = 1048576;

/// The number a four-byte little-endian header holds.
pub open spec fn le_u32(b: Seq<u8>) -> int {
    b[0] + 256 * b[1] + 65536 * b[2] + 16777216 * b[3]
}

/// The four little-endian bytes of a number below 2^32.
pub open spec fn le_bytes(n: int) -> Seq<u8> {
    seq![(n % 256) as u8, ((n / 256) % 256) as u8, ((n / 65536) % 256) as u8, ((n / 16777216) % 256) as u8]
}

/// Why a frame header is refused.
#[derive(Debug, Clone, Copy, PartialEq, Eq, Structural)]
pub enum FrameError {
    /// The header announces more than `MAX_MESSAGE_LEN` bytes.
    TooLarge,
}

/// The length a frame header announces, when the bridge accepts it.
pub fn frame_length(header: [u8; 4]) -> (r: Result<usize, FrameError>)
    ensures
        le_u32(header@) <= MAX_MESSAGE_LEN ==> r == Ok::<usize, FrameError>(le_u32(header@) as usize),
        le_u32(header@) > MAX_MESSAGE_LEN ==> r == Err::<usize, FrameError>(FrameError::TooLarge),
{
    let n: u32 = header[0] as u32 + 256 * (header[1] as u32) + 65536 * (header[2] as u32) + 16777216
        * (header[3] as u32);
    if n > MAX_MESSAGE_LEN {
        Err(FrameError::TooLarge)
    } else {
        Ok(n as usize)
    }
}

#[verifier::external_type_specification]
#[verifier::external_body]
pub struct ExJsonValue(serde_json::Value);

/// Whether `serde_json::from_slice::<serde_json::Value>` reads a body:
/// `None` where it does, else the text of its error.
pub uninterp spec fn json_body_error(body: Seq<u8>) -> Option<Seq<char>>;

/// `serde_json::from_slice::<serde_json::Value>`, the error given by its
/// text. The value read is opaque here: what it holds is left unsaid.
#[verifier::external_body]
fn parse_json(body: &[u8]) -> (r: Result<serde_json::Value, String>)
    ensures
        match r {
            Ok(_) => json_body_error(body@) is None,
            Err(e) => json_body_error(body@) == Some(e@),
        },
{
    serde_json::from_slice::<serde_json::Value>(body).map_err(|e| e.to_string())
}

/// Why a framed message is refused.
pub enum MessageError {
    /// The header announces more than `MAX_MESSAGE_LEN` bytes.
    TooLarge,
    /// The body is no JSON document; the parse error's text.
    Malformed(String),
}

/// A framed message from its header and its body: refused when the header
/// announces too much, else the body read as JSON, or the parse error.
pub fn decode_message(header: [u8; 4], body: &[u8]) -> (r: Result<serde_json::Value, MessageError>)
    requires
        le_u32(header@) <= MAX_MESSAGE_LEN ==> body@.len() == le_u32(header@),
    ensures
        le_u32(header@) > MAX_MESSAGE_LEN ==> r matches Err(MessageError::TooLarge),
        le_u32(header@) <= MAX_MESSAGE_LEN ==> match json_body_error(body@) {
            None => r is Ok,
            Some(e) => r matches Err(MessageError::Malformed(m)) && m@ == e,
        },
{
    match frame_length(header) {
        Err(FrameError::TooLarge) => Err(MessageError::TooLarge),
        Ok(_) => match parse_json(body) {
            Ok(v) => Ok(v),
            Err(e) => Err(MessageError::Malformed(e)),
        },
    }
}

/// The header of a frame of `len` bytes: the length, cut to 32 bits, in
/// little-endian order.
pub fn frame_header(len: usize) -> (h: [u8; 4])
    ensures
        h@ == le_bytes(len as int % 4294967296),
{
    let n: u32 = (len as u64 % 4294967296) as u32;
    [(n % 256) as u8, ((n / 256) % 256) as u8, ((n / 65536) % 256) as u8, (n / 16777216) as u8]
}

/// A header written for a length below 2^32 reads back as that length.
pub proof fn law_frame_header_round_trip(n: int)
    requires
        0 <= n < 4294967296,
    ensures
        le_u32(le_bytes(n)) == n,
{
    let b = le_bytes(n);
    assert(b[0] == n % 256);
    assert(b[1] == (n / 256) % 256);
    assert(b[2] == (n / 65536) % 256);
    assert(b[3] == (n / 16777216) % 256);
    assert(n % 256 + 256 * ((n / 256) % 256) + 65536 * ((n / 65536) % 256) + 16777216 * ((n
        / 16777216) % 256) == n) by (nonlinear_arith)
        requires
            0 <= n < 4294967296,
    ;
}

// ---------------------------------------------------------------------------
// Laws
// ---------------------------------------------------------------------------

/// Messages of another subsystem change nothing and are not announced.
pub proof fn law_other_subsystems_ignored(st: PlayerView, subsystem: Seq<char>, action: Seq<char>, p: Payload)
    requires
        subsystem != "mpris"@,
    ensures
        handle_event(st, subsystem, action, p) == (st, Effects {
            take_volume: false,
            take_rate: false,
            emit: false,
        }),
{
}

/// Every heard event but a position update is announced, and a position
/// update touches only the position.
pub proof fn law_announcements(st: PlayerView, action: Seq<char>, p: Payload)
    ensures
        handle_event(st, "mpris"@, action, p).1.emit == (action != "timeupdate"@),
        action == "timeupdate"@ ==> handle_event(st, "mpris"@, action, p).0 == (match p.current_time_us {
            Some(t) => PlayerView { position_us: t, ..st },
            None => st,
        }),
{
    reveal_strlit("mpris");
    reveal_strlit("playing");
    reveal_strlit("paused");
    reveal_strlit("stopped");
    reveal_strlit("gone");
    reveal_strlit("duration");
    reveal_strlit("timeupdate");
    reveal_strlit("ratechange");
    reveal_strlit("volumechange");
    reveal_strlit("metadata");
    reveal_strlit("titlechange");
    reveal_strlit("callbacks");
    reveal_strlit("artwork");
    assert("timeupdate"@.len() == 10);
    assert("playing"@.len() == 7);
    assert("paused"@.len() == 6);
    assert("stopped"@.len() == 7);
    assert("gone"@.len() == 4);
    assert("duration"@.len() == 8);
    assert("timeupdate"@ != "playing"@);
    assert("timeupdate"@ != "paused"@);
    assert("timeupdate"@ != "stopped"@);
    assert("timeupdate"@ != "gone"@);
    assert("timeupdate"@ != "duration"@);
}

/// The playback status only ever takes the three MPRIS values, once it has
/// one of them.
pub proof fn law_status_values(st: PlayerView, subsystem: Seq<char>, action: Seq<char>, p: Payload)
    requires
        st.status == "Playing"@ || st.status == "Paused"@ || st.status == "Stopped"@,
    ensures
        ({
            let s = handle_event(st, subsystem, action, p).0.status;
            s == "Playing"@ || s == "Paused"@ || s == "Stopped"@
        }),
{
    let q = PlayerView { status: "Playing"@, ..st };
    assert(take_playing_media(q, p).status == q.status);
    let m = take_playing_media(q, p);
    assert(take_playing_track(m, p).status == m.status) by {
        match p.metadata {
            Some(f) => {
                assert(take_track(m, f).status == m.status);
            },
            None => {},
        }
    }
}

/// Taking the same payload a second time changes nothing more: what a
/// payload tells of the media and the track is set, not added to.
pub proof fn law_update_idempotent(st: PlayerView, p: Payload)
    ensures
        take_playing(take_playing(st, p), p) == take_playing(st, p),
{
    let m = take_playing_media(st, p);
    let a = take_playing_track(m, p);
    lemma_track_keeps_media(m, p);
    lemma_media_settled(st, a, p);
    lemma_track_idempotent(m, p);
}

/// What a `playing` event tells of the track leaves the media fields alone.
proof fn lemma_track_keeps_media(st: PlayerView, p: Payload)
    ensures
        take_playing_track(st, p).identity == st.identity,
        take_playing_track(st, p).duration_us == st.duration_us,
        take_playing_track(st, p).position_us == st.position_us,
        take_playing_track(st, p).url == st.url,
        take_playing_track(st, p).art_url == st.art_url,
{
}

/// A state whose media fields already hold what a payload tells is left as
/// it is by taking that payload's media again.
proof fn lemma_media_settled(st: PlayerView, a: PlayerView, p: Payload)
    requires
        a.identity == take_playing_media(st, p).identity,
        a.duration_us == take_playing_media(st, p).duration_us,
        a.position_us == take_playing_media(st, p).position_us,
        a.url == take_playing_media(st, p).url,
        a.art_url == take_playing_media(st, p).art_url,
    ensures
        take_playing_media(a, p) == a,
{
}

/// Taking a payload's track fields twice is taking them once.
proof fn lemma_track_idempotent(st: PlayerView, p: Payload)
    ensures
        take_playing_track(take_playing_track(st, p), p) == take_playing_track(st, p),
{
    let s1 = match p.metadata {
        Some(f) => take_track(st, f),
        None => st,
    };
    let a = take_playing_track(st, p);
    let t1 = match p.metadata {
        Some(f) => take_track(a, f),
        None => a,
    };
    assert(t1.title.len() == 0 ==> s1.title.len() == 0);
    assert(t1.title.len() != 0 ==> t1.title == a.title);
}

/// The playback status follows the extension's events: `playing` plays,
/// `paused` pauses, `stopped` and `gone` both stop, each announced; no other
/// event of any subsystem changes the status.
pub proof fn law_status_follows_events(st: PlayerView, action: Seq<char>, other: Seq<char>, p: Payload)
    requires
        other != "mpris"@,
    ensures
        handle_event(st, "mpris"@, "playing"@, p).0.status == "Playing"@,
        handle_event(st, "mpris"@, "playing"@, p).1.emit,
        handle_event(st, "mpris"@, "paused"@, p) == (
            PlayerView { status: "Paused"@, ..st },
            Effects { take_volume: false, take_rate: false, emit: true },
        ),
        handle_event(st, "mpris"@, "stopped"@, p) == (
            PlayerView { status: "Stopped"@, ..st },
            Effects { take_volume: false, take_rate: false, emit: true },
        ),
        handle_event(st, "mpris"@, "gone"@, p) == (
            PlayerView { status: "Stopped"@, ..st },
            Effects { take_volume: false, take_rate: false, emit: true },
        ),
        action != "playing"@ && action != "paused"@ && action != "stopped"@ && action != "gone"@
            ==> handle_event(st, "mpris"@, action, p).0.status == st.status,
        handle_event(st, other, action, p).0 == st,
{
    reveal_strlit("mpris");
    reveal_strlit("playing");
    reveal_strlit("paused");
    reveal_strlit("stopped");
    reveal_strlit("gone");
    assert("paused"@[1] != "playing"@[1]);
    assert("stopped"@[0] != "playing"@[0] && "stopped"@[0] != "paused"@[0]);
    assert("gone"@.len() != "playing"@.len() && "gone"@.len() != "paused"@.len());
    assert("gone"@[0] != "stopped"@[0]);
    let q = PlayerView { status: "Playing"@, ..st };
    let m = take_playing_media(q, p);
    assert(m.status == q.status);
    assert(take_playing_track(m, p).status == m.status) by {
        match p.metadata {
            Some(f) => {
                assert(take_track(m, f).status == m.status);
            },
            None => {},
        }
    }
    match p.fields {
        Some(f) => {
            assert(take_track(st, f).status == st.status);
        },
        None => {},
    }
}

} // verus!
