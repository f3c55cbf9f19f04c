//! Device pairing: a phone registers a code, the user approves it on the
//! desktop, and the phone collects a session token whose SHA-256 hash is
//! kept as the proof of pairing.
use vstd::prelude::*;
use vstd::hash_map::StringHashMap;
use std::time::Duration;
use std::time::Instant;
use sha2::Digest;
use sha2::Sha256;
use crate::text::has_prefix;
use crate::text::strip_prefix;
use crate::text::trim;
use crate::text::trim_str;
use crate::text::chars_of;

verus! {

/// How long a pairing request waits for approval, in seconds.
pub const PAIR_TTL_SECS: u64 = 300;

/// The same span in nanoseconds, the unit of the pairing clock.
pub const PAIR_TTL_NANOS: u128 = 300_000_000_000;

// ---------------------------------------------------------------------------
// Outside items
// ---------------------------------------------------------------------------

#[verifier::external_type_specification]
#[verifier::external_body]
pub struct ExInstant(std::time::Instant);

/// `Instant::now`: a reading of the monotonic clock. Nothing is promised of
/// its value.
#[verifier::external_body]
fn instant_now() -> Instant {
    Instant::now()
}

/// `Instant::elapsed`: the time since `origin` by the monotonic clock.
/// Nothing is promised of the value: it depends on when it is called.
#[verifier::external_body]
fn instant_elapsed(origin: &Instant) -> Duration {
    origin.elapsed()
}

/// `Duration::as_nanos`: the length of a duration in whole nanoseconds.
/// A `Duration` is opaque here, so nothing is stated of the number.
#[verifier::external_body]
fn duration_as_nanos(d: &Duration) -> u128 {
    d.as_nanos()
}

/// The SHA-256 digest of a byte string.
pub uninterp spec fn sha256(data: Seq<u8>) -> Seq<u8>;

/// `sha2::Sha256` fed `data` and finalized: the digest of `data`, which is
/// 32 bytes long.
#[verifier::external_body]
fn sha256_digest(data: &[u8]) -> (d: Vec<u8>)
    ensures
        d@ == sha256(data@),
        d@.len() == 32,
{
    let mut hasher = Sha256::new();
    hasher.update(data);
    hasher.finalize().to_vec()
}

/// The lower-case hexadecimal digit for `n` (0 to 15).
pub open spec fn hex_digit(n: int) -> char {
    if n < 10 {
        (48 + n) as char
    } else {
        (87 + n) as char
    }
}

/// Each byte as two lower-case hexadecimal digits, high nibble first.
pub open spec fn hex_lower(bytes: Seq<u8>) -> Seq<char>
    decreases bytes.len(),
{
    if bytes.len() == 0 {
        Seq::empty()
    } else {
        seq![hex_digit((bytes[0] / 16) as int), hex_digit((bytes[0] % 16) as int)] + hex_lower(bytes.drop_first())
    }
}

/// `hex::encode`: each byte as two lower-case hexadecimal digits, in order.
#[verifier::external_body]
fn hex_encode(data: &[u8]) -> (s: String)
    ensures
        s@ == hex_lower(data@),
{
    hex::encode(data)
}

/// A session token as `Uuid::new_v4().to_string()` writes it: 36
/// characters, hyphens at positions 8, 13, 18 and 23, lower-case
/// hexadecimal digits elsewhere; the version digit at position 14 is `4`
/// and the variant digit at position 19 is one of `8`, `9`, `a`, `b`.
pub open spec fn is_token_shape(t: Seq<char>) -> bool {
    &&& t.len() == 36
    &&& forall|i: int|
        0 <= i < 36 ==> if i == 8 || i == 13 || i == 18 || i == 23 {
            t[i] == '-'
        } else {
            ('0' <= #[trigger] t[i] && t[i] <= '9') || ('a' <= t[i] && t[i] <= 'f')
        }
    &&& t[14] == '4'
    &&& (t[19] == '8' || t[19] == '9' || t[19] == 'a' || t[19] == 'b')
}

/// `uuid::Uuid::new_v4` written out by `to_string`: a random token in the
/// hyphenated lower-case form. Which token comes out is left unsaid: it is
/// drawn at random.
#[verifier::external_body]
fn new_session_token() -> (t: String)
    ensures
        is_token_shape(t@),
{
    uuid::Uuid::new_v4().to_string()
}

/// What `serde_json::from_str::<Vec<String>>` reads from a text: the list
/// of strings, or `None` where the text is not a JSON array of strings.
pub uninterp spec fn json_string_list(text: Seq<char>) -> Option<Seq<Seq<char>>>;

/// `serde_json::from_str::<Vec<String>>`, its error mapped to `None`.
#[verifier::external_body]
fn parse_string_list(text: &str) -> (r: Option<Vec<String>>)
    ensures
        match r {
            Some(v) => json_string_list(text@) == Some(crate::settings::strings_view(v@)),
            None => json_string_list(text@) is None,
        },
{
    serde_json::from_str::<Vec<String>>(text).ok()
}

/// What `serde_json::to_string_pretty` writes for a list of strings.
pub uninterp spec fn json_pretty_string_list(v: Seq<Seq<char>>) -> Seq<char>;

/// `serde_json::to_string_pretty` on a list of strings: the pretty JSON of
/// the list. It cannot fail here: it fails only where a `Serialize` impl
/// fails or a map has keys that are not strings, and a list of strings has
/// neither. Reading the text back with `serde_json::from_str` gives the
/// same list.
#[verifier::external_body]
fn string_list_to_json(v: &Vec<String>) -> (r: Option<String>)
    ensures
        r is Some,
        r matches Some(s) ==> s@ == json_pretty_string_list(crate::settings::strings_view(v@)),
        r matches Some(s) ==> json_string_list(s@) == Some(crate::settings::strings_view(v@)),
{
    serde_json::to_string_pretty(v).ok()
}

// ---------------------------------------------------------------------------
// The model
// ---------------------------------------------------------------------------

/// The stored form of a session token: the lower-case hex of the SHA-256 of
/// its UTF-8 bytes.
pub open spec fn token_hash(token: Seq<char>) -> Seq<char> {
    hex_lower(sha256(vstd::utf8::encode_utf8(token)))
}

/// A pending request as the contracts see it.
pub struct PendingView {
    pub token: Option<Seq<char>>,
    pub created: u128,
}

/// The pairing state as the contracts see it: the hashes of the active
/// session tokens, and the pending requests by code.
pub struct PairingModel {
    pub sessions: Set<Seq<char>>,
    pub pending: Map<Seq<char>, PendingView>,
}

/// A request made at `created` has expired at `now` once the time to live
/// has passed (a clock that went back counts as no time passed).
pub open spec fn expired(p: PendingView, now: u128) -> bool {
    now - p.created >= PAIR_TTL_NANOS
}

/// The pending requests that have not expired at `now`.
pub open spec fn purge(pending: Map<Seq<char>, PendingView>, now: u128) -> Map<
    Seq<char>,
    PendingView,
> {
    Map::new(|k: Seq<char>| pending.contains_key(k) && !expired(pending[k], now), |k: Seq<char>| pending[k])
}

/// Registering `code` at `now`: expired requests are dropped; the code is
/// refused if it is still pending, and otherwise waits for approval.
pub open spec fn register_step(s: PairingModel, code: Seq<char>, now: u128) -> (PairingModel, bool) {
    let p = purge(s.pending, now);
    if p.contains_key(code) {
        (PairingModel { sessions: s.sessions, pending: p }, false)
    } else {
        (
            PairingModel {
                sessions: s.sessions,
                pending: p.insert(code, PendingView { token: None, created: now }),
            },
            true,
        )
    }
}

/// Approving `code` with the fresh `token`: only a pending request without a
/// token is approved; its token is recorded and the token's hash becomes an
/// active session.
pub open spec fn approve_step(s: PairingModel, code: Seq<char>, token: Seq<char>) -> (
    PairingModel,
    bool,
) {
    if s.pending.contains_key(code) && s.pending[code].token is None {
        (
            PairingModel {
                sessions: s.sessions.insert(token_hash(token)),
                pending: s.pending.insert(
                    code,
                    PendingView { token: Some(token), created: s.pending[code].created },
                ),
            },
            true,
        )
    } else {
        (s, false)
    }
}

/// The answer to a poll, as the contracts see it.
pub enum PollView {
    Pending,
    Approved(Seq<char>),
    Expired,
    NotFound,
}

/// Polling `code` at `now`: an expired request is dropped and reported; an
/// approved one is dropped and its token handed out once; a waiting one
/// stays.
pub open spec fn poll_step(s: PairingModel, code: Seq<char>, now: u128) -> (PairingModel, PollView) {
    if !s.pending.contains_key(code) {
        (s, PollView::NotFound)
    } else if expired(s.pending[code], now) {
        (PairingModel { sessions: s.sessions, pending: s.pending.remove(code) }, PollView::Expired)
    } else {
        match s.pending[code].token {
            Some(t) => (
                PairingModel { sessions: s.sessions, pending: s.pending.remove(code) },
                PollView::Approved(t),
            ),
            None => (s, PollView::Pending),
        }
    }
}

/// A token is valid when its hash is an active session.
pub open spec fn verify_step(s: PairingModel, token: Seq<char>) -> bool {
    s.sessions.contains(token_hash(token))
}

/// The sessions found in a saved session file, if it could be read.
pub open spec fn saved_sessions(saved: Option<Seq<char>>) -> Set<Seq<char>> {
    match saved {
        Some(text) => match json_string_list(text) {
            Some(list) => list.to_set(),
            None => Set::empty(),
        },
        None => Set::empty(),
    }
}

// ---------------------------------------------------------------------------
// The state
// ---------------------------------------------------------------------------

/// A pending pairing request from a client device.
pub struct PendingPair {
    /// The session token (raw) once approved, `None` while pending.
    pub token: Option<String>,
    /// When the request was made, in nanoseconds of the pairing clock.
    pub created: u128,
}

impl View for PendingPair {
    type V = PendingView;

    open spec fn view(&self) -> PendingView {
        PendingView {
            token: match self.token {
                Some(t) => Some(t@),
                None => None,
            },
            created: self.created,
        }
    }
}

/// The outcome of a poll for a pairing request.
pub enum PollResult {
    Pending,
    Approved(String),
    Expired,
    NotFound,
}

impl View for PollResult {
    type V = PollView;

    open spec fn view(&self) -> PollView {
        match self {
            PollResult::Pending => PollView::Pending,
            PollResult::Approved(t) => PollView::Approved(t@),
            PollResult::Expired => PollView::Expired,
            PollResult::NotFound => PollView::NotFound,
        }
    }
}

/// The tables of the pairing state: the active sessions and the pending
/// requests, with the list of their codes.
struct PairingTables {
    /// Hashes of the active session tokens, each once.
    sessions: Vec<String>,
    /// Pending requests by code.
    pending: StringHashMap<PendingPair>,
    /// The codes of the pending requests, each once.
    codes: Vec<String>,
}

/// Active sessions and pending pairing requests, with the pairing clock:
/// its start, and the last reading taken of it.
pub struct PairingState {
    tables: PairingTables,
    origin: Instant,
    last_reading: u128,
}

/// `v` holds no string twice.
pub open spec fn distinct_strings(v: Seq<String>) -> bool {
    forall|i: int, j: int| 0 <= i < j < v.len() ==> v[i]@ != v[j]@
}

/// `k` is the view of one of the strings of `v`.
pub open spec fn holds_string(v: Seq<String>, k: Seq<char>) -> bool {
    exists|i: int| 0 <= i < v.len() && v[i]@ == k
}

/// `k` is the view of one of the first `n` strings of `v`.
pub open spec fn holds_string_in(v: Seq<String>, k: Seq<char>, n: int) -> bool {
    exists|i: int| 0 <= i < n && i < v.len() && #[trigger] v[i]@ == k
}

impl PairingTables {
    /// The fields agree: no duplicates, and the code list names exactly the
    /// pending requests.
    spec fn wf(&self) -> bool {
        &&& distinct_strings(self.sessions@)
        &&& distinct_strings(self.codes@)
        &&& forall|k: Seq<char>| #[trigger]
            self.pending@.contains_key(k) <==> holds_string(self.codes@, k)
    }

    /// The tables as the contracts see them.
    spec fn model(&self) -> PairingModel {
        PairingModel {
            sessions: Set::new(|h: Seq<char>| holds_string(self.sessions@, h)),
            pending: self.pending@.map_values(|p: PendingPair| p@),
        }
    }

    /// Tables with no session and no pending request.
    fn empty() -> (t: Self)
        ensures
            t.wf(),
            t.model().sessions == Set::<Seq<char>>::empty(),
            t.model().pending == Map::<Seq<char>, PendingView>::empty(),
    {
        let t = PairingTables { sessions: Vec::new(), pending: StringHashMap::new(), codes: Vec::new() };
        proof {
            assert(t.model().sessions =~= Set::<Seq<char>>::empty());
            assert(t.model().pending =~= Map::<Seq<char>, PendingView>::empty());
        }
        t
    }

    /// Tables with the sessions of a saved session file (`None` where the
    /// file could not be read) and no pending request.
    fn from_saved(saved: Option<&str>) -> (s: Self)
        ensures
            s.wf(),
            s.model().sessions == saved_sessions(
                match saved {
                    Some(t) => Some(t@),
                    None => None,
                },
            ),
            s.model().pending == Map::<Seq<char>, PendingView>::empty(),
    {
        let list: Vec<String> = match saved {
            Some(text) => match parse_string_list(text) {
                Some(v) => v,
                None => Vec::new(),
            },
            None => Vec::new(),
        };
        let mut s = PairingTables::empty();
        let ghost lv = crate::settings::strings_view(list@);
        let mut i: usize = 0;
        while i < list.len()
            invariant
                s.wf(),
                i <= list.len(),
                lv == crate::settings::strings_view(list@),
                s.model().sessions == lv.take(i as int).to_set(),
                s.model().pending == Map::<Seq<char>, PendingView>::empty(),
            decreases list.len() - i,
        {
            s.add_session(list[i].clone());
            proof {
                let t0 = lv.take(i as int);
                let t1 = lv.take(i + 1);
                assert forall|h: Seq<char>| t1.contains(h) <==> (t0.contains(h) || h == lv[i as int]) by {
                    if t1.contains(h) {
                        let j = choose|j: int| 0 <= j < t1.len() && #[trigger] t1[j] == h;
                        if j < i {
                            assert(t0[j] == h);
                        }
                    }
                    if t0.contains(h) {
                        let j = choose|j: int| 0 <= j < t0.len() && #[trigger] t0[j] == h;
                        assert(t1[j] == h);
                    }
                    if h == lv[i as int] {
                        assert(t1[i as int] == h);
                    }
                }
                assert(s.model().sessions =~= lv.take(i + 1).to_set());
            }
            i = i + 1;
        }
        assert(lv.take(list.len() as int) =~= lv);
        proof {
            assert(s.model().pending =~= Map::<Seq<char>, PendingView>::empty());
        }
        s
    }

    /// Adds a hash to the active sessions, once.
    fn add_session(&mut self, h: String)
        requires
            old(self).wf(),
        ensures
            final(self).wf(),
            final(self).model().sessions == old(self).model().sessions.insert(h@),
            final(self).model().pending == old(self).model().pending,
    {
        let mut i: usize = 0;
        while i < self.sessions.len()
            invariant
                self.wf(),
                self.sessions@ == old(self).sessions@,
                self.pending@ == old(self).pending@,
                self.codes@ == old(self).codes@,
                i <= self.sessions.len(),
                forall|j: int| 0 <= j < i ==> self.sessions@[j]@ != h@,
            decreases self.sessions.len() - i,
        {
            if self.sessions[i] == h {
                assert(holds_string(self.sessions@, h@));
                assert(self.model().sessions =~= self.model().sessions.insert(h@));
                return;
            }
            i = i + 1;
        }
        let ghost before = self.sessions@;
        self.sessions.push(h);
        assert(distinct_strings(self.sessions@)) by {
            assert forall|a: int, b: int| 0 <= a < b < self.sessions@.len() implies self.sessions@[a]@
                != self.sessions@[b]@ by {
                if b == before.len() {
                } else {
                    assert(self.sessions@[a] == before[a]);
                    assert(self.sessions@[b] == before[b]);
                }
            }
        }
        assert forall|k: Seq<char>| #[trigger] self.model().sessions.contains(k) <==> (
        old(self).model().sessions.contains(k) || k == h@) by {
            if holds_string(self.sessions@, k) {
                let j = choose|j: int| 0 <= j < self.sessions@.len() && self.sessions@[j]@ == k;
                if j < before.len() {
                    assert(self.sessions@[j] == before[j]);
                }
            }
            if holds_string(before, k) {
                let j = choose|j: int| 0 <= j < before.len() && before[j]@ == k;
                assert(self.sessions@[j] == before[j]);
            }
            if k == h@ {
                assert(self.sessions@[before.len() as int]@ == k);
            }
        }
        assert(self.model().sessions =~= old(self).model().sessions.insert(h@));
    }

    /// Whether a session token is valid: its hash is an active session.
    fn verify_token(&self, token: &str) -> (r: bool)
        requires
            self.wf(),
        ensures
            r == verify_step(self.model(), token@),
    {
        let h = hash_token(token);
        let mut i: usize = 0;
        while i < self.sessions.len()
            invariant
                i <= self.sessions.len(),
                h@ == token_hash(token@),
                forall|j: int| 0 <= j < i ==> self.sessions@[j]@ != h@,
            decreases self.sessions.len() - i,
        {
            if self.sessions[i] == h {
                assert(holds_string(self.sessions@, h@));
                return true;
            }
            i = i + 1;
        }
        false
    }

    /// Drops the requests that have expired at `now`.
    fn purge_at(&mut self, now: u128)
        requires
            old(self).wf(),
        ensures
            final(self).wf(),
            final(self).model().sessions == old(self).model().sessions,
            final(self).model().pending == purge(old(self).model().pending, now),
    {
        let ghost m = self.pending@;
        let mut codes: Vec<String> = Vec::new();
        std::mem::swap(&mut codes, &mut self.codes);
        let mut kept: Vec<String> = Vec::new();
        let mut i: usize = 0;
        while i < codes.len()
            invariant
                self.sessions@ == old(self).sessions@,
                distinct_strings(self.sessions@),
                i <= codes.len(),
                distinct_strings(codes@),
                distinct_strings(kept@),
                forall|k: Seq<char>| #[trigger] m.contains_key(k) <==> holds_string(codes@, k),
                forall|k: Seq<char>| #[trigger]
                    self.pending@.contains_key(k) <==> (m.contains_key(k) && !(holds_string_in(codes@, k, i as int) && expired(m[k]@, now))),
                forall|k: Seq<char>| #[trigger]
                    self.pending@.contains_key(k) ==> self.pending@[k] == m[k],
                forall|k: Seq<char>| #[trigger]
                    holds_string(kept@, k) <==> (self.pending@.contains_key(k) && holds_string_in(codes@, k, i as int)),
            decreases codes.len() - i,
        {
            let ghost ci = codes@[i as int]@;
            assert(m.contains_key(ci));
            let gone = match self.pending.get(codes[i].as_str()) {
                Some(p) => is_expired(p.created, now),
                None => false,
            };
            let ghost before_kept = kept@;
            let ghost before_pending = self.pending@;
            if gone {
                self.pending.remove(codes[i].as_str());
            } else {
                kept.push(codes[i].clone());
            }
            proof {
                assert(gone == expired(m[ci]@, now));
                assert forall|k: Seq<char>| #[trigger] holds_string_in(codes@, k, i + 1) <==> (holds_string_in(
                    codes@,
                    k,
                    i as int,
                ) || k == ci) by {
                    if holds_string_in(codes@, k, i + 1) {
                        let j = choose|j: int| 0 <= j < i + 1 && j < codes@.len() && #[trigger] codes@[j]@ == k;
                        if j < i {
                            assert(holds_string_in(codes@, k, i as int));
                        }
                    }
                    if k == ci {
                        assert(codes@[i as int]@ == k);
                    }
                }
                assert(!holds_string_in(codes@, ci, i as int)) by {
                    if holds_string_in(codes@, ci, i as int) {
                        let j = choose|j: int| 0 <= j < i && j < codes@.len() && #[trigger] codes@[j]@ == ci;
                        assert(codes@[j]@ == ci);
                    }
                }
                if !gone {
                    assert(distinct_strings(kept@)) by {
                        assert forall|a: int, b: int| 0 <= a < b < kept@.len() implies kept@[a]@
                            != kept@[b]@ by {
                            if b == before_kept.len() {
                                assert(kept@[a] == before_kept[a]);
                                assert(holds_string(before_kept, kept@[a]@));
                            } else {
                                assert(kept@[a] == before_kept[a]);
                                assert(kept@[b] == before_kept[b]);
                            }
                        }
                    }
                }
                assert forall|k: Seq<char>| #[trigger] holds_string(kept@, k) <==> (holds_string(
                    before_kept,
                    k,
                ) || (!gone && k == ci)) by {
                    if holds_string(kept@, k) {
                        let j = choose|j: int| 0 <= j < kept@.len() && kept@[j]@ == k;
                        if j < before_kept.len() {
                            assert(kept@[j] == before_kept[j]);
                        }
                    }
                    if holds_string(before_kept, k) {
                        let j = choose|j: int| 0 <= j < before_kept.len() && before_kept[j]@ == k;
                        assert(kept@[j] == before_kept[j]);
                    }
                    if !gone && k == ci {
                        assert(kept@[before_kept.len() as int]@ == k);
                    }
                }
                assert forall|k: Seq<char>| #[trigger]
                    holds_string(kept@, k) <==> (self.pending@.contains_key(k) && holds_string_in(
                        codes@,
                        k,
                        i + 1,
                    )) by {
                    assert(holds_string_in(codes@, k, i + 1) <==> (holds_string_in(codes@, k, i as int)
                        || k == ci));
                    assert(holds_string(kept@, k) <==> (holds_string(before_kept, k) || (!gone && k
                        == ci)));
                    assert(holds_string(before_kept, k) <==> (before_pending.contains_key(k)
                        && holds_string_in(codes@, k, i as int)));
                    if k == ci {
                        assert(!holds_string(before_kept, k));
                        assert(before_pending.contains_key(k));
                        if !gone {
                            assert(self.pending@.contains_key(k));
                        }
                    } else {
                        assert(self.pending@.contains_key(k) == before_pending.contains_key(k));
                    }
                }
            }
            i = i + 1;
        }
        assert forall|k: Seq<char>| holds_string(codes@, k) implies holds_string_in(
            codes@,
            k,
            codes.len() as int,
        ) by {
            let j = choose|j: int| 0 <= j < codes@.len() && codes@[j]@ == k;
            assert(codes@[j]@ == k);
        }
        self.codes = kept;
        proof {
            assert(self.model().pending =~= purge(old(self).model().pending, now));
        }
    }

    /// Drops the request for `code`, which is pending.
    fn remove_pending(&mut self, code: &str)
        requires
            old(self).wf(),
            old(self).pending@.contains_key(code@),
        ensures
            final(self).wf(),
            final(self).model().sessions == old(self).model().sessions,
            final(self).pending@ == old(self).pending@.remove(code@),
    {
        self.pending.remove(code);
        let ghost before = self.codes@;
        let mut j: usize = 0;
        while j < self.codes.len() && !str_eq_string(&self.codes[j], code)
            invariant
                self.codes@ == before,
                j <= self.codes.len(),
                forall|q: int| 0 <= q < j ==> self.codes@[q]@ != code@,
            decreases self.codes.len() - j,
        {
            j = j + 1;
        }
        assert(holds_string(before, code@));
        if j >= self.codes.len() {
            proof {
                let q = choose|q: int| 0 <= q < before.len() && before[q]@ == code@;
                assert(before[q]@ == code@);
            }
            return;
        }
        assert(before[j as int]@ == code@);
        self.codes.remove(j);
        proof {
            assert forall|a: int, b: int| 0 <= a < b < self.codes@.len() implies self.codes@[a]@
                != self.codes@[b]@ by {
                let a2 = if a < j { a } else { a + 1 };
                let b2 = if b < j { b } else { b + 1 };
                assert(self.codes@[a] == before[a2]);
                assert(self.codes@[b] == before[b2]);
            }
            assert forall|k: Seq<char>| #[trigger]
                self.pending@.contains_key(k) <==> holds_string(self.codes@, k) by {
                if self.pending@.contains_key(k) {
                    let q = choose|q: int| 0 <= q < before.len() && before[q]@ == k;
                    assert(q != j);
                    let q2 = if q < j { q } else { q - 1 };
                    assert(self.codes@[q2] == before[q]);
                }
                if holds_string(self.codes@, k) {
                    let q = choose|q: int| 0 <= q < self.codes@.len() && self.codes@[q]@ == k;
                    let q2 = if q < j { q } else { q + 1 };
                    assert(self.codes@[q] == before[q2]);
                    assert(q2 != j);
                }
            }
        }
    }

    /// Registers a pending request with a client-made code at clock reading
    /// `now`. Returns false if the code is already pending.
    fn register_request_at(&mut self, code: &str, now: u128) -> (r: bool)
        requires
            old(self).wf(),
        ensures
            final(self).wf(),
            (final(self).model(), r) == register_step(old(self).model(), code@, now),
    {
        self.purge_at(now);
        if self.pending.contains_key(code) {
            return false;
        }
        let ghost before = self.codes@;
        self.pending.insert(code.to_owned(), PendingPair { token: None, created: now });
        self.codes.push(code.to_owned());
        proof {
            assert(!holds_string(before, code@));
            assert forall|a: int, b: int| 0 <= a < b < self.codes@.len() implies self.codes@[a]@
                != self.codes@[b]@ by {
                if b == before.len() {
                    assert(self.codes@[a] == before[a]);
                } else {
                    assert(self.codes@[a] == before[a]);
                    assert(self.codes@[b] == before[b]);
                }
            }
            assert forall|k: Seq<char>| #[trigger]
                self.pending@.contains_key(k) <==> holds_string(self.codes@, k) by {
                if holds_string(self.codes@, k) {
                    let q = choose|q: int| 0 <= q < self.codes@.len() && self.codes@[q]@ == k;
                    if q < before.len() {
                        assert(self.codes@[q] == before[q]);
                    }
                }
                if holds_string(before, k) {
                    let q = choose|q: int| 0 <= q < before.len() && before[q]@ == k;
                    assert(self.codes@[q] == before[q]);
                }
                if k == code@ {
                    assert(self.codes@[before.len() as int]@ == k);
                }
            }
            assert(self.model().pending =~= register_step(old(self).model(), code@, now).0.pending);
        }
        true
    }

    /// Approves the pending request for `code` with the session token
    /// `token`. Returns true if the request was found and not yet approved.
    fn approve_with_token(&mut self, code: &str, token: String) -> (r: bool)
        requires
            old(self).wf(),
        ensures
            final(self).wf(),
            (final(self).model(), r) == approve_step(old(self).model(), code@, token@),
    {
        let created = match self.pending.get(code) {
            None => {
                return false;
            },
            Some(p) => {
                if p.token.is_some() {
                    return false;
                }
                p.created
            },
        };
        let h = hash_token(token.as_str());
        self.add_session(h);
        self.pending.insert(code.to_owned(), PendingPair { token: Some(token), created });
        proof {
            assert(self.model().pending =~= approve_step(old(self).model(), code@, token@).0.pending);
        }
        true
    }

    /// Approves the pending request for `code` (from the local socket) with a
    /// fresh random session token. Returns true if the code was found and
    /// approved.
    fn approve(&mut self, code: &str) -> (r: bool)
        requires
            old(self).wf(),
        ensures
            final(self).wf(),
            exists|t: Seq<char>|
                is_token_shape(t) && (final(self).model(), r) == approve_step(
                    old(self).model(),
                    code@,
                    t,
                ),
    {
        let waiting = match self.pending.get(code) {
            Some(p) => p.token.is_none(),
            None => false,
        };
        if !waiting {
            let ghost w = Seq::new(
                36,
                |i: int|
                    if i == 8 || i == 13 || i == 18 || i == 23 {
                        '-'
                    } else if i == 14 {
                        '4'
                    } else if i == 19 {
                        '8'
                    } else {
                        '0'
                    },
            );
            assert(is_token_shape(w));
            assert((self.model(), false) == approve_step(old(self).model(), code@, w));
            return false;
        }
        let token = new_session_token();
        let ghost t = token@;
        let r = self.approve_with_token(code, token);
        assert(is_token_shape(t));
        r
    }

    /// Polls for the result of the pairing request `code` at clock reading
    /// `now`.
    fn poll_at(&mut self, code: &str, now: u128) -> (r: PollResult)
        requires
            old(self).wf(),
        ensures
            final(self).wf(),
            (final(self).model(), r@) == poll_step(old(self).model(), code@, now),
    {
        let (gone, token) = match self.pending.get(code) {
            None => {
                return PollResult::NotFound;
            },
            Some(p) => {
                let t = match &p.token {
                    Some(t) => Some(t.clone()),
                    None => None,
                };
                (is_expired(p.created, now), t)
            },
        };
        if gone {
            self.remove_pending(code);
            proof {
                assert(self.model().pending =~= old(self).model().pending.remove(code@));
            }
            return PollResult::Expired;
        }
        match token {
            Some(t) => {
                self.remove_pending(code);
                proof {
                    assert(self.model().pending =~= old(self).model().pending.remove(code@));
                }
                PollResult::Approved(t)
            },
            None => PollResult::Pending,
        }
    }

    /// The active session hashes in stored order.
    spec fn session_hashes(&self) -> Seq<Seq<char>> {
        crate::settings::strings_view(self.sessions@)
    }

    /// The active session hashes as pretty JSON, for the session file: the
    /// list holds each active session once, and reading the file back gives
    /// the active sessions.
    fn sessions_json(&self) -> (r: Option<String>)
        requires
            self.wf(),
        ensures
            self.session_hashes().to_set() == self.model().sessions,
            self.session_hashes().no_duplicates(),
            r is Some,
            r matches Some(s) ==> s@ == json_pretty_string_list(self.session_hashes()),
            r matches Some(s) ==> saved_sessions(Some(s@)) == self.model().sessions,
    {
        proof {
            let hs = self.session_hashes();
            assert forall|h: Seq<char>| hs.contains(h) <==> holds_string(self.sessions@, h) by {
                if hs.contains(h) {
                    let i = choose|i: int| 0 <= i < hs.len() && hs[i] == h;
                    assert(self.sessions@[i]@ == h);
                }
                if holds_string(self.sessions@, h) {
                    let i = choose|i: int| 0 <= i < self.sessions@.len() && self.sessions@[i]@ == h;
                    assert(hs[i] == h);
                }
            }
            assert(hs.to_set() =~= self.model().sessions);
        }
        string_list_to_json(&self.sessions)
    }

    /// Whether a request carries a valid session token, in its
    /// `authorization` header or its session cookie.
    fn is_authorized(&self, authorization: Option<&str>, cookie: Option<&str>) -> (r: bool)
        requires
            self.wf(),
        ensures
            r == match request_token(opt_view(authorization), opt_view(cookie)) {
                Some(t) => verify_step(self.model(), t),
                None => false,
            },
    {
        match extract_token(authorization, cookie) {
            Some(t) => self.verify_token(t.as_str()),
            None => false,
        }
    }

    /// Handles one line written to the pairing socket: the code it holds is
    /// approved if it names a waiting request.
    fn code_socket_reply(&mut self, line: &str) -> (r: CodeReply)
        requires
            old(self).wf(),
        ensures
            final(self).wf(),
            trim(line@).len() == 0 ==> r == CodeReply::EmptyCode && final(self).model() == old(
                self,
            ).model(),
            trim(line@).len() != 0 ==> exists|t: Seq<char>|
                is_token_shape(t) && (final(self).model(), r == CodeReply::Paired) == approve_step(
                    old(self).model(),
                    trim(line@),
                    t,
                ),
            r != CodeReply::EmptyCode <==> trim(line@).len() != 0,
    {
        let code = trim_str(line);
        if code.unicode_len() == 0 {
            return CodeReply::EmptyCode;
        }
        if self.approve(code) {
            CodeReply::Paired
        } else {
            CodeReply::NoMatch
        }
    }
}

impl PairingState {
    /// The tables always agree with themselves.
    #[verifier::type_invariant]
    spec fn inv(self) -> bool {
        self.tables.wf()
    }

    /// The state as the contracts see it.
    pub closed spec fn model(&self) -> PairingModel {
        self.tables.model()
    }

    /// The active session hashes in stored order.
    pub closed spec fn session_hashes(&self) -> Seq<Seq<char>> {
        self.tables.session_hashes()
    }

    /// The last reading taken of the pairing clock, in nanoseconds since the
    /// state was made.
    pub closed spec fn clock(&self) -> u128 {
        self.last_reading
    }

    /// A state with the sessions of a saved session file (`None` where the
    /// file could not be read) and no pending request.
    pub fn new(saved: Option<&str>) -> (s: Self)
        ensures
            s.model().sessions == saved_sessions(
                match saved {
                    Some(t) => Some(t@),
                    None => None,
                },
            ),
            s.model().pending == Map::<Seq<char>, PendingView>::empty(),
            s.clock() == 0,
    {
        PairingState { tables: PairingTables::from_saved(saved), origin: instant_now(), last_reading: 0 }
    }

    /// Takes the tables out, leaving empty ones in their place.
    fn take_tables(&mut self) -> (t: PairingTables)
        ensures
            t.wf(),
            t.model() == old(self).model(),
            final(self).clock() == old(self).clock(),
    {
        proof {
            use_type_invariant(&*self);
        }
        let mut t = PairingTables::empty();
        std::mem::swap(&mut t, &mut self.tables);
        t
    }

    /// Reads the pairing clock, in nanoseconds since the state was made, and
    /// remembers the reading. A reading never goes back: the clock is
    /// monotonic, and a reading below the last one is taken as the last one.
    /// How far it has gone depends on when it is taken, so nothing more is
    /// stated of it.
    fn clock_now(&mut self) -> (r: u128)
        ensures
            r >= old(self).clock(),
            final(self).clock() == r,
            final(self).model() == old(self).model(),
    {
        proof {
            use_type_invariant(&*self);
        }
        let d = instant_elapsed(&self.origin);
        let mut r = duration_as_nanos(&d);
        if r < self.last_reading {
            r = self.last_reading;
        }
        self.last_reading = r;
        r
    }

    /// Whether a session token is valid: its hash is an active session.
    pub fn verify_token(&self, token: &str) -> (r: bool)
        ensures
            r == verify_step(self.model(), token@),
    {
        proof {
            use_type_invariant(self);
        }
        self.tables.verify_token(token)
    }

    /// Registers a pending request with a client-made code at clock reading
    /// `now`. Returns false if the code is already pending.
    pub fn register_request_at(&mut self, code: &str, now: u128) -> (r: bool)
        ensures
            (final(self).model(), r) == register_step(old(self).model(), code@, now),
            final(self).clock() == old(self).clock(),
    {
        let mut t = self.take_tables();
        let r = t.register_request_at(code, now);
        self.tables = t;
        r
    }

    /// Registers a pending request with a client-made code, stamped with the
    /// pairing clock read at the call. Returns false if the code is already
    /// pending.
    pub fn register_request(&mut self, code: &str) -> (r: bool)
        ensures
            final(self).clock() >= old(self).clock(),
            (final(self).model(), r) == register_step(old(self).model(), code@, final(self).clock()),
            r ==> final(self).model().pending[code@].created == final(self).clock(),
    {
        let now = self.clock_now();
        self.register_request_at(code, now)
    }

    /// Approves the pending request for `code` with the session token
    /// `token`. Returns true if the request was found and not yet approved.
    pub fn approve_with_token(&mut self, code: &str, token: String) -> (r: bool)
        ensures
            (final(self).model(), r) == approve_step(old(self).model(), code@, token@),
            final(self).clock() == old(self).clock(),
    {
        let mut t = self.take_tables();
        let r = t.approve_with_token(code, token);
        self.tables = t;
        r
    }

    /// Approves the pending request for `code` (from the local socket) with a
    /// fresh random session token. Returns true if the code was found and
    /// approved.
    pub fn approve(&mut self, code: &str) -> (r: bool)
        ensures
            exists|t: Seq<char>|
                is_token_shape(t) && (final(self).model(), r) == approve_step(
                    old(self).model(),
                    code@,
                    t,
                ),
            final(self).clock() == old(self).clock(),
    {
        let mut t = self.take_tables();
        let r = t.approve(code);
        self.tables = t;
        r
    }

    /// Polls for the result of the pairing request `code` at clock reading
    /// `now`.
    pub fn poll_at(&mut self, code: &str, now: u128) -> (r: PollResult)
        ensures
            (final(self).model(), r@) == poll_step(old(self).model(), code@, now),
            final(self).clock() == old(self).clock(),
    {
        let mut t = self.take_tables();
        let r = t.poll_at(code, now);
        self.tables = t;
        r
    }

    /// Polls for the result of the pairing request `code`, by the pairing
    /// clock read at the call: the token once approved, `Pending` while waiting, `Expired` or
    /// `NotFound` otherwise.
    pub fn poll(&mut self, code: &str) -> (r: PollResult)
        ensures
            final(self).clock() >= old(self).clock(),
            (final(self).model(), r@) == poll_step(old(self).model(), code@, final(self).clock()),
    {
        let now = self.clock_now();
        self.poll_at(code, now)
    }

    /// The active session hashes as pretty JSON, for the session file: the
    /// list holds each active session once, and reading the file back gives
    /// the active sessions.
    pub fn sessions_json(&self) -> (r: Option<String>)
        ensures
            self.session_hashes().to_set() == self.model().sessions,
            self.session_hashes().no_duplicates(),
            r is Some,
            r matches Some(s) ==> s@ == json_pretty_string_list(self.session_hashes()),
            r matches Some(s) ==> saved_sessions(Some(s@)) == self.model().sessions,
    {
        proof {
            use_type_invariant(self);
        }
        self.tables.sessions_json()
    }

    /// Whether a request carries a valid session token, in its
    /// `authorization` header or its session cookie.
    pub fn is_authorized(&self, authorization: Option<&str>, cookie: Option<&str>) -> (r: bool)
        ensures
            r == match request_token(opt_view(authorization), opt_view(cookie)) {
                Some(t) => verify_step(self.model(), t),
                None => false,
            },
    {
        proof {
            use_type_invariant(self);
        }
        self.tables.is_authorized(authorization, cookie)
    }

    /// Handles one line written to the pairing socket: the code it holds is
    /// approved if it names a waiting request.
    pub fn code_socket_reply(&mut self, line: &str) -> (r: CodeReply)
        ensures
            trim(line@).len() == 0 ==> r == CodeReply::EmptyCode && final(self).model() == old(
                self,
            ).model(),
            trim(line@).len() != 0 ==> exists|t: Seq<char>|
                is_token_shape(t) && (final(self).model(), r == CodeReply::Paired) == approve_step(
                    old(self).model(),
                    trim(line@),
                    t,
                ),
            r != CodeReply::EmptyCode <==> trim(line@).len() != 0,
            final(self).clock() == old(self).clock(),
    {
        let mut t = self.take_tables();
        let r = t.code_socket_reply(line);
        self.tables = t;
        r
    }
}

/// The reply written back on the pairing socket.
#[derive(Debug, Clone, Copy, PartialEq, Eq, Structural)]
pub enum CodeReply {
    EmptyCode,
    Paired,
    NoMatch,
}

impl CodeReply {
    /// The line written back to the socket.
    pub fn text(&self) -> (s: &'static str)
        ensures
            s@ == match self {
                CodeReply::EmptyCode => "ERR empty code\n"@,
                CodeReply::Paired => "OK paired\n"@,
                CodeReply::NoMatch => "ERR no matching request\n"@,
            },
    {
        match self {
            CodeReply::EmptyCode => "ERR empty code\n",
            CodeReply::Paired => "OK paired\n",
            CodeReply::NoMatch => "ERR no matching request\n",
        }
    }
}

/// Whether a request made at `created` has expired at `now`.
fn is_expired(created: u128, now: u128) -> (r: bool)
    ensures
        r == (now - created >= PAIR_TTL_NANOS),
{
    if now >= created {
        now - created >= PAIR_TTL_NANOS
    } else {
        false
    }
}

/// Whether a string holds the characters of `s`.
fn str_eq_string(a: &String, s: &str) -> (r: bool)
    ensures
        r == (a@ == s@),
{
    *a == s.to_owned()
}

/// The stored form of a session token.
pub fn hash_token(token: &str) -> (h: String)
    ensures
        h@ == token_hash(token@),
{
    let bytes = token.as_bytes();
    let digest = sha256_digest(bytes);
    hex_encode(digest.as_slice())
}

/// A request to register a pairing code.
#[derive(Debug, Clone)]
pub struct PairRequest {
    pub code: String,
}

/// The answer to a poll for a pairing request: its status, and the session
/// token once approved.
#[derive(Debug, Clone)]
pub struct PairPollResponse {
    pub status: String,
    pub token: Option<String>,
}

/// The HTTP status `403 Forbidden`.
pub const STATUS_FORBIDDEN: u16 = 403;

/// The answer to a request without a valid session token.
pub fn auth_required() -> (r: (u16, crate::error::ApiError))
    ensures
        r.0 == STATUS_FORBIDDEN,
        r.1.error.code@ == "AUTH_REQUIRED"@,
        r.1.error.message@ == "Pairing required"@,
{
    (STATUS_FORBIDDEN, crate::error::ApiError::new("AUTH_REQUIRED", "Pairing required"))
}

// ---------------------------------------------------------------------------
// Tokens carried by requests
// ---------------------------------------------------------------------------

/// The view of an optional string.
pub open spec fn opt_view(s: Option<&str>) -> Option<Seq<char>> {
    match s {
        Some(t) => Some(t@),
        None => None,
    }
}

/// The position of the first `c` in `s`, or its length if there is none.
pub open spec fn index_of_char(s: Seq<char>, c: char) -> nat
    decreases s.len(),
{
    if s.len() == 0 {
        0
    } else if s[0] == c {
        0
    } else {
        1 + index_of_char(s.drop_first(), c)
    }
}

/// The session token found in a `cookie` header: the value of the first
/// `;`-separated cookie that, trimmed, starts with `telemax_session=`.
pub open spec fn cookie_token(s: Seq<char>) -> Option<Seq<char>>
    decreases s.len(),
{
    let i = index_of_char(s, ';');
    let seg = trim(s.subrange(0, i as int));
    if has_prefix(seg, "telemax_session="@) {
        Some(seg.skip("telemax_session="@.len() as int))
    } else if i >= s.len() {
        None
    } else {
        cookie_token(s.skip((i + 1) as int))
    }
}

/// The token a request carries: after `Bearer ` in its `authorization`
/// header, or else in its session cookie.
pub open spec fn request_token(authorization: Option<Seq<char>>, cookie: Option<Seq<char>>) -> Option<
    Seq<char>,
> {
    match authorization {
        Some(a) if has_prefix(a, "Bearer "@) => Some(a.skip("Bearer "@.len() as int)),
        _ => match cookie {
            Some(c) => cookie_token(c),
            None => None,
        },
    }
}

proof fn lemma_index_of_char(s: Seq<char>, c: char, m: int)
    requires
        0 <= m <= s.len(),
        forall|k: int| 0 <= k < m ==> s[k] != c,
        m == s.len() || s[m] == c,
    ensures
        index_of_char(s, c) == m,
    decreases s.len(),
{
    if s.len() > 0 && s[0] != c {
        assert forall|k: int| 0 <= k < m - 1 implies s.drop_first()[k] != c by {
            assert(s.drop_first()[k] == s[k + 1]);
        }
        if m < s.len() {
            assert(s.drop_first()[m - 1] == s[m]);
        }
        lemma_index_of_char(s.drop_first(), c, m - 1);
    }
}

/// The first position at or after `from` that holds `c`, or the length.
fn find_char(v: &Vec<char>, c: char, from: usize) -> (j: usize)
    requires
        from <= v.len(),
    ensures
        from <= j <= v.len(),
        forall|k: int| from <= k < j ==> v@[k] != c,
        j < v.len() ==> v@[j as int] == c,
{
    let mut j = from;
    while j < v.len() && v[j] != c
        invariant
            from <= j <= v.len(),
            forall|k: int| from <= k < j ==> v@[k] != c,
        decreases v.len() - j,
    {
        j = j + 1;
    }
    j
}

/// The session token in a `cookie` header, if one of its cookies is the
/// session cookie.
pub fn cookie_session_token(cookie: &str) -> (r: Option<String>)
    ensures
        match r {
            Some(t) => cookie_token(cookie@) == Some(t@),
            None => cookie_token(cookie@) is None,
        },
{
    let v = chars_of(cookie);
    let n = v.len();
    let mut start: usize = 0;
    assert(cookie@.skip(0) =~= cookie@);
    while start <= n
        invariant
            v@ == cookie@,
            n == v.len(),
            start <= n,
            cookie_token(cookie@) == cookie_token(cookie@.skip(start as int)),
        decreases n - start,
    {
        let j = find_char(&v, ';', start);
        let ghost rest = cookie@.skip(start as int);
        proof {
            assert forall|k: int| 0 <= k < j - start implies rest[k] != ';' by {
                assert(rest[k] == v@[start + k]);
            }
            if j < n {
                assert(rest[j - start] == v@[j as int]);
            }
            lemma_index_of_char(rest, ';', j - start);
            assert(rest.subrange(0, j - start) =~= cookie@.subrange(start as int, j as int));
        }
        let seg = trim_str(cookie.substring_char(start, j));
        match strip_prefix(seg, "telemax_session=") {
            Some(t) => {
                return Some(t.to_owned());
            },
            None => {},
        }
        if j >= n {
            return None;
        }
        assert(rest.skip(j - start + 1) =~= cookie@.skip(j + 1));
        start = j + 1;
    }
    None
}

/// The session token a request carries: after `Bearer ` in its
/// `authorization` header, or else in its session cookie.
pub fn extract_token(authorization: Option<&str>, cookie: Option<&str>) -> (r: Option<String>)
    ensures
        match r {
            Some(t) => request_token(opt_view(authorization), opt_view(cookie)) == Some(t@),
            None => request_token(opt_view(authorization), opt_view(cookie)) is None,
        },
{
    match authorization {
        Some(auth) => match strip_prefix(auth, "Bearer ") {
            Some(t) => {
                return Some(t.to_owned());
            },
            None => {},
        },
        None => {},
    }
    match cookie {
        Some(c) => cookie_session_token(c),
        None => None,
    }
}

// ---------------------------------------------------------------------------
// Laws of the pairing protocol
// ---------------------------------------------------------------------------

/// A code that is not pending, registered at `t0`, approved with `token` and
/// polled at `t1` before its time to live has passed, is answered with
/// `token`; from then on `token` is a valid session and the code is gone.
pub proof fn law_pairing_round_trip(
    s: PairingModel,
    code: Seq<char>,
    token: Seq<char>,
    t0: u128,
    t1: u128,
)
    requires
        !purge(s.pending, t0).contains_key(code),
        t0 <= t1,
        t1 - t0 < PAIR_TTL_NANOS,
    ensures
        register_step(s, code, t0).1,
        approve_step(register_step(s, code, t0).0, code, token).1,
        poll_step(approve_step(register_step(s, code, t0).0, code, token).0, code, t1).1
            == PollView::Approved(token),
        verify_step(
            poll_step(approve_step(register_step(s, code, t0).0, code, token).0, code, t1).0,
            token,
        ),
        poll_step(
            poll_step(approve_step(register_step(s, code, t0).0, code, token).0, code, t1).0,
            code,
            t1,
        ).1 == PollView::NotFound,
{
    let s1 = register_step(s, code, t0).0;
    let s2 = approve_step(s1, code, token).0;
    let s3 = poll_step(s2, code, t1).0;
    assert(s1.pending[code] == PendingView { token: None, created: t0 });
    assert(s2.pending[code] == PendingView { token: Some(token), created: t0 });
    assert(!s3.pending.contains_key(code));
}

/// A registered code waits: the request is stamped with the clock reading
/// of its registration, and polling it at a reading less than the time to
/// live later answers `Pending` and changes nothing, however long the clock
/// ran before the registration. (`register_request` and `poll` use the
/// reading taken at each call, and a later reading is never smaller.)
pub proof fn law_registered_code_waits(s: PairingModel, code: Seq<char>, t0: u128, t1: u128)
    requires
        !purge(s.pending, t0).contains_key(code),
        t0 <= t1,
        t1 - t0 < PAIR_TTL_NANOS,
    ensures
        register_step(s, code, t0).1,
        register_step(s, code, t0).0.pending[code] == (PendingView { token: None, created: t0 }),
        poll_step(register_step(s, code, t0).0, code, t1) == (
            register_step(s, code, t0).0,
            PollView::Pending,
        ),
{
}

/// A code that is still waiting cannot be registered a second time.
pub proof fn law_pending_code_refused(s: PairingModel, code: Seq<char>, now: u128)
    requires
        s.pending.contains_key(code),
        !expired(s.pending[code], now),
    ensures
        !register_step(s, code, now).1,
{
}

/// A request is approved at most once.
pub proof fn law_approve_once(s: PairingModel, code: Seq<char>, t1: Seq<char>, t2: Seq<char>)
    requires
        approve_step(s, code, t1).1,
    ensures
        !approve_step(approve_step(s, code, t1).0, code, t2).1,
{
}

/// A request polled after its time to live has passed is reported expired
/// once and is then gone.
pub proof fn law_expired_request(s: PairingModel, code: Seq<char>, now: u128)
    requires
        s.pending.contains_key(code),
        expired(s.pending[code], now),
    ensures
        poll_step(s, code, now).1 == PollView::Expired,
        poll_step(poll_step(s, code, now).0, code, now).1 == PollView::NotFound,
{
}

/// After a registration no expired request is left.
pub proof fn law_register_drops_expired(s: PairingModel, code: Seq<char>, now: u128)
    ensures
        forall|k: Seq<char>| #[trigger]
            register_step(s, code, now).0.pending.contains_key(k) ==> !expired(
                register_step(s, code, now).0.pending[k],
                now,
            ),
{
}

/// A valid session stays valid through every operation of the protocol.
pub proof fn law_sessions_persist(
    s: PairingModel,
    token: Seq<char>,
    code: Seq<char>,
    other: Seq<char>,
    now: u128,
)
    requires
        verify_step(s, token),
    ensures
        verify_step(register_step(s, code, now).0, token),
        verify_step(approve_step(s, code, other).0, token),
        verify_step(poll_step(s, code, now).0, token),
{
}

/// Only approval makes a session: registering and polling leave the
/// sessions as they were.
pub proof fn law_only_approval_adds_sessions(s: PairingModel, code: Seq<char>, now: u128)
    ensures
        register_step(s, code, now).0.sessions == s.sessions,
        poll_step(s, code, now).0.sessions == s.sessions,
{
}

/// A `Bearer` authorization header decides the token, whatever cookies the
/// request carries; without one, the first session cookie does.
pub proof fn law_bearer_header_first(a: Seq<char>, cookie: Option<Seq<char>>)
    ensures
        has_prefix(a, "Bearer "@) ==> request_token(Some(a), cookie) == Some(
            a.skip("Bearer "@.len() as int),
        ),
        !has_prefix(a, "Bearer "@) ==> request_token(Some(a), cookie) == request_token(None, cookie),
{
}

/// One call on the pairing state, with the clock reading or fresh token it
/// was made with.
pub enum PairingCall {
    Register(Seq<char>, u128),
    Approve(Seq<char>, Seq<char>),
    Poll(Seq<char>, u128),
}

/// The state after one call.
pub open spec fn call_step(s: PairingModel, c: PairingCall) -> PairingModel {
    match c {
        PairingCall::Register(code, now) => register_step(s, code, now).0,
        PairingCall::Approve(code, token) => approve_step(s, code, token).0,
        PairingCall::Poll(code, now) => poll_step(s, code, now).0,
    }
}

/// The state after a run of calls, in order.
pub open spec fn run_calls(s: PairingModel, calls: Seq<PairingCall>) -> PairingModel
    decreases calls.len(),
{
    if calls.len() == 0 {
        s
    } else {
        run_calls(call_step(s, calls[0]), calls.drop_first())
    }
}

/// Whether some call of the run registers `code` successfully.
pub open spec fn registers_code(s: PairingModel, calls: Seq<PairingCall>, code: Seq<char>) -> bool
    decreases calls.len(),
{
    if calls.len() == 0 {
        false
    } else {
        (calls[0] matches PairingCall::Register(c, now) && c == code && register_step(s, c, now).1)
            || registers_code(call_step(s, calls[0]), calls.drop_first(), code)
    }
}

/// A code that is not pending stays so through a run of calls that does not
/// register it.
proof fn lemma_code_stays_gone(s: PairingModel, calls: Seq<PairingCall>, code: Seq<char>)
    requires
        !s.pending.contains_key(code),
        !registers_code(s, calls, code),
    ensures
        !run_calls(s, calls).pending.contains_key(code),
    decreases calls.len(),
{
    if calls.len() > 0 {
        let s1 = call_step(s, calls[0]);
        match calls[0] {
            PairingCall::Register(c, now) => {
                if c == code {
                    assert(!purge(s.pending, now).contains_key(code));
                }
            },
            PairingCall::Approve(c, t) => {},
            PairingCall::Poll(c, now) => {},
        }
        assert(!s1.pending.contains_key(code));
        lemma_code_stays_gone(s1, calls.drop_first(), code);
    }
}

/// The token of an approved request is handed out once: after a poll that
/// answers it, every later poll of that code answers `NotFound`, whatever
/// calls come in between, until the code is registered again.
pub proof fn law_token_handed_out_once(
    s: PairingModel,
    code: Seq<char>,
    now: u128,
    token: Seq<char>,
    calls: Seq<PairingCall>,
    later: u128,
)
    requires
        poll_step(s, code, now).1 == PollView::Approved(token),
        !registers_code(poll_step(s, code, now).0, calls, code),
    ensures
        poll_step(run_calls(poll_step(s, code, now).0, calls), code, later).1 == PollView::NotFound,
{
    lemma_code_stays_gone(poll_step(s, code, now).0, calls, code);
}


} // verus!
