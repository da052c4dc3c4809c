//! The host's game library: what is shown of a title, where its pictures come from, what a
//! host has running, and how a failed request reads.

use vstd::prelude::*;
use crate::pad_info::{begins, starts_with};
use crate::text::{decimal, has_char, join, opt_view, same, to_decimal};

verus! {

/// Port of a host's management interface where nothing else is known.
pub const DEFAULT_MGMT_PORT: u16 = 47990;

/// Id of the desktop's tile. No title of a host can start with a NUL.
pub const DESKTOP_ID: &'static str = "\0desktop";

/// Mark of the desktop's tile.
pub const DESKTOP_ICON: &'static str = "monitor";

/// How long a host's answer about running titles holds.
pub const RUNNING_TTL_NS: u64 = 20_000_000_000;

/// Largest picture fetched.
pub const ART_MAX_BYTES: u64 = 16_777_216;

/// Pictures fetched at once.
pub const ART_WORKERS: usize = 3;

/// Pictures of a title, as values.
#[verifier::ext_equal]
pub struct ArtState {
    pub portrait: Option<Seq<char>>,
    pub hero: Option<Seq<char>>,
    pub header: Option<Seq<char>>,
}

/// Pictures of a title: addresses, or paths on the host.
#[derive(Debug, Clone, Default)]
pub struct Artwork {
    pub portrait: Option<String>,
    pub hero: Option<String>,
    pub header: Option<String>,
}

impl View for Artwork {
    type V = ArtState;

    open spec fn view(&self) -> ArtState {
        ArtState {
            portrait: opt_view(self.portrait),
            hero: opt_view(self.hero),
            header: opt_view(self.header),
        }
    }
}

/// The address of a picture: a path is one of the host's.
pub open spec fn resolved(base: Seq<char>, url: Seq<char>) -> Seq<char> {
    if url.len() > 0 && url[0] == '/' {
        base + url
    } else {
        url
    }
}

/// The address of a picture where there is one.
pub open spec fn candidate(base: Seq<char>, url: Option<Seq<char>>) -> Seq<Seq<char>> {
    match url {
        Some(u) => seq![resolved(base, u)],
        None => Seq::empty(),
    }
}

/// The addresses to try for a poster, in order.
pub open spec fn posters(base: Seq<char>, art: ArtState) -> Seq<Seq<char>> {
    candidate(base, art.portrait) + candidate(base, art.header) + candidate(base, art.hero)
}

/// The views of a list of strings.
pub open spec fn views(v: Seq<String>) -> Seq<Seq<char>> {
    v.map_values(|s: String| s@)
}

fn push_candidate(out: &mut Vec<String>, base: &str, url: &Option<String>)
    ensures
        views(final(out)@) == views(old(out)@) + candidate(base@, opt_view(*url)),
{
    let ghost start = views(out@);
    match url {
        Some(u) => {
            let s: &str = u.as_str();
            if s.unicode_len() > 0 && s.get_char(0) == '/' {
                out.push(join(base, s));
            } else {
                out.push(s.to_owned());
            }
            assert(views(out@) =~= start + seq![resolved(base@, u@)]);
        },
        None => {
            assert(views(out@) =~= start + Seq::<Seq<char>>::empty());
        },
    }
}

impl Artwork {
    /// The addresses to try for a poster: portrait, header, hero.
    pub fn poster_candidates(&self, base: &str) -> (r: Vec<String>)
        ensures
            views(r@) == posters(base@, self@),
            r@.len() == (if self.portrait is Some {
                1int
            } else {
                0
            }) + (if self.header is Some {
                1int
            } else {
                0
            }) + (if self.hero is Some {
                1int
            } else {
                0
            }),
    {
        let mut out: Vec<String> = Vec::new();
        assert(views(out@) =~= Seq::<Seq<char>>::empty());
        push_candidate(&mut out, base, &self.portrait);
        push_candidate(&mut out, base, &self.header);
        push_candidate(&mut out, base, &self.hero);
        assert(views(out@) =~= posters(base@, self@));
        out
    }

    /// Whether there is no picture at all.
    pub fn is_empty(&self) -> (r: bool)
        ensures
            r == (self@.portrait is None && self@.header is None && self@.hero is None),
    {
        self.portrait.is_none() && self.header.is_none() && self.hero.is_none()
    }
}

/// A poster is looked for in the portrait, then the header, then the hero, and a path is looked
/// for on the host.
pub proof fn pictures_are_tried_in_order(base: Seq<char>, art: ArtState, u: Seq<char>)
    ensures
        ({
            let p = posters(base, art);
            let first = if art.portrait is Some {
                1int
            } else {
                0
            };
            let second = if art.header is Some {
                first + 1
            } else {
                first
            };
            &&& art.portrait is Some ==> p[0] == resolved(base, art.portrait->Some_0)
            &&& art.header is Some ==> p[first] == resolved(base, art.header->Some_0)
            &&& art.hero is Some ==> p[second] == resolved(base, art.hero->Some_0)
            &&& p.len() == (if art.hero is Some {
                second + 1
            } else {
                second
            })
        }),
        u.len() > 0 && u[0] == '/' ==> resolved(base, u) == base + u,
        u.len() == 0 || u[0] != '/' ==> resolved(base, u) == u,
{
}

/// A title without pictures has no address to try, and one with pictures has.
pub proof fn an_empty_artwork_has_no_posters(base: Seq<char>, art: ArtState)
    ensures
        (posters(base, art).len() == 0) == (art.portrait is None && art.header is None
            && art.hero is None),
{
}

/// Play numbers of a title.
#[derive(Debug, Clone, Copy, PartialEq, Eq, Default)]
pub struct GameStats {
    pub last_played_unix_ms: u64,
    pub play_time_ms: u64,
    pub last_run_ms: u64,
    pub launch_count: u32,
}

/// One title.
#[derive(Debug, Clone)]
pub struct GameEntry {
    /// Store and title; what a launch names.
    pub id: String,
    pub store: String,
    pub title: String,
    pub art: Artwork,
    pub platform: Option<String>,
    pub developer: Option<String>,
    pub release_year: Option<u16>,
    pub genres: Vec<String>,
    /// What the entry is; the host owns the words.
    pub role: Option<String>,
    /// Name of a mark. Unchecked: see [`icon_token`](GameEntry::icon_token).
    pub icon: Option<String>,
    pub stats: Option<GameStats>,
}

/// A lower-case letter.
pub open spec fn is_lower(c: char) -> bool {
    'a' <= c && c <= 'z'
}

/// A character a mark's name may hold.
pub open spec fn is_token_char(c: char) -> bool {
    is_lower(c) || ('0' <= c && c <= '9') || c == '-'
}

/// Whether a name may become part of a resource's name or path.
pub open spec fn is_token(t: Seq<char>) -> bool {
    &&& 0 < t.len() <= 32
    &&& is_lower(t[0])
    &&& forall|i: int| 0 <= i < t.len() ==> is_token_char(#[trigger] t[i])
}

fn check_token(t: &str) -> (r: bool)
    ensures
        r == is_token(t@),
{
    let n: usize = t.unicode_len();
    if n == 0 || n > 32 {
        return false;
    }
    let first: char = t.get_char(0);
    if !('a' <= first && first <= 'z') {
        return false;
    }
    let mut i: usize = 0;
    while i < n
        invariant
            n == t@.len(),
            i <= n,
            forall|j: int| 0 <= j < i ==> is_token_char(#[trigger] t@[j]),
        decreases n - i,
    {
        let c: char = t.get_char(i);
        if !(('a' <= c && c <= 'z') || ('0' <= c && c <= '9') || c == '-') {
            assert(!is_token_char(t@[i as int]));
            return false;
        }
        i = i + 1;
    }
    true
}

impl GameEntry {
    /// Whether the entry is a launcher.
    pub fn is_launcher(&self) -> (r: bool)
        ensures
            r == (opt_view(self.role) == Some("launcher"@)),
    {
        match &self.role {
            Some(role) => same(role.as_str(), "launcher"),
            None => false,
        }
    }

    /// The mark's name, where it may become part of a resource's name or path.
    pub fn icon_token(&self) -> (r: Option<&str>)
        ensures
            match r {
                Some(t) => opt_view(self.icon) == Some(t@) && is_token(t@),
                None => match opt_view(self.icon) {
                    Some(t) => !is_token(t),
                    None => true,
                },
            },
            r is Some ==> ({
                let t = r->Some_0@;
                &&& 1 <= t.len() <= 32
                &&& 'a' <= t[0] && t[0] <= 'z'
                &&& forall|i: int|
                    0 <= i < t.len() ==> ('a' <= #[trigger] t[i] && t[i] <= 'z') || ('0' <= t[i]
                        && t[i] <= '9') || t[i] == '-'
            }),
    {
        match &self.icon {
            Some(icon) => {
                let t: &str = icon.as_str();
                if check_token(t) {
                    Some(t)
                } else {
                    None
                }
            },
            None => None,
        }
    }
}

/// What a store is called.
pub open spec fn label_of(store: Seq<char>) -> Seq<char> {
    if store == "steam"@ {
        "Steam"@
    } else if store == "custom"@ {
        "Custom"@
    } else if store == "heroic"@ {
        "Heroic"@
    } else if store == "lutris"@ {
        "Lutris"@
    } else if store == "epic"@ {
        "Epic"@
    } else if store == "gog"@ {
        "GOG"@
    } else if store == "xbox"@ {
        "Xbox"@
    } else {
        "Game"@
    }
}

/// What a store is called.
pub fn store_label(store: &str) -> (r: &'static str)
    ensures
        r@ == label_of(store@),
        store@ == "steam"@ ==> r@ == "Steam"@,
        store@ == "custom"@ ==> r@ == "Custom"@,
        store@ == "heroic"@ ==> r@ == "Heroic"@,
        store@ == "lutris"@ ==> r@ == "Lutris"@,
        store@ == "epic"@ ==> r@ == "Epic"@,
        store@ == "gog"@ ==> r@ == "GOG"@,
        store@ == "xbox"@ ==> r@ == "Xbox"@,
        store@ != "steam"@ && store@ != "custom"@ && store@ != "heroic"@ && store@ != "lutris"@
            && store@ != "epic"@ && store@ != "gog"@ && store@ != "xbox"@ ==> r@ == "Game"@,
{
    proof {
        reveal_strlit("steam");
        reveal_strlit("custom");
        reveal_strlit("heroic");
        reveal_strlit("lutris");
        reveal_strlit("epic");
        reveal_strlit("gog");
        reveal_strlit("xbox");
        assert("steam"@.len() == 5 && "gog"@.len() == 3);
        assert("custom"@[0] == 'c' && "heroic"@[0] == 'h' && "lutris"@[0] == 'l');
        assert("epic"@[0] == 'e' && "xbox"@[0] == 'x');
        assert("custom"@.len() == 6 && "heroic"@.len() == 6 && "lutris"@.len() == 6);
        assert("epic"@.len() == 4 && "xbox"@.len() == 4);
    }
    if same(store, "steam") {
        "Steam"
    } else if same(store, "custom") {
        "Custom"
    } else if same(store, "heroic") {
        "Heroic"
    } else if same(store, "lutris") {
        "Lutris"
    } else if same(store, "epic") {
        "Epic"
    } else if same(store, "gog") {
        "GOG"
    } else if same(store, "xbox") {
        "Xbox"
    } else {
        "Game"
    }
}

/// A host's management address; an IPv6 address is bracketed.
pub open spec fn base_of(addr: Seq<char>, port: u16) -> Seq<char> {
    if addr.contains(':') {
        "https://["@ + addr + "]:"@ + decimal(port as nat)
    } else {
        "https://"@ + addr + ":"@ + decimal(port as nat)
    }
}

/// A host's management address; an IPv6 address is bracketed.
pub fn base_url(addr: &str, mgmt_port: u16) -> (r: String)
    ensures
        r@ == base_of(addr@, mgmt_port),
        addr@.contains(':') ==> r@ == "https://["@ + addr@ + "]:"@ + decimal(mgmt_port as nat),
        !addr@.contains(':') ==> r@ == "https://"@ + addr@ + ":"@ + decimal(mgmt_port as nat),
{
    let port: String = to_decimal(mgmt_port as u64);
    if has_char(addr, ':') {
        join(join(join("https://[", addr).as_str(), "]:").as_str(), port.as_str())
    } else {
        join(join(join("https://", addr).as_str(), ":").as_str(), port.as_str())
    }
}

/// Address of a host's library.
pub fn library_url(addr: &str, mgmt_port: u16) -> (r: String)
    ensures
        r@ == base_of(addr@, mgmt_port) + "/api/v1/library"@,
{
    join(base_url(addr, mgmt_port).as_str(), "/api/v1/library")
}

/// Address of what a host has running.
pub fn status_url(addr: &str, mgmt_port: u16) -> (r: String)
    ensures
        r@ == base_of(addr@, mgmt_port) + "/api/v1/status"@,
{
    join(base_url(addr, mgmt_port).as_str(), "/api/v1/status")
}

/// Whether a picture is the host's own, which only its paired client may read. Any other
/// address is asked without showing the client's identity.
pub fn is_host_picture(base: &str, url: &str) -> (r: bool)
    ensures
        r == begins(url@, base@),
        r <==> base@.len() <= url@.len() && forall|i: int|
            0 <= i < base@.len() ==> #[trigger] url@[i] == base@[i],
{
    starts_with(url, base)
}

/// Why a request failed, as values.
pub enum LibraryErrorState {
    NotPaired,
    PinMismatch,
    Http(u16),
    Unreachable(Seq<char>),
}

/// Why a request failed.
#[derive(Debug, PartialEq, Eq)]
pub enum LibraryError {
    /// The host does not know this device.
    NotPaired,
    /// The host's certificate is not the pinned one.
    PinMismatch,
    Http(u16),
    Unreachable(String),
}

impl View for LibraryError {
    type V = LibraryErrorState;

    open spec fn view(&self) -> LibraryErrorState {
        match *self {
            LibraryError::NotPaired => LibraryErrorState::NotPaired,
            LibraryError::PinMismatch => LibraryErrorState::PinMismatch,
            LibraryError::Http(code) => LibraryErrorState::Http(code),
            LibraryError::Unreachable(why) => LibraryErrorState::Unreachable(why@),
        }
    }
}

/// A phrase for a failed request.
pub open spec fn phrase(e: LibraryErrorState) -> Seq<char> {
    match e {
        LibraryErrorState::NotPaired =>
            "the host doesn't recognize this device — pair with it first"@,
        LibraryErrorState::PinMismatch =>
            "the host's certificate isn't the one you paired with — pair again"@,
        LibraryErrorState::Http(code) => "the host refused it ("@ + decimal(code as nat) + ")"@,
        LibraryErrorState::Unreachable(why) => "couldn't reach the host — "@ + why,
    }
}

impl LibraryError {
    /// A phrase, never a sentence: every caller supplies the frame.
    pub fn message(&self) -> (r: String)
        ensures
            r@ == phrase(self@),
            *self is NotPaired ==> r@
                == "the host doesn't recognize this device — pair with it first"@,
            *self is PinMismatch ==> r@
                == "the host's certificate isn't the one you paired with — pair again"@,
            *self matches LibraryError::Http(code) ==> r@ == "the host refused it ("@ + decimal(
                code as nat,
            ) + ")"@,
            *self matches LibraryError::Unreachable(why) ==> r@ == "couldn't reach the host — "@
                + why@,
    {
        match self {
            LibraryError::NotPaired =>
                "the host doesn't recognize this device — pair with it first".to_owned(),
            LibraryError::PinMismatch =>
                "the host's certificate isn't the one you paired with — pair again".to_owned(),
            LibraryError::Http(code) => join(
                join("the host refused it (", to_decimal(*code as u64).as_str()).as_str(),
                ")",
            ),
            LibraryError::Unreachable(why) => join("couldn't reach the host — ", why.as_str()),
        }
    }
}

/// An error of the HTTP client.
#[verifier::external_type_specification]
#[verifier::external_body]
pub struct ExUreqError(ureq::Error);

/// A failed request as far as the library tells failures apart, as values.
pub enum TransportState {
    Status(u16),
    PinRefused,
    Other(Seq<char>),
}

/// A failed request as far as the library tells failures apart.
#[derive(Debug, PartialEq, Eq)]
pub enum Transport {
    /// The host answered with this status.
    Status(u16),
    /// The certificate was not the pinned one.
    PinRefused,
    /// Anything else, in words.
    Other(String),
}

impl View for Transport {
    type V = TransportState;

    open spec fn view(&self) -> TransportState {
        match *self {
            Transport::Status(code) => TransportState::Status(code),
            Transport::PinRefused => TransportState::PinRefused,
            Transport::Other(why) => TransportState::Other(why@),
        }
    }
}

/// Which failure a request met, without words.
pub enum TransportKind {
    Status(u16),
    PinRefused,
    Other,
}

/// Which failure it is.
pub open spec fn kind_of(t: TransportState) -> TransportKind {
    match t {
        TransportState::Status(code) => TransportKind::Status(code),
        TransportState::PinRefused => TransportKind::PinRefused,
        TransportState::Other(_) => TransportKind::Other,
    }
}

/// Which failure an error of the HTTP client is.
pub uninterp spec fn transport_of(e: ureq::Error) -> TransportKind;

/// Tells the variants of `ureq::Error` apart: a status, rustls's refusal of a certificate by
/// the application's own verifier, and the rest as `ureq` spells it. Claims that which of the
/// three it is, and the status, depend on the error alone. Nothing is claimed of the words: an
/// operating system's error is spelt in the system's language.
#[verifier::external_body]
fn transport(e: ureq::Error) -> (r: Transport)
    ensures
        kind_of(r@) == transport_of(e),
{
    match e {
        ureq::Error::StatusCode(code) => Transport::Status(code),
        ureq::Error::Rustls(rustls::Error::InvalidCertificate(
            rustls::CertificateError::ApplicationVerificationFailure,
        )) => Transport::PinRefused,
        other => Transport::Other(other.to_string()),
    }
}

/// What a failed request is to the library.
pub open spec fn classified(t: TransportState) -> LibraryErrorState {
    match t {
        TransportState::Status(code) => if code == 401 || code == 403 {
            LibraryErrorState::NotPaired
        } else {
            LibraryErrorState::Http(code)
        },
        TransportState::PinRefused => LibraryErrorState::PinMismatch,
        TransportState::Other(why) => LibraryErrorState::Unreachable(why),
    }
}

/// What a failed request is to the library.
pub fn classify_transport(t: Transport) -> (r: LibraryError)
    ensures
        r@ == classified(t@),
        t matches Transport::Status(code) ==> if code == 401 || code == 403 {
            r is NotPaired
        } else {
            r == LibraryError::Http(code)
        },
        t is PinRefused <==> r is PinMismatch,
        t matches Transport::Other(why) ==> r == LibraryError::Unreachable(why),
{
    match t {
        Transport::Status(code) => if code == 401 || code == 403 {
            LibraryError::NotPaired
        } else {
            LibraryError::Http(code)
        },
        Transport::PinRefused => LibraryError::PinMismatch,
        Transport::Other(why) => LibraryError::Unreachable(why),
    }
}

/// What an error of the HTTP client is to the library.
pub fn classify(e: ureq::Error) -> (r: LibraryError)
    ensures
        exists|t: TransportState| #[trigger] kind_of(t) == transport_of(e) && r@ == classified(t),
        transport_of(e) matches TransportKind::Status(code) ==> if code == 401 || code == 403 {
            r is NotPaired
        } else {
            r == LibraryError::Http(code)
        },
        transport_of(e) is PinRefused <==> r is PinMismatch,
        transport_of(e) is Other <==> r is Unreachable,
{
    classify_transport(transport(e))
}

/// A host that refuses this device is never told as a status, and a refused pin is never told
/// as anything else.
pub proof fn a_refusal_is_told_as_one(t: TransportState)
    ensures
        classified(t) != LibraryErrorState::Http(401),
        classified(t) != LibraryErrorState::Http(403),
        (classified(t) is PinMismatch) == (t is PinRefused),
{
}

/// A title a host has running, as values.
#[verifier::ext_equal]
pub struct RunningState {
    pub app_id: Option<Seq<char>>,
    pub title: Seq<char>,
    pub state: Seq<char>,
    pub awaiting_window: bool,
}

/// A title a host has running.
#[derive(Debug, Clone)]
pub struct RunningGame {
    /// The title's id, where it is one of the library's.
    pub app_id: Option<String>,
    pub title: String,
    /// The host owns the words.
    pub state: String,
    pub awaiting_window: bool,
}

impl View for RunningGame {
    type V = RunningState;

    open spec fn view(&self) -> RunningState {
        RunningState {
            app_id: opt_view(self.app_id),
            title: self.title@,
            state: self.state@,
            awaiting_window: self.awaiting_window,
        }
    }
}

/// Whether a title is up: anything but a confirmed exit.
pub open spec fn up(g: RunningState) -> bool {
    g.state != "exited"@
}

impl RunningGame {
    /// Whether the title is up: anything but a confirmed exit.
    pub fn is_up(&self) -> (r: bool)
        ensures
            r == up(self@),
            r == (self.state@ != "exited"@),
    {
        !same(self.state.as_str(), "exited")
    }
}

/// The views of a list of running titles.
pub open spec fn games_of(games: Seq<RunningGame>) -> Seq<RunningState> {
    games.map_values(|g: RunningGame| g@)
}

/// The titles that are up.
pub open spec fn those_up(games: Seq<RunningState>) -> Seq<RunningState>
    decreases games.len(),
{
    if games.len() == 0 {
        Seq::empty()
    } else if up(games.last()) {
        those_up(games.drop_last()).push(games.last())
    } else {
        those_up(games.drop_last())
    }
}

/// The first title with a name; empty where there is none.
pub open spec fn named_title(games: Seq<RunningState>) -> Seq<char>
    decreases games.len(),
{
    if games.len() == 0 {
        Seq::empty()
    } else if games[0].title.len() > 0 {
        games[0].title
    } else {
        named_title(games.skip(1))
    }
}

/// What has exited is left out and everything else stays in its order; the title told is the
/// first that has a name.
pub proof fn what_exited_is_left_out(games: Seq<RunningState>, g: RunningState)
    ensures
        those_up(Seq::empty()) == Seq::<RunningState>::empty(),
        g.state == "exited"@ ==> those_up(games.push(g)) == those_up(games),
        g.state != "exited"@ ==> those_up(games.push(g)) == those_up(games).push(g),
        named_title(games).len() == 0 <==> forall|i: int|
            0 <= i < games.len() ==> (#[trigger] games[i]).title.len() == 0,
        named_title(games).len() > 0 ==> exists|i: int|
            0 <= i < games.len() && (#[trigger] games[i]).title == named_title(games) && forall|
                j: int,
            |
                0 <= j < i ==> (#[trigger] games[j]).title.len() == 0,
    decreases games.len(),
{
    assert(games.push(g).drop_last() =~= games);
    if games.len() > 0 {
        let rest = games.skip(1);
        what_exited_is_left_out(rest, g);
        assert(forall|i: int| 0 <= i < rest.len() ==> #[trigger] rest[i] == games[i + 1]);
        if games[0].title.len() == 0 {
            if named_title(games).len() > 0 {
                let i = choose|i: int|
                    0 <= i < rest.len() && (#[trigger] rest[i]).title == named_title(rest) && forall|
                        j: int,
                    |
                        0 <= j < i ==> (#[trigger] rest[j]).title.len() == 0;
                assert(games[i + 1].title == named_title(games));
                assert forall|j: int| 0 <= j < i + 1 implies (#[trigger] games[j]).title.len()
                    == 0 by {
                    if j > 0 {
                        assert(rest[j - 1] == games[j]);
                    }
                }
            } else {
                assert forall|i: int| 0 <= i < games.len() implies (#[trigger] games[i]).title.len()
                    == 0 by {
                    if i > 0 {
                        assert(rest[i - 1] == games[i]);
                    }
                }
            }
        } else {
            assert(games[0].title == named_title(games));
        }
    }
}

/// What one host last said.
#[derive(Debug)]
pub struct RunningEntry {
    pub fp_hex: String,
    /// When it was asked.
    pub asked_at: u64,
    pub games: Vec<RunningGame>,
}

/// What the hosts last said, by fingerprint.
#[derive(Debug)]
pub struct RunningCache {
    pub entries: Vec<RunningEntry>,
}

/// Whether entry `i` is a host's.
pub open spec fn entry_is(entries: Seq<RunningEntry>, fp: Seq<char>, i: int) -> bool {
    0 <= i < entries.len() && entries[i].fp_hex@ == fp
}

impl View for RunningCache {
    type V = Map<Seq<char>, (u64, Seq<RunningState>)>;

    open spec fn view(&self) -> Map<Seq<char>, (u64, Seq<RunningState>)> {
        Map::new(
            |fp: Seq<char>| exists|i: int| entry_is(self.entries@, fp, i),
            |fp: Seq<char>|
                {
                    let i = choose|i: int| entry_is(self.entries@, fp, i);
                    (self.entries@[i].asked_at, games_of(self.entries@[i].games@))
                },
        )
    }
}

impl RunningCache {
    /// A host has at most one entry.
    pub open spec fn wf(&self) -> bool {
        forall|i: int, j: int|
            0 <= i < j < self.entries@.len() ==> (#[trigger] self.entries@[i]).fp_hex@ != (
            #[trigger] self.entries@[j]).fp_hex@
    }

    /// The answer of a host, by its entry.
    proof fn entry_is_the_answer(&self, i: int)
        requires
            self.wf(),
            0 <= i < self.entries@.len(),
        ensures
            self@.dom().contains(self.entries@[i].fp_hex@),
            self@[self.entries@[i].fp_hex@] == (
                self.entries@[i].asked_at,
                games_of(self.entries@[i].games@),
            ),
    {
        let fp = self.entries@[i].fp_hex@;
        assert(entry_is(self.entries@, fp, i));
        let k = choose|k: int| entry_is(self.entries@, fp, k);
        assert(entry_is(self.entries@, fp, k));
        assert(k == i);
    }

    /// Nothing said yet.
    pub fn new() -> (c: RunningCache)
        ensures
            c.wf(),
            c@ == Map::<Seq<char>, (u64, Seq<RunningState>)>::empty(),
    {
        let c = RunningCache { entries: Vec::new() };
        assert(c@ =~= Map::<Seq<char>, (u64, Seq<RunningState>)>::empty()) by {
            assert forall|fp: Seq<char>| !c@.dom().contains(fp) by {
                assert(forall|i: int| !entry_is(c.entries@, fp, i));
            }
        }
        c
    }

    fn find(&self, fp_hex: &str) -> (r: Option<usize>)
        requires
            self.wf(),
        ensures
            match r {
                Some(i) => i < self.entries@.len() && self.entries@[i as int].fp_hex@ == fp_hex@
                    && self@.dom().contains(fp_hex@),
                None => !self@.dom().contains(fp_hex@) && forall|i: int|
                    0 <= i < self.entries@.len() ==> (#[trigger] self.entries@[i]).fp_hex@
                        != fp_hex@,
            },
    {
        let mut i: usize = 0;
        while i < self.entries.len()
            invariant
                self.wf(),
                i <= self.entries@.len(),
                forall|j: int|
                    0 <= j < i ==> (#[trigger] self.entries@[j]).fp_hex@ != fp_hex@,
            decreases self.entries@.len() - i,
        {
            if same(self.entries[i].fp_hex.as_str(), fp_hex) {
                proof {
                    self.entry_is_the_answer(i as int);
                }
                return Some(i);
            }
            i = i + 1;
        }
        assert(forall|k: int| !entry_is(self.entries@, fp_hex@, k));
        None
    }

    /// The title to name for a host: the first it has up that has a name; empty where it has
    /// none or never answered.
    pub fn now_playing(&self, fp_hex: &str) -> (r: String)
        requires
            self.wf(),
        ensures
            r@ == (if self@.dom().contains(fp_hex@) {
                named_title(self@[fp_hex@].1)
            } else {
                Seq::empty()
            }),
    {
        match self.find(fp_hex) {
            Some(i) => {
                proof {
                    self.entry_is_the_answer(i as int);
                }
                first_title(&self.entries[i].games)
            },
            None => String::new(),
        }
    }

    /// Whether a host is to be asked again.
    pub open spec fn asks(self, fp: Seq<char>, now: u64) -> bool {
        fp.len() > 0 && (!self@.dom().contains(fp) || now - self@[fp].0 >= RUNNING_TTL_NS)
    }

    /// Whether to ask a host again. It is stamped at once, so that one that hangs is not
    /// asked on every tick; what it said before stands until it answers.
    pub fn refresh_due(&mut self, fp_hex: &str, now: u64) -> (ask: bool)
        requires
            old(self).wf(),
        ensures
            final(self).wf(),
            ask == old(self).asks(fp_hex@, now),
            ask <==> fp_hex@.len() > 0 && (!old(self)@.dom().contains(fp_hex@) || now >= old(
                self,
            )@[fp_hex@].0 + 20_000_000_000),
            final(self)@ == (if ask {
                old(self)@.insert(
                    fp_hex@,
                    (
                        now,
                        if old(self)@.dom().contains(fp_hex@) {
                            old(self)@[fp_hex@].1
                        } else {
                            Seq::empty()
                        },
                    ),
                )
            } else {
                old(self)@
            }),
    {
        let ghost was = *self;
        if fp_hex.unicode_len() == 0 {
            return false;
        }
        match self.find(fp_hex) {
            Some(i) => {
                proof {
                    self.entry_is_the_answer(i as int);
                }
                if now.saturating_sub(self.entries[i].asked_at) < RUNNING_TTL_NS {
                    return false;
                }
                let ghost games = games_of(self.entries@[i as int].games@);
                self.entries[i].asked_at = now;
                proof {
                    replaced(was, *self, i as int, (now, games));
                }
                true
            },
            None => {
                self.entries.push(
                    RunningEntry { fp_hex: fp_hex.to_owned(), asked_at: now, games: Vec::new() },
                );
                proof {
                    let e = self.entries@.last();
                    assert(games_of(e.games@) =~= Seq::<RunningState>::empty());
                    appended(was, *self, e);
                }
                true
            },
        }
    }

    /// A host answered: what it has up replaces what it said before.
    pub fn store(&mut self, fp_hex: &str, games: Vec<RunningGame>, now: u64)
        requires
            old(self).wf(),
        ensures
            final(self).wf(),
            final(self)@ == old(self)@.insert(fp_hex@, (now, those_up(games_of(games@)))),
    {
        let ghost was = *self;
        let kept: Vec<RunningGame> = keep_up(games);
        match self.find(fp_hex) {
            Some(i) => {
                let ghost said = games_of(kept@);
                self.entries[i].asked_at = now;
                self.entries[i].games = kept;
                proof {
                    replaced(was, *self, i as int, (now, said));
                }
            },
            None => {
                let ghost said = games_of(kept@);
                self.entries.push(
                    RunningEntry { fp_hex: fp_hex.to_owned(), asked_at: now, games: kept },
                );
                proof {
                    appended(was, *self, self.entries@.last());
                }
            },
        }
    }

    /// Forget what a host said: it is asked on the next tick.
    pub fn invalidate_running(&mut self, fp_hex: &str)
        requires
            old(self).wf(),
        ensures
            final(self).wf(),
            final(self)@ == old(self)@.remove(fp_hex@),
    {
        let ghost was = *self;
        match self.find(fp_hex) {
            Some(i) => {
                self.entries.remove(i);
                proof {
                    dropped(was, *self, i as int);
                }
            },
            None => {
                assert(self@ =~= was@.remove(fp_hex@));
            },
        }
    }
}

proof fn replaced(
    was: RunningCache,
    now: RunningCache,
    i: int,
    said: (u64, Seq<RunningState>),
)
    requires
        was.wf(),
        0 <= i < was.entries@.len(),
        now.entries@.len() == was.entries@.len(),
        forall|j: int|
            0 <= j < was.entries@.len() ==> (#[trigger] now.entries@[j]).fp_hex@
                == was.entries@[j].fp_hex@,
        forall|j: int|
            0 <= j < was.entries@.len() && j != i ==> #[trigger] now.entries@[j] == was.entries@[j],
        (now.entries@[i].asked_at, games_of(now.entries@[i].games@)) == said,
    ensures
        now.wf(),
        now@ == was@.insert(was.entries@[i].fp_hex@, said),
{
    let fp = was.entries@[i].fp_hex@;
    assert(now.wf()) by {
        assert forall|a: int, b: int| 0 <= a < b < now.entries@.len() implies (
        #[trigger] now.entries@[a]).fp_hex@ != (#[trigger] now.entries@[b]).fp_hex@ by {
            assert(was.entries@[a].fp_hex@ != was.entries@[b].fp_hex@);
        }
    }
    assert forall|k: Seq<char>| now@.dom().contains(k) == was@.insert(fp, said).dom().contains(
        k,
    ) by {
        if now@.dom().contains(k) {
            let j = choose|j: int| entry_is(now.entries@, k, j);
            assert(entry_is(was.entries@, k, j));
        }
        if was@.dom().contains(k) {
            let j = choose|j: int| entry_is(was.entries@, k, j);
            assert(now.entries@[j].fp_hex@ == k);
            assert(entry_is(now.entries@, k, j));
        }
        assert(now.entries@[i].fp_hex@ == fp);
        assert(entry_is(now.entries@, fp, i));
    }
    assert forall|k: Seq<char>| now@.dom().contains(k) implies now@[k] == was@.insert(fp, said)[k] by {
        let j = choose|j: int| entry_is(now.entries@, k, j);
        now.entry_is_the_answer(j);
        assert(now.entries@[j].fp_hex@ == was.entries@[j].fp_hex@);
        was.entry_is_the_answer(j);
        if j != i {
            assert(now.entries@[j] == was.entries@[j]);
            if j < i {
                assert(was.entries@[j].fp_hex@ != was.entries@[i].fp_hex@);
            } else {
                assert(was.entries@[i].fp_hex@ != was.entries@[j].fp_hex@);
            }
        }
    }
    assert(now@ =~= was@.insert(fp, said));
}

proof fn appended(was: RunningCache, now: RunningCache, e: RunningEntry)
    requires
        was.wf(),
        now.entries@ == was.entries@.push(e),
        forall|j: int| 0 <= j < was.entries@.len() ==> (#[trigger] was.entries@[j]).fp_hex@ != e.fp_hex@,
    ensures
        now.wf(),
        now@ == was@.insert(e.fp_hex@, (e.asked_at, games_of(e.games@))),
{
    let fp = e.fp_hex@;
    let said = (e.asked_at, games_of(e.games@));
    let n = was.entries@.len() as int;
    assert(now.wf()) by {
        assert forall|a: int, b: int| 0 <= a < b < now.entries@.len() implies (
        #[trigger] now.entries@[a]).fp_hex@ != (#[trigger] now.entries@[b]).fp_hex@ by {
            assert(now.entries@[a] == was.entries@[a]);
            if b < n {
                assert(now.entries@[b] == was.entries@[b]);
            }
        }
    }
    assert(entry_is(now.entries@, fp, n));
    assert forall|k: Seq<char>| now@.dom().contains(k) == was@.insert(fp, said).dom().contains(
        k,
    ) by {
        if now@.dom().contains(k) {
            let j = choose|j: int| entry_is(now.entries@, k, j);
            if j < n {
                assert(entry_is(was.entries@, k, j));
            }
        }
        if was@.dom().contains(k) {
            let j = choose|j: int| entry_is(was.entries@, k, j);
            assert(entry_is(now.entries@, k, j));
        }
    }
    assert forall|k: Seq<char>| now@.dom().contains(k) implies now@[k] == was@.insert(fp, said)[k] by {
        let j = choose|j: int| entry_is(now.entries@, k, j);
        now.entry_is_the_answer(j);
        if j < n {
            assert(now.entries@[j] == was.entries@[j]);
            was.entry_is_the_answer(j);
            assert(was.entries@[j].fp_hex@ != fp);
        }
    }
    assert(now@ =~= was@.insert(fp, said));
}

proof fn dropped(was: RunningCache, now: RunningCache, i: int)
    requires
        was.wf(),
        0 <= i < was.entries@.len(),
        now.entries@ == was.entries@.remove(i),
    ensures
        now.wf(),
        now@ == was@.remove(was.entries@[i].fp_hex@),
{
    let fp = was.entries@[i].fp_hex@;
    assert forall|j: int| 0 <= j < now.entries@.len() implies now.entries@[j] == (if j < i {
        was.entries@[j]
    } else {
        was.entries@[j + 1]
    }) by {}
    assert(now.wf()) by {
        assert forall|a: int, b: int| 0 <= a < b < now.entries@.len() implies (
        #[trigger] now.entries@[a]).fp_hex@ != (#[trigger] now.entries@[b]).fp_hex@ by {
            let x = if a < i {
                a
            } else {
                a + 1
            };
            let y = if b < i {
                b
            } else {
                b + 1
            };
            assert(was.entries@[x].fp_hex@ != was.entries@[y].fp_hex@);
        }
    }
    assert forall|k: Seq<char>| now@.dom().contains(k) == was@.remove(fp).dom().contains(k) by {
        if now@.dom().contains(k) {
            let j = choose|j: int| entry_is(now.entries@, k, j);
            let x = if j < i {
                j
            } else {
                j + 1
            };
            assert(entry_is(was.entries@, k, x));
            if x < i {
                assert(was.entries@[x].fp_hex@ != was.entries@[i].fp_hex@);
            } else {
                assert(was.entries@[i].fp_hex@ != was.entries@[x].fp_hex@);
            }
        }
        if was@.dom().contains(k) && k != fp {
            let x = choose|x: int| entry_is(was.entries@, k, x);
            let j = if x < i {
                x
            } else {
                x - 1
            };
            assert(entry_is(now.entries@, k, j));
        }
    }
    assert forall|k: Seq<char>| now@.dom().contains(k) implies now@[k] == was@.remove(fp)[k] by {
        let j = choose|j: int| entry_is(now.entries@, k, j);
        now.entry_is_the_answer(j);
        let x = if j < i {
            j
        } else {
            j + 1
        };
        was.entry_is_the_answer(x);
    }
    assert(now@ =~= was@.remove(fp));
}

fn first_title(games: &Vec<RunningGame>) -> (r: String)
    ensures
        r@ == named_title(games_of(games@)),
{
    let ghost all = games_of(games@);
    let mut i: usize = 0;
    assert(all.skip(0) =~= all);
    while i < games.len()
        invariant
            i <= games@.len(),
            all == games_of(games@),
            named_title(all) == named_title(all.skip(i as int)),
        decreases games@.len() - i,
    {
        assert(all.skip(i as int)[0] == games@[i as int]@);
        assert(all.skip(i as int).skip(1) =~= all.skip(i + 1));
        if games[i].title.as_str().unicode_len() > 0 {
            return games[i].title.as_str().to_owned();
        }
        i = i + 1;
    }
    assert(all.skip(i as int).len() == 0);
    let empty: String = String::new();
    assert(empty@ =~= named_title(all));
    empty
}

fn keep_up(games: Vec<RunningGame>) -> (r: Vec<RunningGame>)
    ensures
        games_of(r@) == those_up(games_of(games@)),
{
    let ghost all = games_of(games@);
    let mut rest: Vec<RunningGame> = games;
    let mut r: Vec<RunningGame> = Vec::new();
    let ghost mut k: int = 0;
    assert(all.take(0) =~= Seq::<RunningState>::empty());
    assert(games_of(rest@) =~= all.skip(0));
    assert(games_of(r@) =~= those_up(all.take(0)));
    while rest.len() > 0
        invariant
            0 <= k <= all.len(),
            games_of(rest@) == all.skip(k),
            games_of(r@) == those_up(all.take(k)),
        decreases rest@.len(),
    {
        let ghost before = rest@;
        let ghost kept = games_of(r@);
        let g: RunningGame = rest.remove(0);
        proof {
            assert(games_of(before)[0] == all.skip(k)[0]);
            assert(games_of(before).len() == before.len());
            assert(g == before[0]);
            assert(games_of(before)[0] == before[0]@);
            assert(g@ == all[k]);
            assert(games_of(rest@) =~= games_of(before).skip(1));
            assert(all.skip(k).skip(1) =~= all.skip(k + 1));
            assert(all.take(k + 1).drop_last() =~= all.take(k));
            assert(all.take(k + 1).last() == all[k]);
        }
        if g.is_up() {
            r.push(g);
            assert(games_of(r@) =~= kept.push(all[k]));
        }
        proof {
            k = k + 1;
        }
    }
    assert(all.skip(k).len() == 0);
    assert(all.take(k) =~= all);
    r
}

/// A host that hangs is asked once per interval, however often the clock ticks.
pub proof fn a_hanging_host_is_asked_once(
    before: RunningCache,
    after: RunningCache,
    fp: Seq<char>,
    now: u64,
    later: u64,
)
    requires
        before.asks(fp, now),
        after@.dom().contains(fp),
        after@[fp].0 == now,
        later - now < RUNNING_TTL_NS,
    ensures
        !after.asks(fp, later),
{
}

/// Where the search for one picture stands.
#[derive(Debug, Clone, Copy, PartialEq, Eq, Structural)]
pub struct ArtWalk {
    /// Addresses to try.
    pub count: usize,
    /// The one tried next.
    pub next: usize,
    /// The disk has been asked for all of them.
    pub network: bool,
}

/// What the search does next.
#[derive(Debug, Clone, Copy, PartialEq, Eq, Structural)]
pub enum ArtStep {
    AskDisk(usize),
    AskNetwork(usize),
    /// Hand over what was just found; it was fetched where `store` says so.
    Deliver { store: bool },
    /// No address had it.
    GiveUp,
    /// Nobody waits for it.
    Stop,
}

impl ArtWalk {
    /// The search is within its addresses.
    pub open spec fn wf(self) -> bool {
        self.next <= self.count
    }

    /// What follows, given whether anybody waits and whether the last question found it.
    pub open spec fn stepped(self, closed: bool, found: bool) -> (ArtWalk, ArtStep) {
        if found {
            (self, ArtStep::Deliver { store: self.network })
        } else if !self.network && self.next < self.count {
            (ArtWalk { next: (self.next + 1) as usize, ..self }, ArtStep::AskDisk(self.next))
        } else if closed {
            (self, ArtStep::Stop)
        } else if !self.network {
            if self.count == 0 {
                (ArtWalk { network: true, next: 0, ..self }, ArtStep::GiveUp)
            } else {
                (ArtWalk { network: true, next: 1, ..self }, ArtStep::AskNetwork(0))
            }
        } else if self.next < self.count {
            (ArtWalk { next: (self.next + 1) as usize, ..self }, ArtStep::AskNetwork(self.next))
        } else {
            (self, ArtStep::GiveUp)
        }
    }

    /// Search for one picture.
    pub fn new(count: usize) -> (w: ArtWalk)
        ensures
            w.wf(),
            w == (ArtWalk { count, next: 0, network: false }),
    {
        ArtWalk { count, next: 0, network: false }
    }

    /// The next step of the search: every address is asked of the disk before any is asked of
    /// the network, and the network is left alone once nobody waits.
    pub fn step(&mut self, closed: bool, found: bool) -> (r: ArtStep)
        requires
            old(self).wf(),
        ensures
            final(self).wf(),
            (*final(self), r) == old(self).stepped(closed, found),
            found ==> r == (ArtStep::Deliver { store: old(self).network }) && *final(self) == *old(
                self,
            ),
            !found && !old(self).network && old(self).next < old(self).count ==> r
                == ArtStep::AskDisk(old(self).next) && final(self).next == old(self).next + 1
                && !final(self).network,
            !found && closed && (old(self).network || old(self).next == old(self).count) ==> r
                == ArtStep::Stop && *final(self) == *old(self),
            !found && !closed && !old(self).network && old(self).next == old(self).count && old(
                self,
            ).count > 0 ==> r == ArtStep::AskNetwork(0) && final(self).network && final(self).next
                == 1,
            !found && !closed && old(self).network && old(self).next < old(self).count ==> r
                == ArtStep::AskNetwork(old(self).next) && final(self).network && final(self).next
                == old(self).next + 1,
            !found && !closed && old(self).next == old(self).count && (old(self).network || old(
                self,
            ).count == 0) ==> r == ArtStep::GiveUp,
            final(self).count == old(self).count,
    {
        if found {
            return ArtStep::Deliver { store: self.network };
        }
        let i: usize = self.next;
        if !self.network && i < self.count {
            self.next = i + 1;
            return ArtStep::AskDisk(i);
        }
        if closed {
            return ArtStep::Stop;
        }
        if !self.network {
            self.network = true;
            if self.count == 0 {
                self.next = 0;
                return ArtStep::GiveUp;
            }
            self.next = 1;
            return ArtStep::AskNetwork(0);
        }
        if i < self.count {
            self.next = i + 1;
            return ArtStep::AskNetwork(i);
        }
        ArtStep::GiveUp
    }
}

/// A search after `n` fruitless steps while somebody waits.
pub open spec fn walked(count: usize, n: nat) -> ArtWalk
    decreases n,
{
    if n == 0 {
        ArtWalk { count, next: 0, network: false }
    } else {
        walked(count, (n - 1) as nat).stepped(false, false).0
    }
}

/// A fruitless search asks the disk for every address in order, then the network for every
/// address in order, then gives up.
pub proof fn the_disk_goes_first(count: usize, n: nat)
    ensures
        walked(count, n).wf(),
        walked(count, n).count == count,
        n < count ==> walked(count, n).stepped(false, false).1 == ArtStep::AskDisk(n as usize),
        count <= n < 2 * count ==> walked(count, n).stepped(false, false).1
            == ArtStep::AskNetwork((n - count) as usize),
        n >= 2 * count ==> walked(count, n).stepped(false, false).1 == ArtStep::GiveUp,
        n <= count ==> !walked(count, n).network && walked(count, n).next == n,
        count < n <= 2 * count ==> walked(count, n).network && walked(count, n).next == n - count,
        n > 2 * count ==> walked(count, n).network && walked(count, n).next == count,
    decreases n,
{
    if n > 0 {
        the_disk_goes_first(count, (n - 1) as nat);
    }
}

/// Nothing is fetched for a page that was closed.
pub proof fn a_closed_page_fetches_nothing(w: ArtWalk, found: bool)
    ensures
        !(w.stepped(true, found).1 is AskNetwork),
{
}

} // verus!
