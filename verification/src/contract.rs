//! The lines a session writes for whoever started it, and the file it is handed.

use vstd::prelude::*;
use crate::settings::{Settings, SettingsState};
use crate::text::{join, opt_view};

verus! {

/// The switch at a key of a JSON object, where the text is JSON and has one there.
pub uninterp spec fn json_flag(text: Seq<char>, key: Seq<char>) -> Option<bool>;

/// The text at a key of a JSON object, where the text is JSON and has one there.
pub uninterp spec fn json_text(text: Seq<char>, key: Seq<char>) -> Option<Seq<char>>;

/// The unsigned number at a key of an object inside a JSON object, where there is one.
pub uninterp spec fn json_number(text: Seq<char>, outer: Seq<char>, key: Seq<char>) -> Option<u64>;

/// `serde_json::from_str` reads the text as a value, `Value::get` takes the member at the key
/// and `Value::as_bool` its switch. Claims that the answer depends on the text and the key
/// alone; what counts as JSON is left to the crate.
#[verifier::external_body]
fn flag_at(text: &str, key: &str) -> (r: Option<bool>)
    ensures
        r == json_flag(text@, key@),
{
    let v: serde_json::Value = serde_json::from_str(text).ok()?;
    v.get(key)?.as_bool()
}

/// `serde_json::from_str`, `Value::get` and `Value::as_str`: the text at the key. Claims that
/// the answer depends on the text and the key alone.
#[verifier::external_body]
fn text_at(text: &str, key: &str) -> (r: Option<String>)
    ensures
        opt_view(r) == json_text(text@, key@),
{
    let v: serde_json::Value = serde_json::from_str(text).ok()?;
    Some(v.get(key)?.as_str()?.to_string())
}

/// `serde_json::from_str`, `Value::get` twice and `Value::as_u64`: the unsigned number at the
/// key of the object at the outer key. Claims that the answer depends on the text and the two
/// keys alone.
#[verifier::external_body]
fn number_at(text: &str, outer: &str, key: &str) -> (r: Option<u64>)
    ensures
        r == json_number(text@, outer@, key@),
{
    let v: serde_json::Value = serde_json::from_str(text).ok()?;
    v.get(outer)?.get(key)?.as_u64()
}

/// What a line says, as values.
#[verifier::ext_equal]
pub struct LineState {
    pub ready: Option<bool>,
    pub error: Option<Seq<char>>,
    pub trust_rejected: Option<bool>,
    pub ended: Option<Seq<char>>,
    pub w: Option<u64>,
    pub h: Option<u64>,
}

/// What a line says, member by member.
#[derive(Debug)]
pub struct LineFacts {
    pub ready: Option<bool>,
    pub error: Option<String>,
    pub trust_rejected: Option<bool>,
    pub ended: Option<String>,
    /// Width and height of the window it reports.
    pub w: Option<u64>,
    pub h: Option<u64>,
}

impl View for LineFacts {
    type V = LineState;

    open spec fn view(&self) -> LineState {
        LineState {
            ready: self.ready,
            error: opt_view(self.error),
            trust_rejected: self.trust_rejected,
            ended: opt_view(self.ended),
            w: self.w,
            h: self.h,
        }
    }
}

/// What a session told, as values.
pub enum EventState {
    Ready,
    Error { msg: Seq<char>, trust_rejected: bool },
    Ended(Seq<char>),
    Window { w: u32, h: u32 },
    Exited(i32),
}

/// What a session told whoever started it.
#[derive(Debug, Clone, PartialEq, Eq)]
pub enum SessionEvent {
    /// The first frame is on screen.
    Ready,
    Error { msg: String, trust_rejected: bool },
    Ended(String),
    /// The window's size. Whoever started the session keeps it.
    Window { w: u32, h: u32 },
    /// The process is gone; minus one is a signal.
    Exited(i32),
}

impl View for SessionEvent {
    type V = EventState;

    open spec fn view(&self) -> EventState {
        match *self {
            SessionEvent::Ready => EventState::Ready,
            SessionEvent::Error { msg, trust_rejected } => EventState::Error {
                msg: msg@,
                trust_rejected,
            },
            SessionEvent::Ended(msg) => EventState::Ended(msg@),
            SessionEvent::Window { w, h } => EventState::Window { w, h },
            SessionEvent::Exited(code) => EventState::Exited(code),
        }
    }
}

/// The low half of a number.
pub open spec fn low32(n: u64) -> u32 {
    (n % 0x1_0000_0000) as u32
}

/// The event of a line: the first of ready, error, ended and window that it tells. Half a
/// window is no event.
pub open spec fn event_for(l: LineState) -> Option<EventState> {
    if l.ready == Some(true) {
        Some(EventState::Ready)
    } else if l.error is Some {
        Some(
            EventState::Error {
                msg: l.error->Some_0,
                trust_rejected: l.trust_rejected == Some(true),
            },
        )
    } else if l.ended is Some {
        Some(EventState::Ended(l.ended->Some_0))
    } else if l.w is Some && l.h is Some {
        Some(EventState::Window { w: low32(l.w->Some_0), h: low32(l.h->Some_0) })
    } else {
        None
    }
}

/// The view of an optional event.
pub open spec fn opt_event(e: Option<SessionEvent>) -> Option<EventState> {
    match e {
        Some(e) => Some(e@),
        None => None,
    }
}

/// The event of a line, from what it says.
pub fn event_of(l: LineFacts) -> (r: Option<SessionEvent>)
    ensures
        opt_event(r) == event_for(l@),
        l.ready == Some(true) <==> r == Some(SessionEvent::Ready),
        l.ready != Some(true) && l.error is Some ==> r is Some && r->Some_0 is Error && r->Some_0->msg
            == l.error->Some_0 && r->Some_0->trust_rejected == (l.trust_rejected == Some(true)),
        l.ready != Some(true) && l.error is None && l.ended is Some ==> r is Some && r->Some_0
            is Ended && r->Some_0->Ended_0 == l.ended->Some_0,
        l.ready != Some(true) && l.error is None && l.ended is None && l.w is Some && l.h is Some
            ==> r is Some && r->Some_0 is Window && r->Some_0->w == l.w->Some_0 % 0x1_0000_0000
            && r->Some_0->h == l.h->Some_0 % 0x1_0000_0000,
        l.ready != Some(true) && l.error is None && l.ended is None && (l.w is None || l.h is None)
            ==> r is None,
{
    match l.ready {
        Some(true) => {
            return Some(SessionEvent::Ready);
        },
        _ => {},
    }
    match l.error {
        Some(msg) => {
            let trust_rejected: bool = match l.trust_rejected {
                Some(t) => t,
                None => false,
            };
            return Some(SessionEvent::Error { msg, trust_rejected });
        },
        None => {},
    }
    match l.ended {
        Some(msg) => {
            return Some(SessionEvent::Ended(msg));
        },
        None => {},
    }
    match (l.w, l.h) {
        (Some(w), Some(h)) => Some(
            SessionEvent::Window {
                w: (w % 0x1_0000_0000) as u32,
                h: (h % 0x1_0000_0000) as u32,
            },
        ),
        _ => None,
    }
}

/// What a line of a session says.
pub open spec fn line_of(line: Seq<char>) -> LineState {
    LineState {
        ready: json_flag(line, "ready"@),
        error: json_text(line, "error"@),
        trust_rejected: json_flag(line, "trust_rejected"@),
        ended: json_text(line, "ended"@),
        w: json_number(line, "window"@, "w"@),
        h: json_number(line, "window"@, "h"@),
    }
}

/// Reads one line a session wrote. Statistics and stray output are no events.
pub fn parse_session_line(line: &str) -> (r: Option<SessionEvent>)
    ensures
        opt_event(r) == event_for(line_of(line@)),
        json_flag(line@, "ready"@) == Some(true) <==> r == Some(SessionEvent::Ready),
        json_flag(line@, "ready"@) != Some(true) && json_text(line@, "error"@) is Some ==> r is Some
            && r->Some_0 is Error && r->Some_0->msg@ == json_text(line@, "error"@)->Some_0
            && r->Some_0->trust_rejected == (json_flag(line@, "trust_rejected"@) == Some(true)),
        json_flag(line@, "ready"@) != Some(true) && json_text(line@, "error"@) is None && json_text(
            line@,
            "ended"@,
        ) is Some ==> r is Some && r->Some_0 is Ended && r->Some_0->Ended_0@ == json_text(
            line@,
            "ended"@,
        )->Some_0,
        r is Some && r->Some_0 is Window ==> json_number(line@, "window"@, "w"@) is Some
            && json_number(line@, "window"@, "h"@) is Some && r->Some_0->w == json_number(
            line@,
            "window"@,
            "w"@,
        )->Some_0 % 0x1_0000_0000 && r->Some_0->h == json_number(line@, "window"@, "h"@)->Some_0
            % 0x1_0000_0000,
{
    let facts = LineFacts {
        ready: flag_at(line, "ready"),
        error: text_at(line, "error"),
        trust_rejected: flag_at(line, "trust_rejected"),
        ended: text_at(line, "ended"),
        w: number_at(line, "window", "w"),
        h: number_at(line, "window", "h"),
    };
    assert(facts@ =~= line_of(line@));
    event_of(facts)
}

/// An error is told whatever else the line holds, and only a line that says so is a rejected
/// trust.
pub proof fn an_error_is_never_lost(l: LineState)
    requires
        l.error is Some,
        l.ready != Some(true),
    ensures
        event_for(l) matches Some(EventState::Error { msg, trust_rejected }) && msg
            == l.error->Some_0 && trust_rejected == (l.trust_rejected == Some(true)),
{
}

/// The settings with a window size.
pub open spec fn sized(s: SettingsState, w: u32, h: u32) -> SettingsState {
    SettingsState { last_window_w: w, last_window_h: h, ..s }
}

/// Take over a window size a session reported. Answers whether that changed anything: a
/// session that never resizes never touches the file.
pub fn persist_window_size(s: &mut Settings, w: u32, h: u32) -> (changed: bool)
    ensures
        final(s)@ == sized(old(s)@, w, h),
        final(s).last_window_w == w,
        final(s).last_window_h == h,
        changed == (old(s)@.last_window_w != w || old(s)@.last_window_h != h),
{
    let changed: bool = s.last_window_w != w || s.last_window_h != h;
    s.last_window_w = w;
    s.last_window_h = h;
    assert(s@ =~= sized(old(s)@, w, h));
    changed
}

/// A lower-case hexadecimal digit.
pub open spec fn hex_digit(d: int) -> char {
    if d < 10 {
        (d + '0' as u32) as char
    } else {
        (d - 10 + 'a' as u32) as char
    }
}

/// The hexadecimal spelling of the first `n` bytes of a little-endian number, most significant
/// byte first.
pub open spec fn hex_of(bytes: Seq<u8>, n: int) -> Seq<char>
    decreases n,
{
    if n <= 0 {
        Seq::empty()
    } else {
        seq![hex_digit(bytes[n - 1] as int / 16), hex_digit(bytes[n - 1] as int % 16)] + hex_of(
            bytes,
            n - 1,
        )
    }
}

/// The name of a session's file.
pub open spec fn file_name(bytes: Seq<u8>) -> Seq<char> {
    "punktfunk-spec-"@ + hex_of(bytes, 16) + ".json"@
}

fn hex_char(d: u8) -> (c: char)
    requires
        d < 16,
    ensures
        c == hex_digit(d as int),
{
    let base: u8 = if d < 10 {
        48
    } else {
        87
    };
    (base + d) as char
}

/// The name of a session's file, from sixteen bytes nobody can guess.
pub fn spec_file_name(bytes: [u8; 16]) -> (r: String)
    ensures
        r@ == file_name(bytes@),
{
    let mut hex: String = String::new();
    let mut n: usize = 16;
    assert(hex@ + hex_of(bytes@, 16) =~= hex_of(bytes@, 16));
    while n > 0
        invariant
            n <= 16,
            bytes@.len() == 16,
            hex@ + hex_of(bytes@, n as int) == hex_of(bytes@, 16),
        decreases n,
    {
        let ghost before = hex@;
        let b: u8 = bytes[n - 1];
        hex.push(hex_char(b / 16));
        hex.push(hex_char(b % 16));
        assert(hex@ + hex_of(bytes@, n - 1) =~= before + hex_of(bytes@, n as int));
        n = n - 1;
    }
    assert(hex@ =~= hex_of(bytes@, 16));
    join(join("punktfunk-spec-", hex.as_str()).as_str(), ".json")
}

/// `rand::random` draws sixteen bytes from the thread's generator, which is seeded by the
/// operating system. Nothing is claimed of them.
#[verifier::external_body]
fn fresh_bytes() -> (r: [u8; 16]) {
    rand::random::<[u8; 16]>()
}

/// The name of a new session's file.
pub fn fresh_spec_name() -> (r: String)
    ensures
        exists|bytes: [u8; 16]| r@ == #[trigger] file_name(bytes@),
{
    let bytes: [u8; 16] = fresh_bytes();
    spec_file_name(bytes)
}

proof fn hex_is_injective(a: Seq<u8>, b: Seq<u8>, n: int)
    requires
        0 <= n <= a.len(),
        n <= b.len(),
        hex_of(a, n) == hex_of(b, n),
    ensures
        forall|i: int| 0 <= i < n ==> a[i] == b[i],
        hex_of(a, n).len() == 2 * n,
    decreases n,
{
    if n > 0 {
        let x = hex_of(a, n);
        let y = hex_of(b, n);
        assert(x[0] == hex_digit(a[n - 1] as int / 16));
        assert(y[0] == hex_digit(b[n - 1] as int / 16));
        assert(x[1] == hex_digit(a[n - 1] as int % 16));
        assert(y[1] == hex_digit(b[n - 1] as int % 16));
        assert(x.skip(2) =~= hex_of(a, n - 1));
        assert(y.skip(2) =~= hex_of(b, n - 1));
        hex_is_injective(a, b, n - 1);
        assert(a[n - 1] == b[n - 1]);
    }
}

/// A session's file is named by its sixteen bytes, the last of them first, in two hexadecimal
/// digits each.
pub proof fn a_file_is_named_by_its_bytes(bytes: Seq<u8>, i: int)
    requires
        bytes.len() == 16,
        0 <= i < 16,
    ensures
        ({
            let hex = hex_of(bytes, 16);
            &&& file_name(bytes) == "punktfunk-spec-"@ + hex + ".json"@
            &&& hex.len() == 32
            &&& crate::ds5::hex_digit(hex[30 - 2 * i]) == Some(bytes[i] as int / 16)
            &&& crate::ds5::hex_digit(hex[31 - 2 * i]) == Some(bytes[i] as int % 16)
        }),
{
    digits_of_a_byte(bytes, 16, i);
}

proof fn digits_of_a_byte(bytes: Seq<u8>, n: int, i: int)
    requires
        0 <= n <= bytes.len(),
    ensures
        hex_of(bytes, n).len() == 2 * n,
        0 <= i < n ==> crate::ds5::hex_digit(hex_of(bytes, n)[2 * (n - 1 - i)]) == Some(
            bytes[i] as int / 16,
        ) && crate::ds5::hex_digit(hex_of(bytes, n)[2 * (n - 1 - i) + 1]) == Some(
            bytes[i] as int % 16,
        ),
    decreases n,
{
    if n > 0 {
        digits_of_a_byte(bytes, n - 1, i);
        let hex = hex_of(bytes, n);
        let rest = hex_of(bytes, n - 1);
        assert(forall|k: int| 0 <= k < rest.len() ==> hex[k + 2] == #[trigger] rest[k]);
        if 0 <= i < n - 1 {
            assert(hex[2 * (n - 2 - i) + 2] == rest[2 * (n - 2 - i)]);
            assert(hex[2 * (n - 2 - i) + 1 + 2] == rest[2 * (n - 2 - i) + 1]);
        }
    }
}

/// Two sessions share a file's name only where they drew the same bytes.
pub proof fn different_bytes_name_different_files(a: [u8; 16], b: [u8; 16])
    requires
        file_name(a@) == file_name(b@),
    ensures
        a@ == b@,
{
    let p = "punktfunk-spec-"@;
    let e = ".json"@;
    let x = hex_of(a@, 16);
    let y = hex_of(b@, 16);
    assert(x.len() + e.len() == y.len() + e.len()) by {
        assert(file_name(a@).len() == p.len() + x.len() + e.len());
        assert(file_name(b@).len() == p.len() + y.len() + e.len());
    }
    assert forall|i: int| 0 <= i < x.len() implies x[i] == y[i] by {
        assert(file_name(a@)[p.len() + i] == x[i]);
        assert(file_name(b@)[p.len() + i] == y[i]);
    }
    assert(x =~= y);
    hex_is_injective(a@, b@, 16);
    assert(a@ =~= b@);
}

} // verus!
