//! What a controller is: its kind, its key, its battery, and what the client shows of it.

use vstd::prelude::*;
use crate::pad_slot::GamepadPref;
use crate::pad_worker::Pad;
use crate::text::{same, trim, trimmed};

verus! {

/// How often an open pad's battery is read again.
pub const BATTERY_POLL_NS: u64 = 15_000_000_000;

/// The kind of pad the driver reports.
#[derive(Debug, Clone, Copy, PartialEq, Eq, Structural)]
pub enum PadType {
    Ps5,
    Ps4,
    XboxOne,
    SwitchPro,
    /// A pair has the whole surface of a Pro pad.
    JoyconPair,
    /// Anything else, a single Joy-Con included.
    Other,
}

/// Kind of a reported type.
pub open spec fn type_pref(t: PadType) -> GamepadPref {
    match t {
        PadType::Ps5 => GamepadPref::DualSense,
        PadType::Ps4 => GamepadPref::DualShock4,
        PadType::XboxOne => GamepadPref::XboxOne,
        PadType::SwitchPro => GamepadPref::SwitchPro,
        PadType::JoyconPair => GamepadPref::SwitchPro,
        PadType::Other => GamepadPref::Xbox360,
    }
}

/// Kind of a reported type.
pub fn pref_for_type(t: PadType) -> (r: GamepadPref)
    ensures
        r == type_pref(t),
        t == PadType::Ps5 ==> r == GamepadPref::DualSense,
        t == PadType::Ps4 ==> r == GamepadPref::DualShock4,
        t == PadType::XboxOne ==> r == GamepadPref::XboxOne,
        t == PadType::SwitchPro || t == PadType::JoyconPair ==> r == GamepadPref::SwitchPro,
        t == PadType::Other ==> r == GamepadPref::Xbox360,
{
    match t {
        PadType::Ps5 => GamepadPref::DualSense,
        PadType::Ps4 => GamepadPref::DualShock4,
        PadType::XboxOne => GamepadPref::XboxOne,
        PadType::SwitchPro => GamepadPref::SwitchPro,
        PadType::JoyconPair => GamepadPref::SwitchPro,
        PadType::Other => GamepadPref::Xbox360,
    }
}

/// Kind of a device: vendor and product ids speak before the reported type. `sc2` is the kind
/// where the device is a second-generation Steam Controller.
pub open spec fn device_pref(
    t: PadType,
    vid: u16,
    pid: u16,
    sc2: Option<GamepadPref>,
) -> GamepadPref {
    if vid == 0x054C && pid == 0x0DF2 {
        GamepadPref::DualSenseEdge
    } else if sc2 is Some {
        sc2->Some_0
    } else if vid == 0x28DE && (pid == 0x1102 || pid == 0x1142) {
        GamepadPref::SteamController
    } else if vid == 0x28DE && pid == 0x1205 {
        GamepadPref::SteamDeck
    } else {
        type_pref(t)
    }
}

/// A hexadecimal digit.
pub open spec fn hex_of(d: int, upper: bool) -> char {
    if d < 10 {
        (d + '0' as u32) as char
    } else if upper {
        (d - 10 + 'A' as u32) as char
    } else {
        (d - 10 + 'a' as u32) as char
    }
}

/// Four hexadecimal digits.
pub open spec fn hex4(n: u16, upper: bool) -> Seq<char> {
    seq![
        hex_of(n as int / 4096, upper),
        hex_of(n as int / 256 % 16, upper),
        hex_of(n as int / 16 % 16, upper),
        hex_of(n as int % 16, upper),
    ]
}

fn hex_char(d: u16, upper: bool) -> (c: char)
    requires
        d < 16,
    ensures
        c == hex_of(d as int, upper),
{
    let base: u8 = if d < 10 {
        48
    } else if upper {
        55
    } else {
        87
    };
    (base + d as u8) as char
}

fn push_hex4(out: &mut String, n: u16, upper: bool)
    ensures
        final(out)@ == old(out)@ + hex4(n, upper),
{
    let ghost start = out@;
    out.push(hex_char(n / 4096, upper));
    out.push(hex_char(n / 256 % 16, upper));
    out.push(hex_char(n / 16 % 16, upper));
    out.push(hex_char(n % 16, upper));
    assert(out@ =~= start + hex4(n, upper));
}

/// Whether `s` begins with `prefix`.
pub open spec fn begins(s: Seq<char>, prefix: Seq<char>) -> bool {
    prefix.len() <= s.len() && s.take(prefix.len() as int) == prefix
}

/// Whether `s` begins with `prefix`.
pub fn starts_with(s: &str, prefix: &str) -> (r: bool)
    ensures
        r == begins(s@, prefix@),
        r <==> prefix@.len() <= s@.len() && forall|i: int|
            0 <= i < prefix@.len() ==> #[trigger] s@[i] == prefix@[i],
{
    let n: usize = prefix.unicode_len();
    if s.unicode_len() < n {
        return false;
    }
    let mut i: usize = 0;
    while i < n
        invariant
            n == prefix@.len(),
            n <= s@.len(),
            i <= n,
            forall|j: int| 0 <= j < i ==> s@[j] == prefix@[j],
        decreases n - i,
    {
        if s.get_char(i) != prefix.get_char(i) {
            assert(s@.take(n as int)[i as int] != prefix@[i as int]);
            return false;
        }
        i = i + 1;
    }
    assert(s@.take(n as int) =~= prefix@);
    true
}

/// A pad's charge.
#[derive(Debug, Clone, Copy, PartialEq, Eq, Structural)]
pub struct PadBattery {
    pub percent: u8,
    pub charging: bool,
}

/// How a pad is powered.
#[derive(Debug, Clone, Copy, PartialEq, Eq, Structural)]
pub enum PowerState {
    OnBattery,
    Charging,
    Charged,
    NoBattery,
    Error,
    Unknown,
}

/// The charge a power report gives.
pub open spec fn charge(state: PowerState, percentage: i32) -> Option<PadBattery> {
    if percentage < 0 || state == PowerState::NoBattery || state == PowerState::Error || state
        == PowerState::Unknown {
        None
    } else {
        Some(
            PadBattery {
                percent: if percentage > 100 {
                    100
                } else {
                    percentage as u8
                },
                charging: state != PowerState::OnBattery,
            },
        )
    }
}

/// The charge a power report gives. A wired pad, an error and an unknown level are no battery,
/// never an empty one.
pub fn battery_of(state: PowerState, percentage: i32) -> (r: Option<PadBattery>)
    ensures
        r == charge(state, percentage),
        r is Some <==> percentage >= 0 && (state == PowerState::OnBattery || state
            == PowerState::Charging || state == PowerState::Charged),
        r is Some && percentage <= 100 ==> r->Some_0.percent == percentage,
        r is Some && percentage > 100 ==> r->Some_0.percent == 100,
        r is Some ==> r->Some_0.charging == (state != PowerState::OnBattery),
{
    let charging: bool = match state {
        PowerState::OnBattery => false,
        PowerState::Charging => true,
        PowerState::Charged => true,
        _ => {
            return None;
        },
    };
    if percentage < 0 {
        return None;
    }
    let percent: u8 = if percentage > 100 {
        100
    } else {
        percentage as u8
    };
    Some(PadBattery { percent, charging })
}

/// What the client shows of a pad, as values.
#[verifier::ext_equal]
pub struct PadInfoState {
    pub name: Seq<char>,
    pub key: Seq<char>,
    pub pref: GamepadPref,
    pub steam_virtual: bool,
    pub battery: Option<PadBattery>,
    pub detail: Seq<char>,
    pub forwarded: bool,
    pub rumble: bool,
}

/// What the client shows of a pad.
#[derive(Debug)]
pub struct PadInfo {
    pub name: String,
    /// Stable over unplugging: vendor, product and name.
    pub key: String,
    pub pref: GamepadPref,
    /// Steam Input's stand-in for another controller.
    pub steam_virtual: bool,
    /// Known only of a pad that is open.
    pub battery: Option<PadBattery>,
    pub detail: String,
    pub forwarded: bool,
    pub rumble: bool,
}

impl View for PadInfo {
    type V = PadInfoState;

    open spec fn view(&self) -> PadInfoState {
        PadInfoState {
            name: self.name@,
            key: self.key@,
            pref: self.pref,
            steam_virtual: self.steam_virtual,
            battery: self.battery,
            detail: self.detail@,
            forwarded: self.forwarded,
            rumble: self.rumble,
        }
    }
}

/// What is known of a device without opening it.
pub open spec fn described(
    t: PadType,
    vid: u16,
    pid: u16,
    sc2: Option<GamepadPref>,
    name: Seq<char>,
) -> PadInfoState {
    PadInfoState {
        name,
        key: hex4(vid, false) + seq![':'] + hex4(pid, false) + seq![':'] + name,
        pref: device_pref(t, vid, pid, sc2),
        steam_virtual: (vid == 0x28DE && pid == 0x11FF) || begins(name, "Steam Virtual Gamepad"@),
        battery: None,
        detail: hex4(vid, true) + seq![':'] + hex4(pid, true),
        forwarded: true,
        rumble: false,
    }
}

impl PadInfo {
    /// What is known of a device without opening it. A device that gives no name is a
    /// controller.
    pub fn describe(
        t: PadType,
        vid: u16,
        pid: u16,
        sc2: Option<GamepadPref>,
        name: Option<&str>,
    ) -> (p: PadInfo)
        ensures
            p@ == described(t, vid, pid, sc2, (match name {
                Some(n) => n@,
                None => "Controller"@,
            })),
            name is Some ==> p.name@ == name->Some_0@,
            name is None ==> p.name@ == "Controller"@,
            p.key@ == hex4(vid, false) + seq![':'] + hex4(pid, false) + seq![':'] + p.name@,
            p.detail@ == hex4(vid, true) + seq![':'] + hex4(pid, true),
            vid == 0x054C && pid == 0x0DF2 ==> p.pref == GamepadPref::DualSenseEdge,
            !(vid == 0x054C && pid == 0x0DF2) && sc2 is Some ==> p.pref == sc2->Some_0,
            sc2 is None && vid == 0x28DE && (pid == 0x1102 || pid == 0x1142) ==> p.pref
                == GamepadPref::SteamController,
            sc2 is None && vid == 0x28DE && pid == 0x1205 ==> p.pref == GamepadPref::SteamDeck,
            sc2 is None && vid == 0x28DE && pid != 0x1102 && pid != 0x1142 && pid != 0x1205
                ==> p.pref == type_pref(t),
            sc2 is None && vid != 0x28DE && !(vid == 0x054C && pid == 0x0DF2) ==> p.pref
                == type_pref(t),
            p.steam_virtual <==> (vid == 0x28DE && pid == 0x11FF) || begins(
                p.name@,
                "Steam Virtual Gamepad"@,
            ),
            p.battery is None && p.forwarded && !p.rumble,
    {
        let shown: &str = match name {
            Some(n) => n,
            None => "Controller",
        };
        let mut pref: GamepadPref = pref_for_type(t);
        if vid == 0x28DE && pid == 0x1205 {
            pref = GamepadPref::SteamDeck;
        }
        if vid == 0x28DE && (pid == 0x1102 || pid == 0x1142) {
            pref = GamepadPref::SteamController;
        }
        match sc2 {
            Some(k) => {
                pref = k;
            },
            None => {},
        }
        if vid == 0x054C && pid == 0x0DF2 {
            pref = GamepadPref::DualSenseEdge;
        }
        let mut key: String = String::new();
        push_hex4(&mut key, vid, false);
        key.push(':');
        push_hex4(&mut key, pid, false);
        key.push(':');
        key.append(shown);
        let mut detail: String = String::new();
        push_hex4(&mut detail, vid, true);
        detail.push(':');
        push_hex4(&mut detail, pid, true);
        let p = PadInfo {
            name: shown.to_owned(),
            key,
            pref,
            steam_virtual: (vid == 0x28DE && pid == 0x11FF) || starts_with(
                shown,
                "Steam Virtual Gamepad",
            ),
            battery: None,
            detail,
            forwarded: true,
            rumble: false,
        };
        assert(p@ =~= described(t, vid, pid, sc2, shown@));
        p
    }

    /// The pad as the controller table keeps it.
    pub fn pad(&self, id: u32) -> (p: Pad)
        ensures
            p.id == id,
            p.key@ == self@.key,
            p.steam_virtual == self@.steam_virtual,
            p.pref == self@.pref,
    {
        Pad {
            id,
            key: self.key.as_str().to_owned(),
            steam_virtual: self.steam_virtual,
            pref: self.pref,
        }
    }

    fn with_battery(&self, battery: Option<PadBattery>) -> (p: PadInfo)
        ensures
            p@ == (PadInfoState { battery, ..self@ }),
    {
        let p = PadInfo {
            name: self.name.as_str().to_owned(),
            key: self.key.as_str().to_owned(),
            pref: self.pref,
            steam_virtual: self.steam_virtual,
            battery,
            detail: self.detail.as_str().to_owned(),
            forwarded: self.forwarded,
            rumble: self.rumble,
        };
        assert(p@ =~= (PadInfoState { battery, ..self@ }));
        p
    }
}

/// A pad as the client shows it: with its charge where that is the pad it was read of.
pub open spec fn shown(id: u32, info: PadInfoState, battery: Option<(u32, PadBattery)>) -> PadInfoState {
    match battery {
        Some((of, b)) => if of == id {
            PadInfoState { battery: Some(b), ..info }
        } else {
            info
        },
        None => info,
    }
}

/// The list of pads the client shows: newest first.
pub fn published(infos: &Vec<(u32, PadInfo)>, battery: Option<(u32, PadBattery)>) -> (r: Vec<
    PadInfo,
>)
    ensures
        r@.len() == infos@.len(),
        forall|i: int|
            0 <= i < r@.len() ==> (#[trigger] r@[i])@ == shown(
                infos@[infos@.len() - 1 - i].0,
                infos@[infos@.len() - 1 - i].1@,
                battery,
            ),
{
    let mut out: Vec<PadInfo> = Vec::new();
    let mut i: usize = infos.len();
    while i > 0
        invariant
            i <= infos@.len(),
            out@.len() == infos@.len() - i,
            forall|k: int|
                0 <= k < out@.len() ==> (#[trigger] out@[k])@ == shown(
                    infos@[infos@.len() - 1 - k].0,
                    infos@[infos@.len() - 1 - k].1@,
                    battery,
                ),
        decreases i,
    {
        i = i - 1;
        let id: u32 = infos[i].0;
        let level: Option<PadBattery> = match battery {
            Some((of, b)) => if of == id {
                Some(b)
            } else {
                infos[i].1.battery
            },
            None => infos[i].1.battery,
        };
        let p = infos[i].1.with_battery(level);
        assert(p@ =~= shown(id, infos@[i as int].1@, battery));
        out.push(p);
    }
    out
}

/// The charge of the pad the client calls active.
#[derive(Debug, Clone, Copy, PartialEq, Eq)]
pub struct BatteryWatch {
    pub level: Option<(u32, PadBattery)>,
    pub read_at: Option<u64>,
}

impl BatteryWatch {
    /// The pad to read: the active one where it is open, else the first.
    pub open spec fn subject(open: Seq<u32>, active: Option<u32>) -> Option<u32> {
        if open.len() == 0 {
            None
        } else if active is Some && open.contains(active->Some_0) {
            active
        } else {
            Some(open[0])
        }
    }

    /// Whether it is time to read again.
    pub open spec fn is_due(self, now: u64) -> bool {
        self.read_at is None || now - self.read_at->Some_0 >= BATTERY_POLL_NS
    }

    /// The pad to read: the active one where it is open, else the first.
    pub fn target(open: &Vec<u32>, active: Option<u32>) -> (r: Option<u32>)
        ensures
            r == BatteryWatch::subject(open@, active),
            open@.len() == 0 ==> r is None,
            open@.len() > 0 && active is Some && open@.contains(active->Some_0) ==> r == active,
            open@.len() > 0 && !(active is Some && open@.contains(active->Some_0)) ==> r == Some(
                open@[0],
            ),
    {
        if open.len() == 0 {
            return None;
        }
        match active {
            Some(a) => if crate::gesture::holds(open.as_slice(), a) {
                Some(a)
            } else {
                Some(open[0])
            },
            None => Some(open[0]),
        }
    }

    /// Nothing is open. Answers whether the shown list changed.
    pub fn clear(&mut self) -> (r: bool)
        ensures
            r == (old(self).level is Some),
            final(self).level is None,
            final(self).read_at is None,
    {
        let had: bool = self.level.is_some();
        self.level = None;
        self.read_at = None;
        had
    }

    /// Whether it is time to read again.
    pub fn due(&self, now: u64) -> (r: bool)
        ensures
            r == self.is_due(now),
            r == (self.read_at is None || now >= self.read_at->Some_0 + 15_000_000_000),
    {
        match self.read_at {
            Some(t) => now.saturating_sub(t) >= BATTERY_POLL_NS,
            None => true,
        }
    }

    /// The charge was read. Answers whether the shown list changed.
    pub fn on_reading(&mut self, id: u32, fresh: Option<PadBattery>, now: u64) -> (r: bool)
        ensures
            final(self).read_at == Some(now),
            final(self).level == (match fresh {
                Some(b) => Some((id, b)),
                None => None,
            }),
            r == (final(self).level != old(self).level),
    {
        let changed: bool = match (fresh, self.level) {
            (Some(b), Some((of, was))) => of != id || b != was,
            (None, None) => false,
            _ => true,
        };
        self.read_at = Some(now);
        self.level = match fresh {
            Some(b) => Some((id, b)),
            None => None,
        };
        changed
    }
}

/// The kind asked of the host before any pad is open: a real pad's own, a Steam Deck's behind
/// its stand-in, else the stand-in's, else the host's choice.
pub open spec fn session_pref(active: Option<(bool, GamepadPref)>, on_deck: bool) -> GamepadPref {
    match active {
        Some((steam_virtual, pref)) => if steam_virtual && on_deck {
            GamepadPref::SteamDeck
        } else {
            pref
        },
        None => if on_deck {
            GamepadPref::SteamDeck
        } else {
            GamepadPref::Auto
        },
    }
}

/// The kind asked of the host before any pad is open.
pub fn auto_pref(active: Option<&PadInfo>, on_deck: bool) -> (r: GamepadPref)
    ensures
        r == session_pref((match active {
            Some(p) => Some((p.steam_virtual, p.pref)),
            None => None,
        }), on_deck),
        active is Some && active->Some_0.steam_virtual && on_deck ==> r == GamepadPref::SteamDeck,
        active is Some && !(active->Some_0.steam_virtual && on_deck) ==> r == active->Some_0.pref,
        active is None && on_deck ==> r == GamepadPref::SteamDeck,
        active is None && !on_deck ==> r == GamepadPref::Auto,
{
    match active {
        Some(p) => if p.steam_virtual && on_deck {
            GamepadPref::SteamDeck
        } else {
            p.pref
        },
        None => if on_deck {
            GamepadPref::SteamDeck
        } else {
            GamepadPref::Auto
        },
    }
}

/// Whether text, where there is any, is a word once white space is cut off.
pub open spec fn reads(text: Option<&str>, word: Seq<char>) -> bool {
    text is Some && trimmed(text->Some_0@) == word
}

fn read_as(text: Option<&str>, word: &str) -> (r: bool)
    ensures
        r == reads(text, word@),
{
    match text {
        Some(t) => {
            let cut: String = trim(t);
            same(cut.as_str(), word)
        },
        None => false,
    }
}

/// Whether this machine is a Steam Deck. The variable's value counts, not its presence: Steam
/// on a desktop sets it to zero. Without it the board's vendor and product decide.
pub fn is_steam_deck(env: Option<&str>, vendor: Option<&str>, product: Option<&str>) -> (r: bool)
    ensures
        r == (reads(env, "1"@) || (reads(vendor, "Valve"@) && (reads(product, "Jupiter"@) || reads(
            product,
            "Galileo"@,
        )))),
        env is Some && trimmed(env->Some_0@) == "1"@ ==> r,
        vendor is Some && trimmed(vendor->Some_0@) == "Valve"@ && product is Some && (trimmed(
            product->Some_0@,
        ) == "Jupiter"@ || trimmed(product->Some_0@) == "Galileo"@) ==> r,
        !(env is Some && trimmed(env->Some_0@) == "1"@) && !(vendor is Some && trimmed(
            vendor->Some_0@,
        ) == "Valve"@) ==> !r,
        !(env is Some && trimmed(env->Some_0@) == "1"@) && !(product is Some && (trimmed(
            product->Some_0@,
        ) == "Jupiter"@ || trimmed(product->Some_0@) == "Galileo"@)) ==> !r,
{
    if read_as(env, "1") {
        return true;
    }
    read_as(vendor, "Valve") && (read_as(product, "Jupiter") || read_as(product, "Galileo"))
}

/// How a pad is connected.
#[derive(Debug, Clone, Copy, PartialEq, Eq, Structural)]
pub enum Connection {
    Wired,
    Wireless,
    Unknown,
}

/// Whether a connection counts as wired; where it is unknown, an audio device of the pad's own
/// speaks for a wire.
pub open spec fn counts_as_wired(connection: Connection, audio_sibling: bool) -> bool {
    connection == Connection::Wired || (connection == Connection::Unknown && audio_sibling)
}

/// Which pad-audio streams a pad renders: what the user wants, where it is a DualSense on a
/// wire; none otherwise.
pub fn pad_audio_caps_for(prefs: u8, dualsense: bool, connection: Connection, audio_sibling: bool) -> (r:
    u8)
    ensures
        r == (if dualsense && counts_as_wired(connection, audio_sibling) {
            prefs
        } else {
            0
        }),
        dualsense && connection == Connection::Wired ==> r == prefs,
        dualsense && connection == Connection::Unknown && audio_sibling ==> r == prefs,
        !dualsense || connection == Connection::Wireless ==> r == 0,
        connection == Connection::Unknown && !audio_sibling ==> r == 0,
{
    if prefs == 0 || !dualsense {
        return 0;
    }
    let wired: bool = match connection {
        Connection::Wired => true,
        Connection::Wireless => false,
        Connection::Unknown => audio_sibling,
    };
    if wired {
        prefs
    } else {
        0
    }
}

/// The user's pad-audio wishes as bits: haptics first, speaker second.
pub fn audio_pref_bits(haptics: bool, speaker: bool) -> (r: u8)
    ensures
        r == (if haptics {
            1int
        } else {
            0
        }) + (if speaker {
            2int
        } else {
            0
        }),
{
    let h: u8 = if haptics {
        1
    } else {
        0
    };
    let s: u8 = if speaker {
        2
    } else {
        0
    };
    h + s
}

} // verus!
