//! What opening a device tells the host, what the host's answers do to it, and how the client
//! spells and shows it.

use vstd::prelude::*;
use crate::ds5::{
    audio_ctl_bytes, byte_of, hex_digit, hex_value, lightbar_bytes, lit, mic_led_bytes, player_bytes,
    trigger_bytes,
};
use crate::pad_control::{pulse_shape, WorkerState};
use crate::pad_ctl::{Ctl, PadEvent};
use crate::pad_feedback::{pad_of, player_of, EffectState, HidOutput};
use crate::pad_info::{hex4, shown, PadBattery, PadInfoState};
use crate::pad_open::{kind_of, slot_of_index, taken, Opened};
use crate::pad_slot::{Act, GamepadPref, SlotState};
use crate::pad_worker::PadState;
use crate::slot_laws::one_if;
use crate::text::{opt_view, parsed, trimmed};

verus! {

/// What the client says does what it says, and only that: each message reaches its own part of
/// the worker, and a setting changes that setting alone.
pub proof fn a_message_does_what_it_says(w: WorkerState, ctl: Ctl, now: u64)
    ensures
        ({
            let (v, acts) = w.told(ctl, now);
            match ctl {
                Ctl::Attach => (v, acts) == w.attach(),
                Ctl::Detach => (v, acts) == w.detach(),
                Ctl::Pin(key) => (v, acts) == (WorkerState {
                    pinned: opt_view(key),
                    ..w
                }).refreshed(),
                Ctl::KindOverride(pref) => acts.len() == 0 && v == (WorkerState {
                    kind_override: pref,
                    ..w
                }),
                Ctl::ChordsLive(on) => {
                    &&& acts.len() == 0 && v.routing.chords_live == on
                    &&& v.routing.system_forward == w.routing.system_forward
                    &&& v.routing.guide_gesture == w.routing.guide_gesture
                    &&& v == (WorkerState { routing: v.routing, ..w })
                },
                Ctl::SystemButtons { forward_raw, gesture } => (v, acts) == w.system_buttons(
                    forward_raw,
                    gesture,
                ),
                Ctl::TapButton(bit) => (v, acts) == w.tap(bit, now),
                Ctl::Mask => (v, acts) == w.mask(),
                Ctl::Unmask(held) => (v, acts) == w.unmask(held@),
                Ctl::Forwarding(on) => (v, acts) == w.forward(on),
                Ctl::PadAudioPrefs(bits) => acts.len() == 0 && v == (WorkerState {
                    audio_prefs: bits & 3,
                    ..w
                }),
                Ctl::MenuMode(on) => (v, acts) == w.menu(on),
                Ctl::RingNav(on) => acts == seq![Act::MenuReset] && v == (WorkerState {
                    ring_nav: on,
                    ..w
                }),
                Ctl::MenuRumble(pulse) => {
                    &&& v == w
                    &&& w.pulsed() is None ==> acts.len() == 0
                    &&& w.pulsed() is Some ==> acts == seq![
                        Act::Pulse {
                            id: w.pulsed()->Some_0,
                            low: pulse_shape(pulse).0,
                            high: pulse_shape(pulse).1,
                            ms: pulse_shape(pulse).2,
                        },
                    ]
                },
            }
        }),
{
}

/// A plug, an unplug and a report each reach their own part of the worker.
pub proof fn an_event_reaches_its_part(w: WorkerState, event: PadEvent, now: u64)
    ensures
        match event {
            PadEvent::Added(pad) => w.reported(event, now) == w.added(pad@),
            PadEvent::Removed(id) => w.reported(event, now) == w.removed(id),
            PadEvent::Input { id, input } => w.reported(event, now) == w.input(id, input, now),
        },
{
}

/// A device is the newest pad with its id, or the commonest kind where nobody described it; a
/// stand-in on a Steam Deck is the Deck.
pub proof fn a_device_is_its_newest_pad(order: Seq<PadState>, id: u32, on_deck: bool, i: int)
    ensures
        (forall|j: int| 0 <= j < order.len() ==> (#[trigger] order[j]).id != id) ==> kind_of(
            order,
            id,
            on_deck,
        ) == GamepadPref::Xbox360,
        0 <= i < order.len() && order[i].id == id && (forall|j: int|
            i < j < order.len() ==> (#[trigger] order[j]).id != id) ==> kind_of(order, id, on_deck)
            == (if order[i].steam_virtual && on_deck {
            GamepadPref::SteamDeck
        } else {
            order[i].pref
        }),
    decreases order.len(),
{
    if order.len() > 0 {
        let rest = order.drop_last();
        a_device_is_its_newest_pad(rest, id, on_deck, i);
        assert forall|j: int| 0 <= j < rest.len() implies (#[trigger] rest[j]) == order[j] by {}
        assert(order[order.len() - 1] == order.last());
    }
}

/// An index means the first slot that has it.
pub proof fn an_index_means_its_slot(slots: Seq<SlotState>, index: u8)
    ensures
        match slot_of_index(slots, index) {
            Some(i) => 0 <= i < slots.len() && slots[i].index == index && forall|j: int|
                0 <= j < i ==> (#[trigger] slots[j]).index != index,
            None => forall|j: int| 0 <= j < slots.len() ==> (#[trigger] slots[j]).index != index,
        },
    decreases slots.len(),
{
    if slots.len() > 0 {
        let rest = slots.drop_last();
        an_index_means_its_slot(rest, index);
        assert forall|j: int| 0 <= j < rest.len() implies (#[trigger] slots[j]) == rest[j] by {}
        assert(slots[slots.len() - 1] == slots.last());
    }
}

/// Every slot's index counts as taken, and no other.
pub proof fn a_slots_index_is_taken(slots: Seq<SlotState>, index: u8)
    ensures
        taken(slots).contains(index) <==> exists|i: int|
            0 <= i < slots.len() && (#[trigger] slots[i]).index == index,
        taken(slots).len() == slots.len(),
{
    let t = taken(slots);
    if t.contains(index) {
        let k = choose|k: int| 0 <= k < t.len() && t[k] == index;
        assert(slots[k].index == index);
    }
    if exists|i: int| 0 <= i < slots.len() && (#[trigger] slots[i]).index == index {
        let k = choose|k: int| 0 <= k < slots.len() && (#[trigger] slots[k]).index == index;
        assert(t[k] == index);
    }
}

/// A device that opens is appended as what it is, told to the host as what the client says or
/// else as that, with its sensors streaming unless its reports pass raw. The host hears its audio
/// before its arrival, and its actuator's quirks after: a Steam Deck's is driven again every 40
/// ms. Reports pass raw where the device is a second-generation Steam Controller and is told as
/// one. What renders audio is readied.
pub proof fn what_the_host_hears_of_a_device(w: WorkerState, id: u32, index: u8, f: Opened)
    ensures
        ({
            let (v, acts) = w.opened(id, index, f);
            let pref = kind_of(w.order, id, f.on_deck);
            let declared = if w.kind_override == GamepadPref::Auto {
                pref
            } else {
                w.kind_override
            };
            let sc2 = GamepadPref::SteamController2;
            let raw = pref == sc2 && declared == sc2;
            let deck = pref == GamepadPref::SteamDeck;
            let caps = f.audio_caps;
            &&& v == (WorkerState {
                slots: w.slots.push(
                    SlotState::fresh(id, index, pref, declared, f.multi, caps, false),
                ),
                ..w
            })
            &&& acts == one_if(!raw, Act::Sensors { id }) + one_if(
                w.attached,
                Act::AudioCaps { pad: index, caps },
            ) + one_if(w.attached, Act::Arrival { pad: index, kind: declared }) + one_if(
                w.attached,
                Act::RumbleQuirks {
                    pad: index,
                    keepalive_ms: if deck {
                        40
                    } else {
                        0
                    },
                    dedup_jitter: deck,
                },
            ) + one_if(w.attached && raw, Act::OpenRaw { id, pad: index }) + one_if(
                caps & 1 != 0,
                Act::ArmCoils { id },
            ) + one_if(caps & 2 != 0, Act::EnableSpeaker { id }) + one_if(
                caps != 0,
                Act::RegisterAudio { pad: index },
            )
        }),
{
    let (v, acts) = w.opened(id, index, f);
    let pref = kind_of(w.order, id, f.on_deck);
    let declared = if w.kind_override == GamepadPref::Auto {
        pref
    } else {
        w.kind_override
    };
    let sc2 = GamepadPref::SteamController2;
    let raw = pref == sc2 && declared == sc2;
    let deck = pref == GamepadPref::SteamDeck;
    let caps = f.audio_caps;
    assert(acts =~= one_if(!raw, Act::Sensors { id }) + one_if(
        w.attached,
        Act::AudioCaps { pad: index, caps },
    ) + one_if(w.attached, Act::Arrival { pad: index, kind: declared }) + one_if(
        w.attached,
        Act::RumbleQuirks {
            pad: index,
            keepalive_ms: if deck {
                40
            } else {
                0
            },
            dedup_jitter: deck,
        },
    ) + one_if(w.attached && raw, Act::OpenRaw { id, pad: index }) + one_if(
        caps & 1 != 0,
        Act::ArmCoils { id },
    ) + one_if(caps & 2 != 0, Act::EnableSpeaker { id }) + one_if(
        caps != 0,
        Act::RegisterAudio { pad: index },
    ));
}

/// A rumble reaches the motors as it was asked for, a stop for 100 ms and anything else to its
/// backstop; not where the host drives them raw, nor while a pad that renders haptics hears them.
/// A rumble on such a pad mutes its coils until they are armed again.
pub proof fn what_a_rumble_does(s: SlotState, low: u16, high: u16, backstop: u32, live: bool)
    ensures
        ({
            let (t, e) = s.rumbled(low, high, backstop, live);
            let haptics = s.audio_caps & 1 != 0;
            &&& s.raw_rumble ==> t == s && e is None
            &&& !s.raw_rumble && haptics && live ==> t == (SlotState { rumble_told: true, ..s }) && e
                is None
            &&& !s.raw_rumble && !(haptics && live) ==> {
                &&& e == Some(
                    EffectState::Rumble {
                        low,
                        high,
                        ms: if low == 0 && high == 0 {
                            100
                        } else {
                            backstop
                        },
                    },
                )
                &&& haptics ==> t == (SlotState { coils_muted: true, ..s })
                &&& !haptics ==> t == s
            }
            &&& s.coils_owed(live) == (s.coils_muted && live)
        }),
{
}

/// A report of the host reaches the part it speaks of: on a DualSense as its own packet, on
/// another pad as a light or a player; triggers, the microphone's light and audio only on a
/// DualSense, audio only where it renders some; raw writes only where reports pass raw, the first
/// of them stopping the motors. Nothing but the motors' owner changes.
pub proof fn what_a_report_does(s: SlotState, h: HidOutput)
    ensures
        ({
            let (t, e) = s.told(h);
            let ds = s.pref == GamepadPref::DualSense || s.pref == GamepadPref::DualSenseEdge;
            match h {
                HidOutput::Led { pad, r, g, b } => {
                    &&& t == s && pad_of(h) == pad
                    &&& ds ==> e == seq![EffectState::Packet { bytes: lightbar_bytes(r, g, b) }]
                    &&& !ds ==> e == seq![EffectState::Led { r, g, b }]
                },
                HidOutput::PlayerLeds { pad, bits } => {
                    &&& t == s && pad_of(h) == pad
                    &&& ds ==> e == seq![EffectState::Packet { bytes: player_bytes(bits) }]
                    &&& !ds && lit(bits) == 0 ==> e == seq![
                        EffectState::Player { index: None },
                    ]
                    &&& !ds && lit(bits) > 0 ==> e == seq![
                        EffectState::Player { index: Some((lit(bits) - 1) as u16) },
                    ]
                },
                HidOutput::MicLed { pad, mode } => {
                    &&& t == s && pad_of(h) == pad
                    &&& ds ==> e == seq![EffectState::Packet { bytes: mic_led_bytes(mode) }]
                    &&& !ds ==> e.len() == 0
                },
                HidOutput::Trigger { pad, which, effect } => {
                    &&& t == s && pad_of(h) == pad
                    &&& ds ==> e == seq![
                        EffectState::Packet { bytes: trigger_bytes(which, effect@) },
                    ]
                    &&& !ds ==> e.len() == 0
                },
                HidOutput::AudioCtl { pad, flags, raw } => {
                    &&& t == s
                    &&& pad < 256 ==> pad_of(h) == pad
                    &&& ds && s.audio_caps != 0 ==> e == seq![
                        EffectState::Packet { bytes: audio_ctl_bytes(flags, raw@) },
                    ]
                    &&& !(ds && s.audio_caps != 0) ==> e.len() == 0
                },
                HidOutput::HidRaw { pad, kind, data } => {
                    let raw = EffectState::Raw { kind, data: data@ };
                    let stop = EffectState::Rumble { low: 0, high: 0, ms: 100 };
                    &&& pad_of(h) == pad
                    &&& !s.raw ==> t == s && e.len() == 0
                    &&& s.raw ==> t == (SlotState { raw_rumble: true, ..s })
                    &&& s.raw && s.raw_rumble ==> e == seq![raw]
                    &&& s.raw && !s.raw_rumble ==> e == seq![stop, raw]
                },
                HidOutput::TrackpadHaptic { pad, .. } => t == s && e.len() == 0 && pad_of(h) == pad,
            }
        }),
{
}

/// A pad at rest has its motors stopped and its lights dark, and a DualSense its triggers free.
pub proof fn what_rest_means(s: SlotState)
    ensures
        ({
            let e = s.rest();
            let ds = s.pref == GamepadPref::DualSense || s.pref == GamepadPref::DualSenseEdge;
            let none = Seq::new(11, |i: int| 0u8);
            &&& e[0] == (EffectState::Rumble { low: 0, high: 0, ms: 100 })
            &&& !ds ==> e.len() == 2 && e[1] == (EffectState::Led { r: 0, g: 0, b: 0 })
            &&& ds ==> e.len() == 5 && e[1] == (EffectState::Packet {
                bytes: trigger_bytes(0, none),
            }) && e[2] == (EffectState::Packet { bytes: trigger_bytes(1, none) }) && e[3] == (
            EffectState::Packet { bytes: lightbar_bytes(0, 0, 0) }) && e[4] == (
            EffectState::Packet { bytes: player_bytes(0) })
        }),
{
    let none = Seq::new(11, |i: int| 0u8);
    assert(none =~= Seq::new(11, |i: int| 0u8));
    assert(trigger_bytes(0, none) =~= trigger_bytes(0, Seq::new(11, |i: int| 0u8)));
}

/// One light more is one player more, whichever of the five it is; dark is no player, and what is
/// above the fifth does not count.
pub proof fn a_light_more_is_a_player_more(bits: u8)
    ensures
        lit(0) == 0,
        bits & 1 == 0 ==> lit(bits | 1) == lit(bits) + 1,
        bits & 2 == 0 ==> lit(bits | 2) == lit(bits) + 1,
        bits & 4 == 0 ==> lit(bits | 4) == lit(bits) + 1,
        bits & 8 == 0 ==> lit(bits | 8) == lit(bits) + 1,
        bits & 16 == 0 ==> lit(bits | 16) == lit(bits) + 1,
        lit(bits & 31) == lit(bits),
        lit(bits) > 0 ==> player_of(bits) == Some((lit(bits) - 1) as u16),
        lit(bits) == 0 ==> player_of(bits) is None,
{
    assert(0u8 & 1 == 0 && 0u8 & 2 == 0 && 0u8 & 4 == 0 && 0u8 & 8 == 0 && 0u8 & 16 == 0
        && (bits | 1) & 1 != 0 && (bits | 1) & 2 == bits & 2 && (bits | 1) & 4 == bits & 4 && (bits
        | 1) & 8 == bits & 8 && (bits | 1) & 16 == bits & 16 && (bits | 2) & 2 != 0 && (bits | 2) & 1
        == bits & 1 && (bits | 2) & 4 == bits & 4 && (bits | 2) & 8 == bits & 8 && (bits | 2) & 16
        == bits & 16 && (bits | 4) & 4 != 0 && (bits | 4) & 1 == bits & 1 && (bits | 4) & 2 == bits
        & 2 && (bits | 4) & 8 == bits & 8 && (bits | 4) & 16 == bits & 16 && (bits | 8) & 8 != 0 && (
    bits | 8) & 1 == bits & 1 && (bits | 8) & 2 == bits & 2 && (bits | 8) & 4 == bits & 4 && (bits
        | 8) & 16 == bits & 16 && (bits | 16) & 16 != 0 && (bits | 16) & 1 == bits & 1 && (bits | 16)
        & 2 == bits & 2 && (bits | 16) & 4 == bits & 4 && (bits | 16) & 8 == bits & 8 && (bits & 31)
        & 1 == bits & 1 && (bits & 31) & 2 == bits & 2 && (bits & 31) & 4 == bits & 4 && (bits & 31)
        & 8 == bits & 8 && (bits & 31) & 16 == bits & 16) by (bit_vector);
}

/// Hexadecimal digits count from nought to fifteen in either case, and nothing else is a digit;
/// each further digit weighs a sixteenth of the one before it.
pub proof fn digits_count_by_sixteen(s: Seq<char>, c: char)
    ensures
        '0' <= c && c <= '9' ==> hex_digit(c) == Some(c as int - 48),
        'a' <= c && c <= 'f' ==> hex_digit(c) == Some(c as int - 87),
        'A' <= c && c <= 'F' ==> hex_digit(c) == Some(c as int - 55),
        !('0' <= c && c <= '9') && !('a' <= c && c <= 'f') && !('A' <= c && c <= 'F')
            ==> hex_digit(c) is None,
        hex_value(Seq::empty()) == Some(0int),
        hex_value(s) is Some && hex_digit(c) is Some ==> hex_value(s.push(c)) == Some(
            16 * hex_value(s)->Some_0 + hex_digit(c)->Some_0,
        ),
        hex_value(s) is None || hex_digit(c) is None ==> hex_value(s.push(c)) is None,
{
    assert(s.push(c).drop_last() =~= s);
}

/// A byte is read as hexadecimal behind a nought and an x, with or without a plus sign, and as
/// decimal otherwise; what is no number, or more than 255, is no byte.
pub proof fn a_byte_reads_as_it_is_written(s: Seq<char>)
    ensures
        ({
            let t = trimmed(s);
            let hexed = t.len() >= 2 && t[0] == '0' && (t[1] == 'x' || t[1] == 'X');
            let h = if t.len() > 2 && t[2] == '+' {
                t.skip(3)
            } else {
                t.skip(2)
            };
            &&& !hexed ==> byte_of(s) == parsed(t, 255)
            &&& hexed && h.len() > 0 && hex_value(h) is Some && hex_value(h)->Some_0 <= 255
                ==> byte_of(s) == hex_value(h)
            &&& hexed && (h.len() == 0 || hex_value(h) is None || hex_value(h)->Some_0 > 255)
                ==> byte_of(s) is None
        }),
{
    let t = trimmed(s);
    if t.len() > 2 {
        assert(t.skip(2).skip(1) =~= t.skip(3));
    }
}

/// Four hexadecimal digits spell the number they stand for, in the case that was asked for.
pub proof fn four_digits_spell_the_number(n: u16, upper: bool, i: int)
    ensures
        ({
            let s = hex4(n, upper);
            &&& s.len() == 4
            &&& hex_value(s) == Some(n as int)
            &&& 0 <= i < 4 && upper ==> !('a' <= s[i] && s[i] <= 'f')
            &&& 0 <= i < 4 && !upper ==> !('A' <= s[i] && s[i] <= 'F')
        }),
{
    let s = hex4(n, upper);
    reveal_with_fuel(hex_value, 5);
    assert(s.drop_last() =~= seq![s[0], s[1], s[2]]);
    assert(s.drop_last().drop_last() =~= seq![s[0], s[1]]);
    assert(s.drop_last().drop_last().drop_last() =~= seq![s[0]]);
    assert(s.drop_last().drop_last().drop_last().drop_last() =~= Seq::<char>::empty());
}

/// A pad is shown with the charge that was read of it, and every other as it is.
pub proof fn a_charge_is_shown_on_its_own_pad(
    id: u32,
    of: u32,
    info: PadInfoState,
    b: PadBattery,
)
    ensures
        shown(id, info, None) == info,
        of != id ==> shown(id, info, Some((of, b))) == info,
        shown(id, info, Some((id, b))) == (PadInfoState { battery: Some(b), ..info }),
{
}

} // verus!
