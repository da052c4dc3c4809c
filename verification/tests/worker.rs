//! The controller worker: slots, indices, chords, masks, menu pads and feedback.

use pf_client_core::buttons::{
    axis_value, button_bit, PadAxis, PadButton, AXIS_LS_X, AXIS_LS_Y, AXIS_RT, BTN_A, BTN_B,
    BTN_BACK, BTN_GUIDE, BTN_MISC1, BTN_PADDLE4, BTN_TOUCHPAD, BTN_X,
};
use pf_client_core::ds5::{speaker_setup, Ds5Feedback};
use pf_client_core::gesture::{SelectChord, GUIDE_HOLD_NS, TAP_PRESS_NS};
use pf_client_core::menu::{acting_pad, merge_samples, wait_ms, MenuSample};
use pf_client_core::pad_control::{Held, MenuPulse, Worker};
use pf_client_core::pad_ctl::{Ctl, PadEvent};
use pf_client_core::pad_feedback::{Effect, HidOutput};
use pf_client_core::pad_open::Opened;
use pf_client_core::pad_slot::{Act, Contact, GamepadPref, Triple};
use pf_client_core::pad_worker::{
    active_id, candidate_ids, steam_click_surface, Pad, PadInput, DECK_RUMBLE_KEEPALIVE_MS,
    DISCONNECT_HOLD_NS,
};

const T: u64 = 1_000_000_000;

fn pad(id: u32, key: &str) -> Pad {
    Pad {
        id,
        key: key.into(),
        steam_virtual: false,
        pref: GamepadPref::Xbox360,
    }
}

fn stand_in(id: u32) -> Pad {
    Pad {
        steam_virtual: true,
        ..pad(id, "28de:11ff:Steam Virtual Gamepad")
    }
}

fn plain() -> Opened {
    Opened {
        on_deck: false,
        multi: false,
        audio_caps: 0,
    }
}

fn tell(w: &mut Worker, ctl: Ctl) -> Vec<Act> {
    let mut out = Vec::new();
    w.on_ctl(ctl, T, &mut out);
    out
}

fn report(w: &mut Worker, event: PadEvent, now: u64) -> Vec<Act> {
    let mut out = Vec::new();
    w.handle_event(event, now, &mut out);
    out
}

fn press(w: &mut Worker, id: u32, button: PadButton, now: u64) -> Vec<Act> {
    let input = PadInput::Down { button };
    report(w, PadEvent::Input { id, input }, now)
}

fn lift(w: &mut Worker, id: u32, button: PadButton, now: u64) -> Vec<Act> {
    let input = PadInput::Up { button };
    report(w, PadEvent::Input { id, input }, now)
}

fn opened(w: &mut Worker, id: u32, facts: Opened) -> Vec<Act> {
    let mut out = Vec::new();
    w.slot_opened(id, facts, &mut out);
    out
}

/// Pads 1, 2 and 3 plugged in and forwarded.
fn session() -> Worker {
    let mut w = Worker::new();
    for id in [1, 2, 3] {
        report(&mut w, PadEvent::Added(pad(id, &format!("pad{id}"))), T);
    }
    tell(&mut w, Ctl::Attach);
    for id in [1, 2, 3] {
        opened(&mut w, id, plain());
    }
    w
}

fn button(pad: u8, bit: u32, down: bool) -> Act {
    Act::Button { pad, bit, down }
}

#[test]
fn attaching_asks_for_every_real_pad_and_detaching_closes_them() {
    let mut w = Worker::new();
    report(&mut w, PadEvent::Added(stand_in(9)), T);
    report(&mut w, PadEvent::Added(pad(1, "a")), T);
    let acts = tell(&mut w, Ctl::Attach);
    assert_eq!(acts, vec![Act::Valve { on: true }, Act::OpenSlot { id: 1 }]);
    let acts = opened(&mut w, 1, plain());
    assert_eq!(
        acts,
        vec![
            Act::Sensors { id: 1 },
            Act::AudioCaps { pad: 0, caps: 0 },
            Act::Arrival {
                pad: 0,
                kind: GamepadPref::Xbox360
            },
            Act::RumbleQuirks {
                pad: 0,
                keepalive_ms: 0,
                dedup_jitter: false
            },
        ]
    );
    let acts = tell(&mut w, Ctl::Detach);
    assert_eq!(
        acts,
        vec![
            Act::Neutral { id: 1 },
            Act::Remove { pad: 0 },
            Act::Valve { on: false }
        ]
    );
    assert!(w.slots.is_empty());
}

#[test]
fn a_disconnect_frees_only_its_own_index() {
    let mut w = session();
    assert_eq!(w.slots.iter().map(|s| s.index).collect::<Vec<_>>(), [0, 1, 2]);
    report(&mut w, PadEvent::Removed(2), T);
    assert_eq!(w.slots.iter().map(|s| s.index).collect::<Vec<_>>(), [0, 2]);
    let acts = report(&mut w, PadEvent::Added(pad(7, "pad7")), T);
    assert_eq!(acts, vec![Act::OpenSlot { id: 7 }, Act::Publish]);
    opened(&mut w, 7, plain());
    assert_eq!(w.slots.last().unwrap().index, 1, "the freed index, not a new one");
    assert!(opened(&mut w, 7, plain()).is_empty(), "open already");
    assert!(report(&mut w, PadEvent::Added(pad(7, "pad7")), T).is_empty());
    assert!(report(&mut w, PadEvent::Removed(99), T).is_empty());
}

#[test]
fn a_full_table_takes_no_more() {
    let mut w = Worker::new();
    tell(&mut w, Ctl::Attach);
    for id in 0..16 {
        report(&mut w, PadEvent::Added(pad(id, "k")), T);
        assert!(!opened(&mut w, id, plain()).is_empty());
    }
    report(&mut w, PadEvent::Added(pad(50, "k")), T);
    assert!(opened(&mut w, 50, plain()).is_empty());
    assert_eq!(w.next_index(), None);
}

#[test]
fn a_pin_forwards_one_pad_and_an_unmatched_one_is_kept() {
    let pads = vec![pad(1, "a"), stand_in(2), pad(3, "b"), pad(4, "a")];
    assert_eq!(candidate_ids(&pads, &Some("a".into())), [4], "the newest with that key");
    assert_eq!(candidate_ids(&pads, &Some("zz".into())), [1, 3, 4]);
    assert_eq!(candidate_ids(&pads, &None), [1, 3, 4]);
    assert_eq!(candidate_ids(&vec![stand_in(2), stand_in(5)], &None), [2, 5]);
    assert_eq!(active_id(&pads, &Some("b".into())), Some(3));
    assert_eq!(active_id(&pads, &None), Some(4));
    assert_eq!(active_id(&vec![stand_in(2), stand_in(5)], &None), Some(5));
    assert_eq!(active_id(&Vec::new(), &None), None);
    let mut w = session();
    let acts = tell(&mut w, Ctl::Pin(Some("pad2".into())));
    assert!(acts.contains(&Act::Remove { pad: 0 }) && acts.contains(&Act::Remove { pad: 2 }));
    assert_eq!(w.slots.len(), 1);
    assert_eq!(w.pinned.as_deref(), Some("pad2"));
}

#[test]
fn without_forwarding_no_slot_is_opened() {
    let mut w = session();
    let acts = tell(&mut w, Ctl::Forwarding(false));
    assert!(w.slots.is_empty());
    assert_eq!(acts.last(), Some(&Act::Valve { on: false }));
    assert!(w.forwarded_ids().is_empty());
    assert!(tell(&mut w, Ctl::Forwarding(false)).is_empty());
    assert_eq!(
        tell(&mut w, Ctl::Forwarding(true)),
        vec![
            Act::Valve { on: true },
            Act::OpenSlot { id: 1 },
            Act::OpenSlot { id: 2 },
            Act::OpenSlot { id: 3 }
        ]
    );
}

#[test]
fn a_press_and_its_release_go_out_on_the_pads_index() {
    let mut w = session();
    assert_eq!(press(&mut w, 2, PadButton::South, T), [button(1, BTN_A, true)]);
    assert_eq!(lift(&mut w, 2, PadButton::South, T), [button(1, BTN_A, false)]);
    assert!(press(&mut w, 77, PadButton::South, T).is_empty(), "not one of ours");
}

#[test]
fn system_buttons_stay_local_when_told_to() {
    let mut w = session();
    assert_eq!(
        tell(
            &mut w,
            Ctl::SystemButtons {
                forward_raw: false,
                gesture: false
            }
        ),
        vec![Act::RawGate {
            masked: false,
            system_forward: false
        }]
    );
    assert!(press(&mut w, 1, PadButton::Guide, T).is_empty());
    assert!(lift(&mut w, 1, PadButton::Guide, T).is_empty());
    assert!(press(&mut w, 1, PadButton::Misc1, T).is_empty());
    assert_eq!(press(&mut w, 1, PadButton::East, T), [button(0, BTN_B, true)]);
}

#[test]
fn a_held_select_becomes_guide_and_a_flip_lifts_it() {
    let mut w = session();
    let on = Ctl::SystemButtons {
        forward_raw: true,
        gesture: true,
    };
    tell(&mut w, on);
    assert!(press(&mut w, 1, PadButton::Back, T).is_empty());
    let mut out = Vec::new();
    w.gesture_poll(T + GUIDE_HOLD_NS, &mut out);
    assert_eq!(out, [button(0, BTN_GUIDE, true)]);
    let off = Ctl::SystemButtons {
        forward_raw: true,
        gesture: false,
    };
    assert!(tell(&mut w, off).contains(&button(0, BTN_GUIDE, false)));
}

#[test]
fn a_ring_chord_keeps_both_buttons_from_the_game_and_stats_keeps_none() {
    let mut w = session();
    tell(&mut w, Ctl::ChordsLive(true));
    press(&mut w, 1, PadButton::Back, T);
    assert_eq!(
        press(&mut w, 1, PadButton::South, T),
        vec![Act::Chord {
            pad: 0,
            chord: SelectChord::Ring
        }]
    );
    assert!(lift(&mut w, 1, PadButton::South, T).is_empty());
    assert_eq!(
        press(&mut w, 1, PadButton::West, T),
        vec![
            Act::Chord {
                pad: 0,
                chord: SelectChord::Stats
            },
            button(0, BTN_X, true)
        ]
    );
    // Nobody listens: the press is the game's.
    let mut w = session();
    press(&mut w, 1, PadButton::Back, T);
    assert_eq!(press(&mut w, 1, PadButton::South, T), [button(0, BTN_A, true)]);
}

#[test]
fn the_escape_chord_fires_once_and_disconnects_when_held() {
    let mut w = session();
    press(&mut w, 1, PadButton::LeftShoulder, T);
    press(&mut w, 1, PadButton::RightShoulder, T);
    press(&mut w, 1, PadButton::Start, T);
    let acts = press(&mut w, 1, PadButton::Back, T);
    assert_eq!(acts, vec![button(0, BTN_BACK, true), Act::Escape]);
    assert!(!press(&mut w, 1, PadButton::South, T).contains(&Act::Escape));
    let mut out = Vec::new();
    w.maybe_fire_disconnect(T + DISCONNECT_HOLD_NS - 1, &mut out);
    assert!(out.is_empty());
    w.maybe_fire_disconnect(T + DISCONNECT_HOLD_NS, &mut out);
    w.maybe_fire_disconnect(T + 9 * DISCONNECT_HOLD_NS, &mut out);
    assert_eq!(out, vec![Act::Disconnect]);
    // Breaking the chord opens the latch again.
    lift(&mut w, 1, PadButton::Back, T);
    let acts = press(&mut w, 1, PadButton::Back, T);
    assert!(acts.contains(&Act::Escape));
    // The session ends with the chord still held: the next one starts afresh.
    tell(&mut w, Ctl::Detach);
    let mut out = Vec::new();
    w.maybe_fire_disconnect(T + 99 * DISCONNECT_HOLD_NS, &mut out);
    assert!(out.is_empty());
}

#[test]
fn a_mask_puts_pads_neutral_and_unmasking_presses_nothing() {
    let mut w = session();
    press(&mut w, 1, PadButton::South, T);
    let axis = PadInput::Axis {
        axis: PadAxis::LeftX,
        value: 900,
    };
    report(&mut w, PadEvent::Input { id: 1, input: axis }, T);
    let acts = tell(&mut w, Ctl::Mask);
    assert_eq!(
        acts,
        vec![
            Act::RawGate {
                masked: true,
                system_forward: true
            },
            button(0, BTN_A, false),
            Act::Axis {
                pad: 0,
                axis: AXIS_LS_X,
                value: 0
            },
        ]
    );
    assert_eq!(w.slots.len(), 3, "the host sees no unplug");
    assert!(press(&mut w, 1, PadButton::East, T).is_empty());
    assert!(tell(&mut w, Ctl::Mask).is_empty());
    let held = vec![
        Held {
            bits: vec![BTN_A],
            axes: [900, 0, 0, 0, 0, 0],
        },
        Held {
            bits: vec![],
            axes: [0; 6],
        },
        Held {
            bits: vec![],
            axes: [0; 6],
        },
    ];
    let acts = tell(&mut w, Ctl::Unmask(held));
    assert!(!acts.iter().any(|a| matches!(a, Act::Button { down: true, .. })));
    assert!(acts.contains(&Act::Axis {
        pad: 0,
        axis: AXIS_LS_X,
        value: 900
    }));
    assert_eq!(w.slots[0].held, [BTN_A], "held, so its release still goes out");
    assert_eq!(lift(&mut w, 1, PadButton::South, T), [button(0, BTN_A, false)]);
}

#[test]
fn a_tap_for_the_user_comes_up_again() {
    let mut w = session();
    assert_eq!(tell(&mut w, Ctl::TapButton(BTN_GUIDE)), [button(0, BTN_GUIDE, true)]);
    let mut out = Vec::new();
    w.gesture_poll(T + TAP_PRESS_NS - 1, &mut out);
    assert!(out.is_empty());
    w.gesture_poll(T + TAP_PRESS_NS, &mut out);
    assert_eq!(out, [button(0, BTN_GUIDE, false)]);
    let mut idle = Worker::new();
    assert!(tell(&mut idle, Ctl::TapButton(BTN_GUIDE)).is_empty());
}

#[test]
fn closing_a_slot_lifts_everything_the_host_believes_held() {
    let mut w = session();
    let at = Contact {
        ux: 5,
        uy: 6,
        sx: -7,
        sy: 8,
    };
    let gyro = Triple { x: 1, y: 2, z: 3 };
    let accel = Triple { x: 4, y: 5, z: 6 };
    for input in [
        PadInput::Down {
            button: PadButton::Touchpad,
        },
        PadInput::Touch {
            touchpad: 0,
            finger: 1,
            at,
            active: true,
        },
        PadInput::Accel { accel },
        PadInput::Gyro {
            gyro,
            reaches: true,
        },
    ] {
        report(&mut w, PadEvent::Input { id: 1, input }, T);
    }
    let acts = report(&mut w, PadEvent::Removed(1), T);
    let still = Triple { x: 0, y: 0, z: 0 };
    assert_eq!(
        acts,
        vec![
            Act::Neutral { id: 1 },
            button(0, BTN_TOUCHPAD, false),
            Act::Touch {
                pad: 0,
                finger: 1,
                active: false,
                ux: 0,
                uy: 0
            },
            Act::Motion {
                pad: 0,
                gyro: still,
                accel
            },
            Act::Remove { pad: 0 },
            Act::Publish,
        ]
    );
}

#[test]
fn two_touch_surfaces_click_off_the_button_plane() {
    let mut w = Worker::new();
    report(&mut w, PadEvent::Added(pad(1, "deck")), T);
    tell(&mut w, Ctl::Attach);
    opened(
        &mut w,
        1,
        Opened {
            multi: true,
            ..plain()
        },
    );
    let at = Contact {
        ux: 0,
        uy: 0,
        sx: -9,
        sy: 10,
    };
    let touch = PadInput::Touch {
        touchpad: 1,
        finger: 0,
        at,
        active: true,
    };
    report(&mut w, PadEvent::Input { id: 1, input: touch }, T);
    assert_eq!(
        press(&mut w, 1, PadButton::Misc2, T),
        vec![Act::TouchEx {
            pad: 0,
            surface: 2,
            finger: 0,
            touch: true,
            click: true,
            x: -9,
            y: 10
        }]
    );
    assert_eq!(steam_click_surface(true, PadButton::Touchpad), Some(1));
    assert_eq!(steam_click_surface(false, PadButton::Touchpad), None);
    assert_eq!(steam_click_surface(true, PadButton::South), None);
}

#[test]
fn a_gyro_the_host_has_no_use_for_is_not_sent() {
    let mut w = session();
    let turn = || PadInput::Gyro {
        gyro: Triple { x: 1, y: 2, z: 3 },
        reaches: false,
    };
    let mut spin = |id| report(&mut w, PadEvent::Input { id, input: turn() }, T);
    assert_eq!(spin(2), vec![Act::MotionLost { pad: 1 }]);
    assert!(spin(2).is_empty(), "it is told once");
    assert_eq!(spin(3), vec![Act::MotionLost { pad: 2 }]);
}

#[test]
fn menu_pads_and_slots_exclude_each_other() {
    let mut w = Worker::new();
    report(&mut w, PadEvent::Added(pad(1, "a")), T);
    report(&mut w, PadEvent::Added(pad(2, "b")), T);
    let acts = tell(&mut w, Ctl::MenuMode(true));
    assert_eq!(
        acts,
        vec![
            Act::MenuReset,
            Act::OpenMenu { id: 1 },
            Act::OpenMenu { id: 2 }
        ]
    );
    let mut out = Vec::new();
    w.menu_opened(1, &mut out);
    w.menu_opened(2, &mut out);
    assert_eq!(w.menu_pads(), [1, 2]);
    w.note_acting(
        &vec![1, 2],
        &[
            MenuSample {
                lx: 30_000,
                ..MenuSample::default()
            },
            MenuSample::default(),
        ],
    );
    assert_eq!(
        tell(&mut w, Ctl::MenuRumble(MenuPulse::Confirm)),
        vec![Act::Pulse {
            id: 1,
            low: 0x5000,
            high: 0x5000,
            ms: 60
        }]
    );
    let acts = tell(&mut w, Ctl::Attach);
    assert!(acts.contains(&Act::CloseMenu { id: 1 }) && acts.contains(&Act::CloseMenu { id: 2 }));
    assert!(w.menu_open.is_empty());
    assert!(tell(&mut w, Ctl::MenuRumble(MenuPulse::Move)).is_empty());
    assert!(w.menu_pads().is_empty());
    opened(&mut w, 1, plain());
    assert_eq!(tell(&mut w, Ctl::RingNav(true)), vec![Act::MenuReset]);
    assert_eq!(w.menu_pads(), [1], "the dial is driven by the slots");
    tell(&mut w, Ctl::Detach);
    assert!(w.slots.is_empty());
}

#[test]
fn a_pulse_goes_to_the_first_pad_where_none_acted() {
    let mut w = Worker::new();
    report(&mut w, PadEvent::Added(pad(5, "a")), T);
    tell(&mut w, Ctl::MenuMode(true));
    w.menu_opened(5, &mut Vec::new());
    for (pulse, low, high, ms) in [
        (MenuPulse::Move, 0, 0x3000, 25),
        (MenuPulse::Boundary, 0x6000, 0, 60),
    ] {
        assert_eq!(
            tell(&mut w, Ctl::MenuRumble(pulse)),
            vec![Act::Pulse {
                id: 5,
                low,
                high,
                ms
            }]
        );
    }
}

#[test]
fn a_deck_behind_its_stand_in_is_told_as_a_deck() {
    let mut w = Worker::new();
    report(&mut w, PadEvent::Added(stand_in(1)), T);
    tell(&mut w, Ctl::Attach);
    let acts = opened(
        &mut w,
        1,
        Opened {
            on_deck: true,
            ..plain()
        },
    );
    assert!(acts.contains(&Act::Arrival {
        pad: 0,
        kind: GamepadPref::SteamDeck
    }));
    assert!(acts.contains(&Act::RumbleQuirks {
        pad: 0,
        keepalive_ms: DECK_RUMBLE_KEEPALIVE_MS,
        dedup_jitter: true
    }));
}

#[test]
fn an_override_is_told_to_the_host_and_feedback_goes_to_the_pad_in_hand() {
    let mut w = Worker::new();
    report(
        &mut w,
        PadEvent::Added(Pad {
            pref: GamepadPref::DualSense,
            ..pad(1, "ds")
        }),
        T,
    );
    tell(&mut w, Ctl::KindOverride(GamepadPref::Xbox360));
    tell(&mut w, Ctl::PadAudioPrefs(0xFF));
    assert_eq!(w.audio_prefs, 3);
    tell(&mut w, Ctl::Attach);
    let acts = opened(
        &mut w,
        1,
        Opened {
            audio_caps: 3,
            ..plain()
        },
    );
    assert!(acts.contains(&Act::Arrival {
        pad: 0,
        kind: GamepadPref::Xbox360
    }));
    assert!(acts.contains(&Act::ArmCoils { id: 1 }));
    assert!(acts.contains(&Act::EnableSpeaker { id: 1 }));
    assert!(acts.contains(&Act::RegisterAudio { pad: 0 }));
    let led = HidOutput::Led {
        pad: 0,
        r: 1,
        g: 2,
        b: 3,
    };
    assert_eq!(
        w.on_hidout(led),
        Some((
            1,
            vec![Effect::Packet {
                bytes: Ds5Feedback::lightbar_packet(1, 2, 3)
            }]
        ))
    );
    // Haptics audio owns the coils while it arrives, and gets them back after a rumble.
    assert_eq!(w.on_rumble(0, 5, 6, 300, true), None);
    assert_eq!(
        w.on_rumble(0, 5, 6, 300, false),
        Some((
            1,
            Effect::Rumble {
                low: 5,
                high: 6,
                ms: 300
            }
        ))
    );
    assert_eq!(
        w.slots[0].rearm_coils(true),
        Some(Effect::Packet {
            bytes: Ds5Feedback::audio_haptics_packet()
        })
    );
    assert_eq!(w.slots[0].rearm_coils(true), None);
}

#[test]
fn a_plain_pad_takes_no_packets() {
    let mut w = session();
    assert_eq!(
        w.on_hidout(HidOutput::PlayerLeds { pad: 0, bits: 0x0A }),
        Some((1, vec![Effect::Player { index: Some(1) }]))
    );
    assert_eq!(
        w.on_hidout(HidOutput::Led {
            pad: 1,
            r: 9,
            g: 8,
            b: 7
        }),
        Some((2, vec![Effect::Led { r: 9, g: 8, b: 7 }]))
    );
    for h in [
        HidOutput::MicLed { pad: 0, mode: 1 },
        HidOutput::Trigger {
            pad: 0,
            which: 0,
            effect: vec![1],
        },
        HidOutput::AudioCtl {
            pad: 0,
            flags: 1,
            raw: [0; 6],
        },
        HidOutput::HidRaw {
            pad: 0,
            kind: 0,
            data: vec![1],
        },
        HidOutput::TrackpadHaptic {
            pad: 0,
            side: 0,
            amplitude: 1,
            period: 1,
            count: 1,
        },
    ] {
        assert_eq!(w.on_hidout(h), Some((1, Vec::new())));
    }
    assert_eq!(w.on_hidout(HidOutput::MicLed { pad: 9, mode: 1 }), None);
    assert_eq!(w.on_rumble(300, 1, 1, 1, false), None);
    assert_eq!(
        w.on_rumble(0, 0, 0, 4_000, false),
        Some((
            1,
            Effect::Rumble {
                low: 0,
                high: 0,
                ms: 100
            }
        )),
        "a stop needs no more than a moment"
    );
    assert_eq!(
        w.slots[0].rest_effects(),
        vec![
            Effect::Rumble {
                low: 0,
                high: 0,
                ms: 100
            },
            Effect::Led { r: 0, g: 0, b: 0 }
        ]
    );
}

#[test]
fn raw_writes_take_the_motors_over() {
    let mut w = Worker::new();
    report(
        &mut w,
        PadEvent::Added(Pad {
            pref: GamepadPref::SteamController2,
            ..pad(1, "sc2")
        }),
        T,
    );
    tell(&mut w, Ctl::Attach);
    let acts = opened(&mut w, 1, plain());
    assert!(acts.contains(&Act::OpenRaw { id: 1, pad: 0 }));
    assert!(!acts.contains(&Act::Sensors { id: 1 }), "its motion mode is not ours to set");
    w.raw_opened(1);
    let raw = || HidOutput::HidRaw {
        pad: 0,
        kind: 2,
        data: vec![0x80, 1],
    };
    let through = Effect::Raw {
        kind: 2,
        data: vec![0x80, 1],
    };
    let off = Effect::Rumble {
        low: 0,
        high: 0,
        ms: 100,
    };
    assert_eq!(w.on_hidout(raw()), Some((1, vec![off, through])));
    assert_eq!(w.on_hidout(raw()).unwrap().1.len(), 1);
    assert_eq!(w.on_rumble(0, 9, 9, 9, false), None);
}

#[test]
fn the_wire_has_its_own_axes_and_bits() {
    assert_eq!(axis_value(PadAxis::LeftX, i16::MIN), (AXIS_LS_X, -32767));
    assert_eq!(axis_value(PadAxis::LeftY, i16::MIN), (AXIS_LS_Y, 32767));
    assert_eq!(axis_value(PadAxis::LeftY, 100), (AXIS_LS_Y, -100));
    assert_eq!(axis_value(PadAxis::TriggerRight, 32767), (AXIS_RT, 255));
    assert_eq!(axis_value(PadAxis::TriggerRight, -5), (AXIS_RT, 0));
    assert_eq!(axis_value(PadAxis::TriggerRight, 127), (AXIS_RT, 0));
    assert_eq!(button_bit(PadButton::South), Some(BTN_A));
    assert_eq!(button_bit(PadButton::LeftPaddle2), Some(BTN_PADDLE4));
    assert_eq!(button_bit(PadButton::Misc1), Some(BTN_MISC1));
    assert_eq!(button_bit(PadButton::Misc2), None);
}

#[test]
fn the_last_pad_that_acts_is_the_acting_one() {
    let busy = MenuSample {
        buttons: [true, false, false, false, false, false],
        ..MenuSample::default()
    };
    let idle = MenuSample::default();
    assert_eq!(acting_pad(&[busy, idle, busy]), Some(2));
    assert_eq!(acting_pad(&[busy, idle]), Some(0));
    assert_eq!(acting_pad(&[idle]), None);
    let corner = MenuSample {
        lx: i16::MIN,
        ly: i16::MIN,
        ..idle
    };
    assert_eq!(merge_samples(&[corner, idle]).lx, i16::MIN);
    assert_eq!(merge_samples(&[]), idle);
    assert_eq!((wait_ms(true, false), wait_ms(false, true), wait_ms(false, false)), (10, 10, 30));
}

#[test]
fn a_speaker_is_set_up_as_the_environment_says() {
    let usual = Ds5Feedback::speaker_enable_packet(0x7F, 0x20);
    assert_eq!(speaker_setup(None, None), usual);
    assert_eq!(speaker_setup(Some("loud"), Some("300")), usual, "a typo is no value");
    assert_eq!(
        speaker_setup(Some("0x30"), Some("64")),
        Ds5Feedback::speaker_enable_packet(64, 0x30)
    );
}

#[test]
fn shutting_down_closes_every_slot_and_keeps_the_session() {
    let mut w = session();
    press(&mut w, 2, PadButton::South, T);
    let mut acts = Vec::new();
    w.close_all_slots(&mut acts);
    assert!(w.slots.is_empty());
    assert!(w.attached);
    assert!(acts.contains(&button(1, BTN_A, false)));
    let silenced: Vec<u32> = acts
        .iter()
        .filter_map(|a| match a {
            Act::Neutral { id } => Some(*id),
            _ => None,
        })
        .collect();
    assert_eq!(silenced, vec![1, 2, 3]);
    let removed = |p: u8| acts.contains(&Act::Remove { pad: p });
    assert!(removed(0) && removed(1) && removed(2));
}
