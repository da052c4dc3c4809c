//! What the client shows of a controller.

use pf_client_core::pad_info::{
    audio_pref_bits, auto_pref, battery_of, is_steam_deck, pad_audio_caps_for, pref_for_type,
    published, starts_with, BatteryWatch, Connection, PadBattery, PadInfo, PadType, PowerState,
    BATTERY_POLL_NS,
};
use pf_client_core::pad_slot::GamepadPref;

#[test]
fn vendor_and_product_speak_before_the_reported_type() {
    let kind = |t: PadType, vid: u16, pid: u16| PadInfo::describe(t, vid, pid, None, None).pref;
    assert_eq!(kind(PadType::Other, 0x28DE, 0x1205), GamepadPref::SteamDeck);
    assert_eq!(kind(PadType::Other, 0x28DE, 0x1102), GamepadPref::SteamController);
    assert_eq!(kind(PadType::Other, 0x28DE, 0x1142), GamepadPref::SteamController);
    assert_eq!(kind(PadType::Ps5, 0x054C, 0x0DF2), GamepadPref::DualSenseEdge);
    assert_eq!(kind(PadType::Ps5, 0x054C, 0x0CE6), GamepadPref::DualSense);
    assert_eq!(
        PadInfo::describe(
            PadType::Other,
            0x28DE,
            0x1302,
            Some(GamepadPref::SteamController2),
            None
        )
        .pref,
        GamepadPref::SteamController2
    );
    for (t, want) in [
        (PadType::Ps4, GamepadPref::DualShock4),
        (PadType::XboxOne, GamepadPref::XboxOne),
        (PadType::SwitchPro, GamepadPref::SwitchPro),
        (PadType::JoyconPair, GamepadPref::SwitchPro),
        (PadType::Other, GamepadPref::Xbox360),
    ] {
        assert_eq!(pref_for_type(t), want);
    }
}

#[test]
fn a_pads_key_is_stable_and_its_detail_short() {
    let p = PadInfo::describe(PadType::Ps5, 0x054C, 0x0CE6, None, Some("DualSense"));
    assert_eq!(p.key, "054c:0ce6:DualSense");
    assert_eq!(p.detail, "054C:0CE6");
    assert!(p.forwarded && !p.rumble && !p.steam_virtual);
    let p = PadInfo::describe(PadType::Other, 0, 0, None, None);
    assert_eq!((p.name.as_str(), p.key.as_str()), ("Controller", "0000:0000:Controller"));
    assert!(PadInfo::describe(PadType::Other, 0x28DE, 0x11FF, None, None).steam_virtual);
    assert!(
        PadInfo::describe(PadType::Other, 1, 2, None, Some("Steam Virtual Gamepad 3"))
            .steam_virtual
    );
    let pad = p.pad(7);
    assert_eq!((pad.id, pad.key.as_str()), (7, "0000:0000:Controller"));
    assert!(starts_with("abc", "ab") && !starts_with("ab", "abc") && starts_with("x", ""));
}

#[test]
fn an_unknown_charge_is_no_battery() {
    let at = |percent: u8, charging: bool| Some(PadBattery { percent, charging });
    assert_eq!(battery_of(PowerState::OnBattery, 40), at(40, false));
    assert_eq!(battery_of(PowerState::Charging, 40), at(40, true));
    assert_eq!(battery_of(PowerState::Charged, 120), at(100, true));
    assert_eq!(battery_of(PowerState::OnBattery, 0), at(0, false));
    for none in [PowerState::NoBattery, PowerState::Error, PowerState::Unknown] {
        assert_eq!(battery_of(none, 50), None);
    }
    assert_eq!(battery_of(PowerState::OnBattery, -1), None);
}

#[test]
fn the_list_is_newest_first_and_only_the_read_pad_has_a_charge() {
    let info = |name: &str| PadInfo::describe(PadType::Other, 1, 2, None, Some(name));
    let level = PadBattery {
        percent: 9,
        charging: false,
    };
    let list = published(&vec![(4, info("a")), (5, info("b"))], Some((4, level)));
    assert_eq!(list[0].name, "b");
    assert_eq!(list[0].battery, None);
    assert_eq!(list[1].name, "a");
    assert_eq!(list[1].battery, Some(level));
}

#[test]
fn a_battery_is_read_at_its_interval() {
    let mut w = BatteryWatch {
        level: None,
        read_at: None,
    };
    let level = Some(PadBattery {
        percent: 9,
        charging: false,
    });
    assert!(w.due(5));
    assert!(w.on_reading(1, level, 5));
    assert!(!w.due(5 + BATTERY_POLL_NS - 1));
    assert!(w.due(5 + BATTERY_POLL_NS));
    assert!(!w.on_reading(1, level, 9), "nothing new");
    assert!(w.on_reading(2, level, 9), "another pad");
    assert!(w.on_reading(2, None, 9));
    assert!(!w.clear());
    w.on_reading(2, level, 9);
    assert!(w.clear());
    assert!(w.due(9));
    assert_eq!(BatteryWatch::target(&vec![3, 4], Some(4)), Some(4));
    assert_eq!(BatteryWatch::target(&vec![3, 4], Some(9)), Some(3));
    assert_eq!(BatteryWatch::target(&vec![3, 4], None), Some(3));
    assert_eq!(BatteryWatch::target(&Vec::new(), Some(3)), None);
}

#[test]
fn a_steam_deck_is_told_by_its_value_or_its_board() {
    assert!(is_steam_deck(Some(" 1\n"), None, None));
    assert!(!is_steam_deck(Some("0"), None, None));
    assert!(is_steam_deck(Some("0"), Some("Valve\n"), Some("Jupiter\n")));
    assert!(is_steam_deck(None, Some("Valve"), Some("Galileo")));
    assert!(!is_steam_deck(None, Some("Valve"), Some("Index")));
    assert!(!is_steam_deck(None, None, Some("Jupiter")));
}

#[test]
fn the_session_default_follows_the_active_pad() {
    let real = PadInfo::describe(PadType::Ps5, 1, 2, None, None);
    let virt = PadInfo::describe(PadType::Other, 0x28DE, 0x11FF, None, None);
    assert_eq!(auto_pref(Some(&real), true), GamepadPref::DualSense);
    assert_eq!(auto_pref(Some(&virt), true), GamepadPref::SteamDeck);
    assert_eq!(auto_pref(Some(&virt), false), GamepadPref::Xbox360);
    assert_eq!(auto_pref(None, true), GamepadPref::SteamDeck);
    assert_eq!(auto_pref(None, false), GamepadPref::Auto);
}

#[test]
fn pad_audio_needs_a_wired_dualsense() {
    assert_eq!(pad_audio_caps_for(3, true, Connection::Wired, false), 3);
    assert_eq!(pad_audio_caps_for(3, true, Connection::Wireless, true), 0);
    assert_eq!(pad_audio_caps_for(3, true, Connection::Unknown, true), 3);
    assert_eq!(pad_audio_caps_for(3, true, Connection::Unknown, false), 0);
    assert_eq!(pad_audio_caps_for(3, false, Connection::Wired, true), 0);
    assert_eq!(pad_audio_caps_for(0, true, Connection::Wired, true), 0);
    assert_eq!(audio_pref_bits(true, false), 1);
    assert_eq!(audio_pref_bits(false, true), 2);
    assert_eq!(audio_pref_bits(true, true), 3);
}
