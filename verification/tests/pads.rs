//! What a pad declares, which index it gets, and what its feedback packets hold.

use pf_client_core::buttons::MAX_PADS;
use pf_client_core::ds5::{parse_u8, player_index_from_bits, Ds5Feedback};
use pf_client_core::menu::{is_acting, merge_samples, MenuSample, MENU_DEADZONE};
use pf_client_core::pad_feedback::{hidout_pad, HidOutput};
use pf_client_core::pad_slot::GamepadPref;
use pf_client_core::pad_worker::{declared_kind, lowest_free_index};

fn held(dpad_right: bool, lx: i16) -> MenuSample {
    MenuSample {
        dpad: [false, false, false, dpad_right],
        lx,
        ..MenuSample::default()
    }
}

#[test]
fn either_pad_drives_the_menu() {
    let idle = MenuSample::default();
    let pressing = MenuSample {
        buttons: [true, false, false, false, false, false],
        ..MenuSample::default()
    };
    // Player 2's A must survive the fold: the bug was that only one pad was ever
    // polled, so a second controller confirmed nothing until a session attached.
    assert!(merge_samples(&[idle, pressing]).buttons[0]);
    assert!(merge_samples(&[pressing, idle]).buttons[0]);
    assert!(!merge_samples(&[idle, idle]).buttons[0]);
}

#[test]
fn the_furthest_stick_wins_so_idle_drift_cannot_cancel_it() {
    let pushed = held(false, 30000);
    let drifting = held(false, -300);
    assert_eq!(merge_samples(&[drifting, pushed]).lx, 30000);
    assert_eq!(merge_samples(&[pushed, drifting]).lx, 30000);
}

#[test]
fn acting_needs_a_press_or_a_stick_past_the_deadzone() {
    assert!(!is_acting(&MenuSample::default()));
    assert!(!is_acting(&held(false, MENU_DEADZONE as i16 - 1)));
    assert!(is_acting(&held(false, MENU_DEADZONE as i16 + 1)));
    assert!(is_acting(&held(true, 0)));
}

#[test]
fn lowest_free_index_fills_gaps_and_bounds() {
    assert_eq!(lowest_free_index(&[]), Some(0));
    assert_eq!(lowest_free_index(&[0]), Some(1));
    assert_eq!(lowest_free_index(&[0, 1, 2]), Some(3));
    // A freed middle index is reused before growing — pad 0 and pad 2 stay put.
    assert_eq!(lowest_free_index(&[0, 2]), Some(1));
    assert_eq!(lowest_free_index(&[2, 0]), Some(1));
    let all: Vec<u8> = (0..MAX_PADS).collect();
    assert_eq!(lowest_free_index(&all), None);
    let mut but_seven = all.clone();
    but_seven.retain(|&i| i != 7);
    assert_eq!(lowest_free_index(&but_seven), Some(7));
}

#[test]
fn an_explicit_setting_is_what_every_pad_declares() {
    assert_eq!(
        declared_kind(GamepadPref::DualShock4, GamepadPref::DualSense),
        GamepadPref::DualShock4
    );
    for physical in [
        GamepadPref::DualSense,
        GamepadPref::Xbox360,
        GamepadPref::SwitchPro,
        GamepadPref::SteamDeck,
    ] {
        assert_eq!(
            declared_kind(GamepadPref::Xbox360, physical),
            GamepadPref::Xbox360
        );
    }
    assert_eq!(
        declared_kind(GamepadPref::Auto, GamepadPref::DualSense),
        GamepadPref::DualSense
    );
    assert_eq!(
        declared_kind(GamepadPref::Auto, GamepadPref::SteamDeck),
        GamepadPref::SteamDeck
    );
}

#[test]
fn hidout_pad_reads_every_variant() {
    assert_eq!(
        hidout_pad(&HidOutput::Led {
            pad: 3,
            r: 1,
            g: 2,
            b: 3
        }),
        3
    );
    assert_eq!(hidout_pad(&HidOutput::PlayerLeds { pad: 5, bits: 1 }), 5);
    assert_eq!(
        hidout_pad(&HidOutput::Trigger {
            pad: 2,
            which: 0,
            effect: vec![1, 2, 3]
        }),
        2
    );
    assert_eq!(
        hidout_pad(&HidOutput::TrackpadHaptic {
            pad: 4,
            side: 0,
            amplitude: 1,
            period: 2,
            count: 3
        }),
        4
    );
    assert_eq!(
        hidout_pad(&HidOutput::HidRaw {
            pad: 6,
            kind: 0,
            data: vec![0x80, 0, 0]
        }),
        6
    );
    assert_eq!(
        hidout_pad(&HidOutput::AudioCtl {
            pad: 7,
            flags: 0,
            raw: [0; 6]
        }),
        7
    );
}

/// Bits 0/1 of `ucEnableBits1` stay clear: asserting either mutes the 0xD1 coils.
#[test]
fn speaker_enable_sets_volume_and_path_without_touching_the_haptics_bits() {
    let p = Ds5Feedback::speaker_enable_packet(0x7F, 0x20);
    assert_eq!(
        p[0] & 0x03,
        0,
        "rumble-emulation / disable-audio-haptics must stay clear"
    );
    assert_eq!(
        p[0],
        0x20 | 0x80,
        "speaker-volume + audio-control validity bits"
    );
    assert_eq!(p[5], 0x7F);
    assert_eq!(p[7], 0x20);
    for (i, b) in p.iter().enumerate() {
        if !matches!(i, 0 | 5 | 7) {
            assert_eq!(*b, 0, "byte {i} should be untouched");
        }
    }
}

/// A typo falls back to the default rather than silently meaning zero.
#[test]
fn env_u8_reads_hex_and_decimal() {
    for (s, want) in [
        ("0x20", Some(0x20)),
        ("0X7f", Some(0x7F)),
        ("32", Some(32u8)),
    ] {
        assert_eq!(parse_u8(s), want, "{s}");
    }
    for s in ["", "0x", "256", "0x100", "x20", "-1", "12a"] {
        assert_eq!(parse_u8(s), None, "{s}");
    }
    assert_eq!(parse_u8("255"), Some(255));
    assert_eq!(parse_u8("0xff"), Some(255));
}

/// Raw bytes 5..=10 land at offsets 4..=9; bits 0/1 of `p[0]` stay clear.
#[test]
fn audio_ctl_folds_report_bytes_into_effect_offsets() {
    let raw = [0x50, 0x60, 0x70, 0x05, 0x11, 0x22];
    let p = Ds5Feedback::audio_ctl_packet(0b1_0111, &raw);
    assert_eq!(&p[4..10], &raw, "report bytes 5..=10 → struct 4..=9");
    assert_eq!(p[0], 0b1011_0000);
    assert_eq!(
        p[0] & 0x03,
        0,
        "haptics-select must NOT replay into p[0] bits 0/1"
    );
    assert!(p[1..4].iter().all(|&b| b == 0));
    assert!(p[10..].iter().all(|&b| b == 0));
    let p = Ds5Feedback::audio_ctl_packet(0b0_0001, &raw);
    assert_eq!(p[0], 0);
    assert_eq!(&p[4..10], &raw);
    assert_eq!(Ds5Feedback::audio_haptics_packet(), [0u8; 47]);
}

/// SDL payload offsets are USB report offsets minus the leading report id.
#[test]
fn ds5_offsets_track_the_usb_report() {
    for (usb, payload) in [
        (11usize, Ds5Feedback::RIGHT_TRIGGER),
        (22, Ds5Feedback::LEFT_TRIGGER),
        (44, Ds5Feedback::PAD_LIGHTS),
        (45, Ds5Feedback::LED_RGB),
        (9, Ds5Feedback::MIC_LED),
    ] {
        assert_eq!(payload, usb - 1, "payload offset for USB byte {usb}");
    }
    assert_eq!(Ds5Feedback::TRIGGER_LEN, 11);
}

#[test]
fn lightbar_sets_only_its_enable_bit_and_its_three_bytes() {
    let p = Ds5Feedback::lightbar_packet(0x11, 0x22, 0x33);
    assert_eq!(p.len(), 47);
    assert_eq!(p[1], 0x04, "valid_flag1 lightbar bit");
    assert_eq!(p[0], 0, "must not claim any valid_flag0 field");
    assert_eq!(
        (
            p[Ds5Feedback::LED_RGB],
            p[Ds5Feedback::LED_RGB + 1],
            p[Ds5Feedback::LED_RGB + 2]
        ),
        (0x11, 0x22, 0x33)
    );
    let touched = [
        1,
        Ds5Feedback::LED_RGB,
        Ds5Feedback::LED_RGB + 1,
        Ds5Feedback::LED_RGB + 2,
    ];
    assert!(p
        .iter()
        .enumerate()
        .all(|(i, &b)| touched.contains(&i) || b == 0));
}

#[test]
fn player_leds_are_masked_to_five_bits() {
    let p = Ds5Feedback::player_packet(0xFF);
    assert_eq!(p[1], 0x10, "valid_flag1 player-indicator bit");
    assert_eq!(
        p[Ds5Feedback::PAD_LIGHTS],
        0x1F,
        "high bits are not ours to set"
    );
    let p = Ds5Feedback::player_packet(0b0000_0101);
    assert_eq!(p[Ds5Feedback::PAD_LIGHTS], 0b0000_0101);
}

/// SDL's `ucEnableBits2` 0x01 enables `ucMicLightMode`; nothing else is claimed.
#[test]
fn mic_led_sets_only_its_enable_bit_and_mode() {
    let p = Ds5Feedback::mic_led_packet(2);
    assert_eq!(p[1], 0x01, "valid_flag1 mic-mute LED bit");
    assert_eq!(p[0], 0, "must not claim any valid_flag0 field");
    assert_eq!(p[Ds5Feedback::MIC_LED], 2);
    assert_eq!(p.iter().filter(|&&b| b != 0).count(), 2);
}

/// which 1 = R2, which 0 = L2; the RIGHT block sits first in the report.
#[test]
fn trigger_which_selects_the_right_flag_and_offset() {
    let eff: Vec<u8> = (1..=11).collect();

    let r = Ds5Feedback::trigger_packet(1, &eff);
    assert_eq!(r[0], 0x04, "valid_flag0 R2 bit");
    assert_eq!(
        &r[Ds5Feedback::RIGHT_TRIGGER..Ds5Feedback::RIGHT_TRIGGER + 11],
        &eff[..]
    );
    assert_eq!(
        r[Ds5Feedback::LEFT_TRIGGER],
        0,
        "the other trigger is untouched"
    );

    let l = Ds5Feedback::trigger_packet(0, &eff);
    assert_eq!(l[0], 0x08, "valid_flag0 L2 bit");
    assert_eq!(
        &l[Ds5Feedback::LEFT_TRIGGER..Ds5Feedback::LEFT_TRIGGER + 11],
        &eff[..]
    );
    assert_eq!(l[Ds5Feedback::RIGHT_TRIGGER], 0);
}

#[test]
fn an_oversized_effect_is_clamped_rather_than_overflowing_into_the_next_field() {
    let long = vec![0xAAu8; 40];
    let p = Ds5Feedback::trigger_packet(1, &long);
    assert_eq!(p.len(), 47);
    assert_eq!(p[Ds5Feedback::RIGHT_TRIGGER + 10], 0xAA);
    assert_eq!(p[Ds5Feedback::RIGHT_TRIGGER + 11], 0);
    assert_eq!(p[Ds5Feedback::LEFT_TRIGGER], 0);
}

#[test]
fn a_short_effect_leaves_the_rest_of_the_block_zeroed() {
    let p = Ds5Feedback::trigger_packet(0, &[0x02, 0x99]);
    assert_eq!(p[Ds5Feedback::LEFT_TRIGGER], 0x02);
    assert_eq!(p[Ds5Feedback::LEFT_TRIGGER + 1], 0x99);
    assert!(
        p[Ds5Feedback::LEFT_TRIGGER + 2..Ds5Feedback::LEFT_TRIGGER + 11]
            .iter()
            .all(|&b| b == 0)
    );
}

/// Empty effect is mode 0x00 = release. The enable bit must still be set, or the pad
/// keeps the latched effect.
#[test]
fn an_empty_effect_is_a_release_not_a_no_op() {
    let p = Ds5Feedback::trigger_packet(1, &[]);
    assert_eq!(p[0], 0x04);
    assert!(
        p[Ds5Feedback::RIGHT_TRIGGER..Ds5Feedback::RIGHT_TRIGGER + 11]
            .iter()
            .all(|&b| b == 0)
    );
}

/// Wrong enable flag or a non-zero mode byte leaves the effect latched.
#[test]
fn reset_packets_release_the_triggers_and_darken_the_lights() {
    let l = Ds5Feedback::trigger_packet(0, &[0u8; 11]);
    assert_eq!(l[0], 0x08, "left-trigger enable bit");
    assert!(
        l[Ds5Feedback::LEFT_TRIGGER..Ds5Feedback::LEFT_TRIGGER + 11]
            .iter()
            .all(|&b| b == 0),
        "an all-zero block is mode 0x00 = no effect"
    );
    let r = Ds5Feedback::trigger_packet(1, &[0u8; 11]);
    assert_eq!(r[0], 0x04, "right-trigger enable bit");
    assert!(
        r[Ds5Feedback::RIGHT_TRIGGER..Ds5Feedback::RIGHT_TRIGGER + 11]
            .iter()
            .all(|&b| b == 0)
    );

    let bar = Ds5Feedback::lightbar_packet(0, 0, 0);
    assert_eq!(bar[1], 0x04, "lightbar enable bit");
    assert_eq!(
        &bar[Ds5Feedback::LED_RGB..Ds5Feedback::LED_RGB + 3],
        &[0, 0, 0]
    );

    let pl = Ds5Feedback::player_packet(0);
    assert_eq!(pl[1], 0x10, "player-LED enable bit");
    assert_eq!(pl[Ds5Feedback::PAD_LIGHTS], 0);
}

/// DualSense patterns are non-contiguous; Switch/XInput is a run of low bits. Count is N.
#[test]
fn player_index_counts_lit_leds_for_both_conventions() {
    assert_eq!(player_index_from_bits(0x04), Some(0));
    assert_eq!(player_index_from_bits(0x0A), Some(1));
    assert_eq!(player_index_from_bits(0x15), Some(2));
    assert_eq!(player_index_from_bits(0x1B), Some(3));
    assert_eq!(player_index_from_bits(0x1F), Some(4));

    assert_eq!(player_index_from_bits(0x01), Some(0));
    assert_eq!(player_index_from_bits(0x03), Some(1));
    assert_eq!(player_index_from_bits(0x07), Some(2));
    assert_eq!(player_index_from_bits(0x0F), Some(3));
}

/// No lit LED is "no player", not player 0.
#[test]
fn no_lit_led_is_no_player() {
    assert_eq!(player_index_from_bits(0x00), None);
    assert_eq!(player_index_from_bits(0xE0), None);
}

#[test]
fn high_bits_are_masked_off_before_counting() {
    assert_eq!(player_index_from_bits(0xFF), Some(4));
    assert_eq!(player_index_from_bits(0xE4), Some(0));
}
