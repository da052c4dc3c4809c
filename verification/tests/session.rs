//! What a session asks of a host, and how it ends.

use std::sync::{Arc, Mutex};

use pf_client_core::pad_slot::GamepadPref;
use pf_client_core::session::{
    amd_vulkan_hdr_notice, audio_format_to_send, audio_format_unspecified, audio_format_wire,
    audio_formats, client_caps, codec_fallback_event, connect_failed, connect_plan,
    decoder_refused, mic_on_access, mode_for, parse_audio_format, parse_debug_reconfigure, planes,
    resolve_audio_format, take_reconfigure, terminal_event, AudioRequest, ConnectFailure, Dial,
    EndReason, HdrMeta, MicControl, MicStep, Mode, OutputColours, Planes, Probes, PumpStop, SessionEvent,
    SessionParams, StatsVerbosity, AUDIO_FORMAT_LOSSLESS_48, AUDIO_FORMAT_LOSSLESS_96,
    AUDIO_FORMAT_OPUS,
};
use pf_client_core::settings::{MouseMode, Settings};
use pf_client_core::video::{Platform, RungLoss, VulkanDecodeDevice};
use pf_client_core::wire::{CODEC_AV1, CODEC_H264, CODEC_HEVC, CODEC_PYROWAVE, VIDEO_CAP_444};

const BITS_16: u8 = 16;
const BITS_24: u8 = 24;

/// Every spelling the env-var doc promises has to land on the right side of
/// `CLIENT_CAP_AUDIO_HIRES`.
#[test]
fn the_hires_opt_in_parses_the_spellings_it_documents() {
    for off in ["", "0", "off", "false", "no", "  Off  "] {
        assert_eq!(parse_audio_format(off), AudioRequest::Legacy, "{off:?}");
    }
    // On → the flagship rung. 24-bit, because 16-bit PCM spends 1.5 Mbps to
    // sound like transparent Opus.
    for on in ["1", "on", "true", "YES"] {
        assert_eq!(
            parse_audio_format(on),
            AudioRequest::Hires(96_000, BITS_24),
            "{on:?}"
        );
    }
    assert_eq!(
        parse_audio_format("96000"),
        AudioRequest::Hires(96_000, BITS_24)
    );
    assert_eq!(
        parse_audio_format("48000/24"),
        AudioRequest::Hires(48_000, BITS_24)
    );
    assert_eq!(
        parse_audio_format("96000/16"),
        AudioRequest::Hires(96_000, BITS_16)
    );
    // 48 kHz/16-bit is a request, not "off" — cheapest lossless rung. Connect
    // turns this into explicit `48000`/`16` and `Legacy` into unspecified `0`/`0`.
    assert_eq!(
        parse_audio_format("48000/16"),
        AudioRequest::Hires(48_000, BITS_16)
    );
    assert_ne!(parse_audio_format("48000/16"), AudioRequest::Legacy);
    // "Not asking" must never reach the wire as a format, or every ordinary
    // session would advertise hi-res.
    assert_eq!(audio_format_unspecified(), (0, 0));
}

/// Refuse rungs the plane cannot carry here, where the user can be told.
/// 44.1 kHz looks reasonable; it truncates `JitterPolicy`'s integer samples-per-ms.
#[test]
fn the_hires_opt_in_refuses_what_the_plane_cannot_carry() {
    for bad in [
        "44100",
        "44100/24",
        "88200/24",
        "192000/24",
        "48000/32",
        "96000/8",
        "96000/",
        "/24",
        "96 kHz",
        "yes please",
        "-96000/24",
    ] {
        assert_eq!(
            parse_audio_format(bad),
            AudioRequest::Unsupported,
            "{bad:?} should not parse"
        );
    }
}

/// Stored values and the pair each asks for. Spellings are shared with Apple
/// `AudioFormatChoice` and Android `AUDIO_FORMAT_*`, so a typo here is ignored
/// on this client while the preset keeps working on the others.
#[test]
fn the_audio_format_setting_speaks_the_cross_client_spellings() {
    assert_eq!(AUDIO_FORMAT_OPUS, "opus");
    assert_eq!(AUDIO_FORMAT_LOSSLESS_48, "lossless48");
    assert_eq!(AUDIO_FORMAT_LOSSLESS_96, "lossless96");
    assert_eq!(
        audio_formats(),
        [
            AUDIO_FORMAT_OPUS,
            AUDIO_FORMAT_LOSSLESS_48,
            AUDIO_FORMAT_LOSSLESS_96
        ]
    );

    assert_eq!(audio_format_wire(AUDIO_FORMAT_OPUS), None);
    // Both lossless rows are 24-bit: 16-bit PCM would spend 1.5 Mbps to sound
    // like the 256 kbps Opus it replaces, which is why no row offers it.
    assert_eq!(
        audio_format_wire(AUDIO_FORMAT_LOSSLESS_48),
        Some((48_000, BITS_24))
    );
    assert_eq!(
        audio_format_wire(AUDIO_FORMAT_LOSSLESS_96),
        Some((96_000, BITS_24))
    );
    // A newer client's row, and a corrupted store: Opus, never a refused connect.
    assert_eq!(audio_format_wire("lossless192"), None);
    assert_eq!(audio_format_wire(""), None);
}

/// `PUNKTFUNK_AUDIO_HIRES` overrides the setting in both directions. Unset leaves
/// the setting alone. A typo is ignored rather than read as "off" — that would
/// silently defeat a UI choice.
#[test]
fn the_env_override_beats_the_setting_in_both_directions() {
    assert_eq!(resolve_audio_format(None, AUDIO_FORMAT_OPUS), None);
    assert_eq!(
        resolve_audio_format(None, AUDIO_FORMAT_LOSSLESS_96),
        Some((96_000, BITS_24))
    );

    // Set: it wins, including turning a lossless setting off.
    assert_eq!(
        resolve_audio_format(Some("1"), AUDIO_FORMAT_OPUS),
        Some((96_000, BITS_24))
    );
    assert_eq!(
        resolve_audio_format(Some("48000/16"), AUDIO_FORMAT_LOSSLESS_96),
        Some((48_000, BITS_16)),
        "the env rung the menu does not offer is still reachable"
    );
    for off in ["0", "off", "false"] {
        assert_eq!(
            resolve_audio_format(Some(off), AUDIO_FORMAT_LOSSLESS_96),
            None,
            "{off:?} must force Opus over a lossless setting"
        );
    }

    assert_eq!(
        resolve_audio_format(Some("96 kHz"), AUDIO_FORMAT_LOSSLESS_48),
        Some((48_000, BITS_24))
    );
    assert_eq!(resolve_audio_format(Some("44100"), AUDIO_FORMAT_OPUS), None);
}

#[test]
fn debug_reconfigure_parses_the_documented_shape() {
    let (mode, delay) = parse_debug_reconfigure("1280x720@60:5").unwrap();
    assert_eq!((mode.width, mode.height, mode.refresh_hz), (1280, 720, 60));
    assert_eq!(delay, 5);
}

#[test]
fn debug_reconfigure_rejects_garbage() {
    for bad in [
        "",
        "1280x720",
        "1280x720@60",
        "x@:",
        "ax b@c:d",
        "1280x720@60:x",
    ] {
        assert!(parse_debug_reconfigure(bad).is_none(), "{bad:?} parsed");
    }
}

/// Mute is inert until the pump reports a live uplink.
#[test]
fn mic_mute_is_a_no_op_without_an_uplink() {
    let mut mic = MicControl::default();
    assert!(!mic.live());
    assert_eq!(mic.toggle(), None, "no uplink, nothing to toggle");
    assert!(!mic.muted(), "and nothing to show");

    mic.set_live(true);
    assert_eq!(mic.toggle(), Some(true));
    assert!(mic.muted());
    // Capture side reads the same flag the toggle writes.
    assert!(mic.flag());
    assert_eq!(mic.toggle(), Some(false));
    assert!(!mic.muted());

    // A mute that outlives its uplink stops being shown (session end clears `live`).
    assert_eq!(mic.toggle(), Some(true));
    mic.set_live(false);
    assert!(!mic.muted());
    assert_eq!(mic.toggle(), None);
}

#[test]
fn an_exhausted_codec_produces_a_retry_event_and_moves_the_counter() {
    let mut fallbacks = 0u64;
    let before = fallbacks;

    let ev = codec_fallback_event(
        CODEC_HEVC,
        CODEC_H264 | CODEC_HEVC,
        RungLoss::Codec,
        &mut fallbacks,
    );
    match ev {
        SessionEvent::CodecFallback {
            exclude_codecs,
            retry_caps,
            ref msg,
        } => {
            assert_eq!(exclude_codecs, CODEC_HEVC, "the retry must drop HEVC");
            assert_eq!(retry_caps, CODEC_H264);
            // Toast for a person: names the codec and says what happens next.
            assert!(msg.contains("HEVC"), "{msg}");
            assert!(msg.contains("reconnect"), "{msg}");
        }
        _ => panic!("expected a CodecFallback"),
    }
    assert_eq!(fallbacks, before + 1, "counted exactly once");

    match codec_fallback_event(
        CODEC_HEVC,
        CODEC_H264 | CODEC_HEVC | CODEC_AV1,
        RungLoss::Codec,
        &mut fallbacks,
    ) {
        SessionEvent::CodecFallback { retry_caps, .. } => {
            assert_eq!(retry_caps, CODEC_H264 | CODEC_AV1);
        }
        _ => panic!("expected a CodecFallback"),
    }

    // Nothing left to offer: end honestly instead of a reconnect loop. Still
    // counted — the failure happened.
    let before = fallbacks;
    match codec_fallback_event(CODEC_HEVC, CODEC_HEVC, RungLoss::Codec, &mut fallbacks) {
        SessionEvent::Ended(Some(msg)) => {
            assert!(msg.contains("HEVC"), "{msg}");
            assert!(msg.contains("no other codec"), "{msg}");
        }
        _ => panic!("expected a plain Ended"),
    }
    assert_eq!(fallbacks, before + 1);
}

/// `exclude_codecs` and `retry_caps` describe the same retry. The wire follows
/// `exclude_codecs`, so a mismatch means the tested rule is not the shipped one.
/// Re-intersecting `advertised & !exclude` must land on `retry_caps`.
#[test]
fn the_retrys_exclusion_resolves_to_exactly_its_advertised_caps() {
    let mut fallbacks = 0u64;
    for advertised in 0u8..16 {
        for negotiated in [CODEC_H264, CODEC_HEVC, CODEC_AV1, CODEC_PYROWAVE] {
            for loss in [RungLoss::Codec, RungLoss::Shape] {
                let SessionEvent::CodecFallback {
                    exclude_codecs,
                    retry_caps,
                    ..
                } = codec_fallback_event(negotiated, advertised, loss, &mut fallbacks)
                else {
                    continue; // Dead — nothing is advertised at all
                };
                assert_eq!(
                    advertised & !exclude_codecs,
                    retry_caps,
                    "advertised {advertised:#x} negotiated {negotiated:#x} {loss:?}"
                );
                assert_eq!(retry_caps & negotiated, 0, "the failed codec came back");
            }
        }
    }
    // Excluding twice is idempotent — a second fallback ORs into the existing value.
    let full = CODEC_H264 | CODEC_HEVC | CODEC_AV1;
    assert_eq!((full & !CODEC_HEVC) & !CODEC_HEVC, CODEC_H264 | CODEC_AV1);
}

#[test]
fn not_asking_never_reaches_the_wire_as_a_format() {
    assert_eq!(audio_format_to_send(None, 2, true), (0, 0));
    assert_eq!(audio_format_to_send(Some((96_000, 24)), 2, true), (96_000, 24));
    assert_eq!(audio_format_to_send(Some((48_000, 16)), 2, true), (48_000, 16));
    assert_eq!(
        audio_format_to_send(Some((96_000, 24)), 6, true),
        (0, 0),
        "lossless is stereo only"
    );
    assert_eq!(audio_format_to_send(Some((96_000, 24)), 2, false), (0, 0));
}

#[test]
fn each_way_to_fail_a_connect_is_told_apart() {
    let told = |f: ConnectFailure| match connect_failed(f) {
        SessionEvent::Failed {
            msg,
            trust_rejected,
        } => (msg, trust_rejected),
        other => panic!("expected a failure, got {other:?}"),
    };
    assert_eq!(
        told(ConnectFailure::Crypto),
        (
            "Host identity rejected — wrong fingerprint, or the host requires pairing".into(),
            true
        )
    );
    assert_eq!(told(ConnectFailure::Timeout), ("Connection timed out".into(), false));
    assert_eq!(told(ConnectFailure::Rejected("busy".into())), ("busy".into(), false));
    assert_eq!(told(ConnectFailure::Other), ("The host didn't answer".into(), false));
}

#[test]
fn only_an_ending_that_went_wrong_says_something() {
    let mut fallbacks = 0;
    let mut end = |stop: PumpStop| terminal_event(stop, CODEC_HEVC, CODEC_HEVC, &mut fallbacks);
    let closed = |reason: EndReason| PumpStop::Closed {
        reject: None,
        reason,
    };
    assert_eq!(end(PumpStop::Asked), SessionEvent::Ended(None));
    for quiet in [EndReason::GameExited, EndReason::Local, EndReason::HostEnded] {
        assert_eq!(end(closed(quiet)), SessionEvent::Ended(None));
    }
    for (reason, text) in [
        (EndReason::HostError, "The host ended the session with an error"),
        (EndReason::Lost, "Connection lost"),
        (EndReason::Unknown, "Host ended the session"),
    ] {
        assert_eq!(end(closed(reason)), SessionEvent::Ended(Some(text.into())));
    }
    // A rejection names itself, whatever the verdict.
    assert_eq!(
        end(PumpStop::Closed {
            reject: Some("access expired".into()),
            reason: EndReason::HostError
        }),
        SessionEvent::Ended(Some("access expired".into()))
    );
    assert_eq!(
        end(PumpStop::Broken),
        SessionEvent::Ended(Some("The stream stopped unexpectedly".into()))
    );
    assert_eq!(
        end(PumpStop::Rebuild("no codec".into())),
        SessionEvent::Ended(Some("software decoder rebuild: no codec".into()))
    );
    assert_eq!(
        end(PumpStop::Exhausted(RungLoss::Codec)),
        SessionEvent::Ended(Some(
            "HEVC can't be decoded on this device, and no other codec is available".into()
        ))
    );
    assert_eq!(fallbacks, 1, "only the exhausted codec is counted");
}

#[test]
fn a_refused_decoder_ends_as_an_exhausted_one_or_with_its_error() {
    let mut fallbacks = 0;
    assert_eq!(
        decoder_refused(None, "no device", CODEC_H264, CODEC_H264, &mut fallbacks),
        SessionEvent::Ended(Some("video decoder: no device".into()))
    );
    assert_eq!(fallbacks, 0);
    let both = CODEC_H264 | CODEC_HEVC;
    assert_eq!(
        decoder_refused(Some(RungLoss::Codec), "x", CODEC_HEVC, both, &mut fallbacks),
        SessionEvent::CodecFallback {
            exclude_codecs: CODEC_HEVC,
            retry_caps: CODEC_H264,
            msg: "HEVC decoding failed on this device — reconnecting".into(),
        }
    );
    assert_eq!(fallbacks, 1);
}

#[test]
fn a_pending_switch_is_made_once_and_on_time() {
    let mode = Mode {
        width: 1280,
        height: 720,
        refresh_hz: 60,
    };
    let mut pending = Some((mode, 5));
    assert_eq!(take_reconfigure(&mut pending, 4_999_999_999), None);
    assert_eq!(take_reconfigure(&mut pending, 5_000_000_000), Some(mode));
    assert_eq!(take_reconfigure(&mut pending, 9_000_000_000), None);
    let mut never = Some((mode, u64::MAX));
    assert_eq!(take_reconfigure(&mut never, u64::MAX), None);
}

#[test]
fn the_microphone_follows_its_grant() {
    assert_eq!(mic_on_access(true, true, false), MicStep::Start);
    assert_eq!(mic_on_access(true, false, true), MicStep::Stop);
    assert_eq!(mic_on_access(false, true, true), MicStep::Stop);
    assert_eq!(mic_on_access(true, true, true), MicStep::Keep);
    assert_eq!(mic_on_access(false, false, false), MicStep::Keep);
    assert_eq!(
        planes(true, true, false, true, true),
        Planes {
            pad_audio: true,
            clipboard: false,
            mic: true
        }
    );
}

#[test]
fn the_client_says_what_it_does_itself() {
    assert_eq!(client_caps(false, false, false, false), 0);
    assert_eq!(client_caps(true, false, true, false), 5);
    assert_eq!(client_caps(true, true, true, true), 15);
}

fn amd() -> VulkanDecodeDevice {
    VulkanDecodeDevice {
        vendor_id: 0x1002,
        video_decode: true,
        decode_video_caps: 3,
        pyrowave_decode: true,
        present_timing: true,
        d3d11_import: false,
        dmabuf_import: true,
        vaapi_av1_decode: false,
        d3d11_hdr10: false,
        d3d11_nv12: false,
        d3d11_p010: false,
        hevc_444_8: true,
        hevc_444_10: true,
        adapter_luid: Some([1; 8]),
    }
}

#[test]
fn an_old_amd_driver_is_told_of_where_the_picture_depends_on_it() {
    let old = Some([31, 0, 21025, 0]);
    assert!(amd_vulkan_hdr_notice(Some(&amd()), old, true, 16).is_some());
    assert!(amd_vulkan_hdr_notice(Some(&amd()), old, true, 1).is_none(), "SDR");
    assert!(amd_vulkan_hdr_notice(Some(&amd()), old, false, 16).is_none(), "another rung");
    assert!(amd_vulkan_hdr_notice(None, old, true, 16).is_none());
    let mut intel = amd();
    intel.vendor_id = 0x8086;
    assert!(amd_vulkan_hdr_notice(Some(&intel), old, true, 16).is_none());
    let mut nameless = amd();
    nameless.adapter_luid = None;
    assert!(amd_vulkan_hdr_notice(Some(&nameless), old, true, 16).is_none());
}

fn params(s: Settings, vulkan: Option<VulkanDecodeDevice>) -> SessionParams {
    SessionParams::from_plan(
        &s,
        false,
        Some("Game".into()),
        Some("aaaaaaaaaaaa".into()),
        Dial {
            host: "10.0.0.9".into(),
            port: 9777,
            pin: [3; 32],
            launch: None,
            connect_timeout_secs: 15,
        },
        Probes {
            mode: Mode {
                width: 2560,
                height: 1440,
                refresh_hz: 144,
            },
            vulkan,
            display_hdr: Some(HdrMeta::default()),
            hdr_enabled: true,
            identity: ("client".into(), "desk".into()),
            gamepad: GamepadPref::DualSense,
            stats_verbosity: StatsVerbosity::Off,
            hevc_444_hardware: false,
        },
        Some((1920, 1080)),
    )
}

#[test]
fn parameters_come_from_the_plan_and_the_probes() {
    let p = params(
        Settings {
            mouse: MouseMode::Desktop,
            refresh_hz: 120,
            ..Settings::default()
        },
        Some(amd()),
    );
    assert_eq!(
        p.mode,
        Mode {
            width: 1920,
            height: 1080,
            refresh_hz: 120
        }
    );
    assert!(p.cursor_forward);
    assert!(p.phase_lock);
    assert_eq!(p.preset.as_deref(), Some("Game"));
    assert_eq!(p.preset_id.as_deref(), Some("aaaaaaaaaaaa"));
    assert!(p.display_hdr.is_some());
    assert_eq!(p.pin, Some([3; 32]));
    let s = Settings::default();
    let display = Mode {
        width: 800,
        height: 600,
        refresh_hz: 24,
    };
    assert_eq!(
        mode_for(&s, display),
        Mode {
            refresh_hz: 30,
            ..display
        },
        "an inherited rate is at least thirty"
    );
}

#[test]
fn pyrowave_is_asked_for_at_the_hosts_own_rate() {
    let p = params(
        Settings {
            codec: "pyrowave".into(),
            bitrate_kbps: 90_000,
            enable_444: true,
            ..Settings::default()
        },
        Some(amd()),
    );
    let plan = connect_plan(&p, Platform::Linux, None, false, false);
    assert_eq!(plan.preferred, CODEC_PYROWAVE);
    assert_eq!(plan.bitrate_kbps, 0);
    assert_ne!(plan.video_caps & VIDEO_CAP_444, 0);
    assert_ne!(plan.advertised_codecs & CODEC_PYROWAVE, 0);

    // A failed probe falls back to the user's rate and the probed chroma.
    let mut dark = amd();
    dark.pyrowave_decode = false;
    let p = params(
        Settings {
            codec: "pyrowave".into(),
            bitrate_kbps: 90_000,
            enable_444: true,
            ..Settings::default()
        },
        Some(dark),
    );
    let plan = connect_plan(&p, Platform::Linux, None, true, false);
    assert_eq!(plan.bitrate_kbps, 90_000);
    assert_eq!(plan.video_caps & VIDEO_CAP_444, 0);
    assert_eq!(plan.advertised_codecs & CODEC_PYROWAVE, 0);
}

#[test]
fn the_environment_prefers_pyrowave_only_where_it_runs() {
    let p = params(Settings::default(), Some(amd()));
    assert_eq!(
        connect_plan(&p, Platform::Linux, None, true, false).preferred,
        CODEC_PYROWAVE
    );
    let p = params(Settings::default(), None);
    assert_eq!(connect_plan(&p, Platform::Linux, None, true, false).preferred, 0);
}

#[test]
fn an_excluded_codec_is_not_advertised_again() {
    let mut p = params(Settings::default(), Some(amd()));
    p.exclude_codecs = CODEC_HEVC;
    let plan = connect_plan(&p, Platform::Linux, None, false, false);
    assert_eq!(plan.advertised_codecs, CODEC_H264 | CODEC_PYROWAVE);
    p.exclude_codecs = 0;
    let plan = connect_plan(&p, Platform::Linux, Some("software"), false, false);
    assert_eq!(plan.advertised_codecs & CODEC_HEVC, 0, "a pin on the CPU has no HEVC");
    assert!(plan.pad_audio_on && plan.pad_speaker_on);
}

#[test]
fn a_displays_volume_is_told_green_blue_red() {
    let d = OutputColours {
        pq: true,
        red: [1, 2],
        green: [3, 4],
        blue: [5, 6],
        white: [7, 8],
        max_luminance: 10_000_000,
        min_luminance: 50,
        peak: 1000,
        full_frame: 600,
    };
    let m = HdrMeta::of_output(&d).unwrap();
    assert_eq!(m.display_primaries, [[3, 4], [5, 6], [1, 2]]);
    assert_eq!((m.white_point, m.max_cll, m.max_fall), ([7, 8], 1000, 600));
    assert_eq!(m.min_display_mastering_luminance, 50);
    assert_eq!(HdrMeta::of_output(&OutputColours { pq: false, ..d }), None);
}

#[test]
fn every_handle_on_a_session_sees_the_same_mute() {
    let client = Arc::new(Mutex::new(MicControl::default()));
    let capture = client.clone();
    client.lock().unwrap().set_live(true);
    assert_eq!(client.lock().unwrap().toggle(), Some(true));
    assert!(capture.lock().unwrap().muted());
    assert!(capture.lock().unwrap().flag());
    assert_eq!(capture.lock().unwrap().toggle(), Some(false));
    assert!(!client.lock().unwrap().muted());
}

#[test]
fn a_retry_dials_with_the_same_parameters() {
    let first = params(Settings::default(), Some(amd()));
    let mut retry = first.clone();
    assert_eq!(format!("{retry:?}"), format!("{first:?}"));
    retry.exclude_codecs = CODEC_HEVC;
    assert_eq!(first.exclude_codecs, 0);
}
