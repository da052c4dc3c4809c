//! From a card or a link to a session: plans, wake-and-wait, and what a session tells.

use pf_client_core::contract::{parse_session_line, SessionEvent};
use pf_client_core::link::{
    plan_from_link, DeepLink, HostResolution, PlanError, PlanOutcome, Route, UnknownHost,
    WakeOutcome, WakeWait,
};
use pf_client_core::pad_slot::GamepadPref;
use pf_client_core::plan::{ConnectPlan, HostTarget, KnownHost, KnownHosts, WAKE_TIMEOUT_SECS};
use pf_client_core::session::{HdrMeta, Mode, Probes, StatsVerbosity};
use pf_client_core::settings::{
    resolve_preset, PresetsFile, Resolution, Settings, SettingsOverlay, StreamPreset,
};
use pf_client_core::wire::{
    CODEC_AV1, CODEC_HEVC, VIDEO_CAP_10BIT, VIDEO_CAP_444, VIDEO_CAP_HDR, VIDEO_CAP_MULTI_SLICE,
};

fn host(name: &str, addr: &str, id: &str, fp: &str) -> KnownHost {
    KnownHost {
        name: name.into(),
        addr: addr.into(),
        port: 9777,
        fp_hex: fp.into(),
        paired: true,
        mac: vec!["aa:bb:cc:dd:ee:ff".into()],
        id: Some(id.into()),
        ..Default::default()
    }
}

fn link_to(host_ref: &str) -> DeepLink {
    DeepLink {
        route: Route::Connect,
        host_ref: host_ref.into(),
        preset: None,
        launch: None,
        fp: None,
        name: None,
    }
}

/// Packet at 0 and every 6 s, presence each second, 90 s of budget, park (not
/// an error) at the end.
#[test]
fn wake_wait_matches_the_reference_cadence() {
    let mut w = WakeWait::new();
    let t = w.tick(false);
    assert!(t.send_packet);
    assert_eq!(t.seconds, 0);
    assert_eq!(t.outcome, None);
    for s in 1..6 {
        let t = w.tick(false);
        assert!(!t.send_packet, "no packet at {s}s");
        assert_eq!(t.seconds, s);
    }
    assert!(w.tick(false).send_packet);
    assert_eq!(w.seconds(), 7);

    let mut w = WakeWait::new();
    w.tick(false);
    let t = w.tick(true);
    assert_eq!(t.outcome, Some(WakeOutcome::Online));

    let mut w = WakeWait::new();
    for _ in 0..WAKE_TIMEOUT_SECS {
        assert_eq!(w.tick(false).outcome, None);
    }
    assert_eq!(w.seconds(), WAKE_TIMEOUT_SECS);
    let t = w.tick(false);
    assert_eq!(t.outcome, Some(WakeOutcome::TimedOut));
    // Parked, not advanced. A host that appears while parked still wins.
    assert_eq!(w.tick(false).outcome, Some(WakeOutcome::TimedOut));
    assert_eq!(w.tick(true).outcome, Some(WakeOutcome::Online));
    w.restart();
    assert_eq!(w.seconds(), 0);
    assert!(w.tick(false).send_packet);
}

/// One-off preset rides the flag; a host binding does not — the session
/// resolves it with the same helper, so passing it would be a second source of truth.
#[test]
fn session_args_are_assembled_in_one_place() {
    let h = host(
        "Desk",
        "192.168.1.50",
        "11111111-2222-4333-8444-555555555555",
        &"a".repeat(64),
    );
    let mut plan = ConnectPlan {
        host: HostTarget::of(&h),
        launch: Some("steam:570".into()),
        preset: None,
        preset_override: None,
        settings: Settings {
            fullscreen_on_stream: false,
            ..Default::default()
        },
        wake: true,
        connect_timeout_secs: None,
        tofu: false,
        clipboard: false,
    };
    assert_eq!(
        plan.session_args(),
        vec![
            "--connect",
            "192.168.1.50:9777",
            "--fp",
            &"a".repeat(64),
            "--launch",
            "steam:570"
        ]
    );

    plan.preset_override = Some("aaaaaaaaaaaa".into());
    plan.connect_timeout_secs = Some(185);
    plan.settings.fullscreen_on_stream = true;
    let args = plan.session_args();
    assert!(args.windows(2).any(|w| w == ["--preset", "aaaaaaaaaaaa"]));
    assert!(args.windows(2).any(|w| w == ["--connect-timeout", "185"]));
    assert!(args.contains(&"--fullscreen".to_string()));

    // "Connect with ▸ Default settings" on a bound host is an empty override, not
    // the same as no override — it has to survive as a flag.
    plan.preset_override = Some(String::new());
    let args = plan.session_args();
    let i = args.iter().position(|a| a == "--preset").unwrap();
    assert_eq!(args[i + 1], "");
}

/// Unknown host is a prompt, a contradicted pin is a refusal, an unhonorable
/// preset is a refusal, and an ambiguous reference is never guessed at.
#[test]
fn link_plans_refuse_rather_than_degrade() {
    let fp = "a".repeat(64);
    let known = KnownHosts {
        hosts: vec![
            host(
                "Desk",
                "192.168.1.50",
                "11111111-2222-4333-8444-555555555555",
                &fp,
            ),
            host(
                "Couch",
                "192.168.1.60",
                "22222222-3333-4444-8555-666666666666",
                "",
            ),
            host(
                "Couch",
                "192.168.1.61",
                "33333333-4444-4555-8666-777777777777",
                "",
            ),
        ],
    };
    // Pure inputs — the test never touches the config directory.
    let catalog = PresetsFile::default();
    let base = Settings::default();
    let plan = |link: DeepLink, host: HostResolution| {
        plan_from_link(&link, host, &known, &catalog, &base)
    };

    let out = plan(link_to("11111111-2222-4333-8444-555555555555"), HostResolution::Known(0)).unwrap();
    match out {
        PlanOutcome::Connect(p) => {
            assert_eq!(p.host.addr, "192.168.1.50");
            assert_eq!(p.preset_override, None);
            assert!(p.host.fp_hex.is_some());
        }
        other => panic!("expected a connect, got {other:?}"),
    }

    // Same host named by its label: any page can guess that, so the shell must ask.
    // Not ConfirmUnknown — that would re-run pairing on an already-pinned host.
    match plan(link_to("Desk"), HostResolution::Confirm(0)).unwrap() {
        PlanOutcome::ConfirmConnect(p) => {
            assert_eq!(p.host.addr, "192.168.1.50");
            assert!(p.host.fp_hex.is_some());
        }
        other => panic!("expected a confirm-connect, got {other:?}"),
    }
    let launching = DeepLink {
        launch: Some("steam:570".into()),
        ..link_to("192.168.1.50")
    };
    match plan(launching, HostResolution::Confirm(0)).unwrap() {
        PlanOutcome::ConfirmConnect(p) => assert_eq!(p.launch.as_deref(), Some("steam:570")),
        other => panic!("expected a confirm-connect, got {other:?}"),
    }

    let repinned = DeepLink {
        fp: Some("b".repeat(64)),
        ..link_to("Desk")
    };
    assert_eq!(
        plan(repinned, HostResolution::Confirm(0)).unwrap_err(),
        PlanError::PinConflict {
            host: "Desk".into()
        }
    );
    assert_eq!(
        plan(link_to("Couch"), HostResolution::Ambiguous).unwrap_err(),
        PlanError::AmbiguousHost("Couch".into())
    );
    assert_eq!(
        plan(
            link_to("00000000-0000-4000-8000-000000000000"),
            HostResolution::Unresolvable
        )
        .unwrap_err(),
        PlanError::UnresolvableHost("00000000-0000-4000-8000-000000000000".into())
    );
    let unhonorable = DeepLink {
        preset: Some("NoSuchProfile".into()),
        ..link_to("Desk")
    };
    assert_eq!(
        plan(unhonorable, HostResolution::Confirm(0)).unwrap_err(),
        PlanError::UnknownPreset("NoSuchProfile".into())
    );
    // Unknown address: confirmation sheet, never auto-connect. Carries the claimed
    // name and expected pin so the first connect is verified, not TOFU.
    let unsaved = HostResolution::Unknown {
        addr: "10.0.0.9".into(),
        port: 7000,
        name: Some("Studio".into()),
        fp: Some(fp.clone()),
    };
    match plan(link_to("10.0.0.9:7000"), unsaved).unwrap() {
        PlanOutcome::ConfirmUnknown(u) => assert_eq!(
            *u,
            UnknownHost {
                addr: "10.0.0.9".into(),
                port: 7000,
                name: Some("Studio".into()),
                fp: Some(fp.clone()),
                launch: None,
                preset: None,
            }
        ),
        other => panic!("expected a confirmation, got {other:?}"),
    }
    // Saved but never pinned: known ≠ trusted.
    match plan(link_to("192.168.1.60"), HostResolution::Confirm(1)).unwrap() {
        PlanOutcome::ConfirmUnknown(u) => {
            assert_eq!(u.addr, "192.168.1.60");
            assert_eq!(u.name.as_deref(), Some("Couch"));
        }
        other => panic!("expected a confirmation, got {other:?}"),
    }
    let wake = DeepLink {
        route: Route::Wake,
        ..link_to("Desk")
    };
    assert!(matches!(
        plan(wake, HostResolution::Confirm(0)).unwrap(),
        PlanOutcome::Unsupported(Route::Wake)
    ));
}

/// Plan spec carries the resolved settings, the overlay name, and the host's
/// clipboard decision — the renderer must not re-derive them.
#[test]
fn plan_spec_carries_what_the_session_may_not_re_derive() {
    let h = KnownHost {
        name: "Desk".into(),
        addr: "192.168.1.50".into(),
        fp_hex: "a".repeat(64),
        clipboard_sync: true,
        preset_id: Some("aaaaaaaaaaaa".into()),
        ..Default::default()
    };
    let catalog = PresetsFile {
        version: 1,
        presets: vec![StreamPreset {
            id: "aaaaaaaaaaaa".into(),
            name: "Game".into(),
            overrides: SettingsOverlay {
                bitrate_kbps: Some(80000),
                ..Default::default()
            },
        }],
    };
    let plan = ConnectPlan::resolve(&h, None, None, &catalog, &Settings::default());
    let spec = plan.spec(plan.clipboard);
    assert_eq!(spec.settings.bitrate_kbps, 80000, "the overlay is baked in");
    assert_eq!(spec.preset.as_deref(), Some("Game"));
    assert!(spec.clipboard, "the host's decision, resolved once");
}

#[test]
fn session_contract_lines() {
    assert_eq!(
        parse_session_line(r#"{"ready":true}"#),
        Some(SessionEvent::Ready)
    );
    assert_eq!(
        parse_session_line(r#"{"error":"no route","trust_rejected":false}"#),
        Some(SessionEvent::Error {
            msg: "no route".into(),
            trust_rejected: false
        })
    );
    assert_eq!(
        parse_session_line(r#"{"error":"pin","trust_rejected":true}"#),
        Some(SessionEvent::Error {
            msg: "pin".into(),
            trust_rejected: true
        })
    );
    assert_eq!(
        parse_session_line(r#"{"ended":"Host ended the session"}"#),
        Some(SessionEvent::Ended("Host ended the session".into()))
    );
    assert_eq!(
        parse_session_line(r#"{"window":{"w":1600,"h":900}}"#),
        Some(SessionEvent::Window { w: 1600, h: 900 })
    );
    // Half a window line is not an event — persisting half a size is worse than
    // ignoring it.
    assert_eq!(parse_session_line(r#"{"window":{"w":1600}}"#), None);
    assert_eq!(parse_session_line("stats: 1280×800@60 · 60 fps"), None);
    assert_eq!(parse_session_line(r#"stats-json: {"received":60}"#), None);
    assert_eq!(parse_session_line(""), None);
    assert_eq!(parse_session_line(r#"{"other":1}"#), None);
}

/// No GPU and no store. Host, launch, clipboard, timeout, bitrate, and codec
/// come from the plan. Caps are the wire bits, not whatever the helper returns.
#[test]
fn session_params_carry_the_plan_without_a_gpu() {
    let h = host(
        "Desk",
        "192.168.1.50",
        "11111111-2222-4333-8444-555555555555",
        &"ab".repeat(32),
    );
    let plan = ConnectPlan {
        host: HostTarget::of(&h),
        launch: Some("steam:570".into()),
        preset: None,
        preset_override: None,
        settings: Settings {
            bitrate_kbps: 42_000,
            codec: "av1".into(),
            enable_444: true,
            ..Default::default()
        },
        wake: false,
        connect_timeout_secs: Some(45),
        tofu: false,
        clipboard: true,
    };
    let probes = |hdr_enabled: bool, hevc_444_hardware: bool| Probes {
        mode: Mode {
            width: 2560,
            height: 1440,
            refresh_hz: 10,
        },
        identity: ("client".into(), "desk".into()),
        vulkan: None,
        gamepad: GamepadPref::Xbox360,
        hdr_enabled,
        display_hdr: Some(HdrMeta::default()),
        hevc_444_hardware,
        stats_verbosity: StatsVerbosity::Detailed,
    };
    let params = plan.session_params([9; 32], probes(false, false), None);
    assert_eq!(params.host, plan.host.addr);
    assert_eq!(params.port, plan.host.port);
    assert_eq!(params.launch, plan.launch);
    assert_eq!(params.clipboard, plan.clipboard);
    assert_eq!(
        params.connect_timeout_secs,
        plan.connect_timeout_secs.unwrap()
    );
    assert_eq!(params.bitrate_kbps, plan.settings.bitrate_kbps);
    assert_ne!(plan.settings.bitrate_kbps, Settings::default().bitrate_kbps);
    assert_eq!(params.preferred_codec, CODEC_AV1);
    assert_ne!(plan.settings.codec, Settings::default().codec);
    assert_eq!(params.exclude_codecs, 0);
    assert_eq!(params.want_444, plan.settings.enable_444);
    assert!(params.vulkan.is_none());
    assert!(params.display_hdr.is_none());
    assert!(!params.phase_lock);
    assert_eq!(
        params.video_caps,
        VIDEO_CAP_MULTI_SLICE
    );
    assert_eq!(
        params.mode,
        Mode {
            width: 2560,
            height: 1440,
            refresh_hz: 30,
        }
    );
    assert_eq!(params.pin, Some([9; 32]));
    assert_eq!(params.identity, ("client".into(), "desk".into()));
    assert_eq!(params.gamepad, GamepadPref::Xbox360);
    assert_eq!(params.stats_verbosity, StatsVerbosity::Detailed);

    let hdr = plan.session_params([9; 32], probes(true, false), None);
    assert_eq!(
        hdr.video_caps,
        VIDEO_CAP_MULTI_SLICE
            | VIDEO_CAP_10BIT
            | VIDEO_CAP_HDR
    );
    assert!(hdr.display_hdr.is_some());

    let chroma = plan.session_params([9; 32], probes(false, true), None);
    assert_eq!(
        chroma.video_caps,
        VIDEO_CAP_MULTI_SLICE | VIDEO_CAP_444
    );
    assert!(chroma.want_444);
    assert!(chroma.display_hdr.is_none());

    let mut declined = plan;
    declined.settings.hdr_enabled = false;
    let off = declined.session_params([9; 32], probes(true, false), None);
    assert_eq!(off.video_caps, VIDEO_CAP_MULTI_SLICE);
    assert!(
        off.display_hdr.is_none(),
        "the volume stays off with HDR off"
    );
}

fn preset(id: &str, name: &str, bitrate: u32) -> StreamPreset {
    StreamPreset {
        id: id.into(),
        name: name.into(),
        overrides: SettingsOverlay {
            bitrate_kbps: Some(bitrate),
            codec: Some("hevc".into()),
            ..Default::default()
        },
    }
}

fn shelf() -> PresetsFile {
    PresetsFile {
        version: 1,
        presets: vec![
            preset("p1", "Couch", 10_000),
            preset("p2", "Desk", 20_000),
            preset("p3", "Desk", 30_000),
        ],
    }
}

#[test]
fn a_preset_is_meant_by_its_id_or_its_only_name() {
    let file = shelf();
    assert_eq!(file.resolve("p2"), (Some(1), Resolution::Found));
    assert_eq!(file.resolve("Couch"), (Some(0), Resolution::Found));
    assert_eq!(file.resolve("Desk"), (None, Resolution::Ambiguous));
    assert_eq!(file.resolve("couch"), (None, Resolution::Missing));
}

#[test]
fn a_one_off_choice_beats_the_game_and_the_game_the_host() {
    let file = shelf();
    assert_eq!(resolve_preset(&file, Some("p1"), Some("p2"), Some("p3")), Some(2));
    assert_eq!(resolve_preset(&file, Some("p1"), Some("p2"), None), Some(1));
    assert_eq!(resolve_preset(&file, Some("p1"), None, None), Some(0));
    assert_eq!(resolve_preset(&file, Some("p1"), Some("p2"), Some("")), None);
    assert_eq!(resolve_preset(&file, Some("gone"), None, None), None);
    assert_eq!(resolve_preset(&file, None, None, None), None);
    let mut h = host("Desk", "10.0.0.2", "h1", "aa");
    h.preset_id = Some("p1".into());
    h.game_presets = vec![("g".into(), "p3".into())];
    assert_eq!(h.preset_for_game("g"), Some("p3".into()));
    assert_eq!(h.preset_for_game("other"), None);
    let bitrate = |launch: Option<&str>, one_off: Option<&str>| {
        ConnectPlan::resolve(&h, launch, one_off, &file, &Settings::default())
            .settings
            .bitrate_kbps
    };
    assert_eq!(bitrate(None, None), 10_000);
    assert_eq!(bitrate(Some("g"), None), 30_000);
    assert_eq!(bitrate(Some("g"), Some("p2")), 20_000);
    assert_eq!(bitrate(Some("g"), Some("")), 0);
}

#[test]
fn an_overlay_changes_only_what_it_names() {
    let base = Settings {
        width: 1280,
        ..Settings::default()
    };
    let s = preset("p", "P", 5).overrides.apply(&base);
    assert_eq!((s.width, s.bitrate_kbps, s.codec.as_str()), (1280, 5, "hevc"));
    assert_eq!(s.decoder, base.decoder);
    assert_eq!(s.preferred_codec(), CODEC_HEVC);
    assert_eq!(base.preferred_codec(), 0);
}

#[test]
fn a_record_is_found_by_its_pin_before_its_address() {
    let known = KnownHosts {
        hosts: vec![
            host("A", "10.0.0.2", "h1", "aa"),
            host("B", "10.0.0.3", "h2", "bb"),
        ],
    };
    assert_eq!(known.resolve(Some("bb"), "10.0.0.2", 9777), Some(1));
    assert_eq!(known.resolve(None, "10.0.0.2", 9777), Some(0));
    assert_eq!(known.resolve(None, "10.0.0.2", 1), None);
}

#[test]
fn a_refused_link_says_what_failed() {
    let known = KnownHosts {
        hosts: vec![host("Desk", "10.0.0.2", "h1", "aa")],
    };
    let file = shelf();
    let base = Settings::default();
    let refused = |link: &DeepLink, resolution: HostResolution| {
        plan_from_link(link, resolution, &known, &file, &base).unwrap_err()
    };
    let mut link = link_to("h1");
    link.preset = Some("Desk".into());
    let e = refused(&link, HostResolution::Known(0));
    assert_eq!(e, PlanError::AmbiguousPreset("Desk".into()));
    assert_eq!(
        e.message(),
        "More than one settings preset is called \"Desk\" — rename one, or use its id in the link."
    );
    link.preset = Some("Gone".into());
    assert_eq!(
        refused(&link, HostResolution::Known(0)).message(),
        "That link asks for a settings preset called \"Gone\", which doesn't exist here."
    );
    link.preset = None;
    link.fp = Some("bb".into());
    assert_eq!(
        refused(&link, HostResolution::Confirm(0)),
        PlanError::PinConflict {
            host: "Desk".into()
        }
    );
    assert_eq!(
        refused(&link_to("x"), HostResolution::Ambiguous).message(),
        "More than one saved host is called \"x\" — open Punktfunk and pick one."
    );
    assert_eq!(
        refused(&link_to("x"), HostResolution::Unresolvable).message(),
        "No saved host matches \"x\"."
    );
}

#[test]
fn a_wait_can_start_again() {
    let mut w = WakeWait::new();
    for _ in 0..WAKE_TIMEOUT_SECS {
        assert_eq!(w.tick(false).outcome, None);
    }
    assert_eq!(w.tick(false).outcome, Some(WakeOutcome::TimedOut));
    assert_eq!(w.tick(true).outcome, Some(WakeOutcome::Online));
    w.restart();
    assert_eq!(w, WakeWait::default());
    assert!(w.tick(false).send_packet);
}
