//! Which codecs a device may promise, which rung decodes them, and what a software picture is.

use pf_client_core::decoder::{clears_demotion_streak, DEMOTE_AFTER};
use pf_client_core::dxva::DECODER_PIN;
use pf_client_core::frame::{ColorDesc, LocalRecovery};
use pf_client_core::planar::CpuPlanarFrame;
use pf_client_core::video::{
    amd_vulkan_hdr_driver_floor, amd_vulkan_hdr_driver_notice, av1_hardware_decodable,
    decodable_codecs, decodable_codecs_for, decode_pinned_to_software, hevc_444_hardware_decodable,
    last_rung_verdict, migrate_decoder_pref, native_codec, native_evidence, native_rung_admitted,
    native_vulkan_gate, native_vulkan_usable, resolve_decoder_pref, software_decodable_codecs,
    usable_decode_ops, vaapi_auto_ok, video_caps_for, LastRungVerdict, NativeCodec, NativeRung,
    Platform, RungLoss, VulkanDecodeDevice,
};
use pf_client_core::video_types::umd_version_parts;
use pf_client_core::wire::{
    CODEC_AV1, CODEC_H264, CODEC_HEVC, CODEC_PYROWAVE, VIDEO_CAP_10BIT, VIDEO_CAP_444,
    VIDEO_CAP_HDR, VIDEO_CAP_MULTI_SLICE, VIDEO_CODEC_OP_DECODE_AV1, VIDEO_CODEC_OP_DECODE_H264,
    VIDEO_CODEC_OP_DECODE_H265,
};

/// DXGI packs the four Device Manager fields high to low, 16 bits each.
#[test]
fn umd_version_splits_into_device_manager_fields() {
    let raw = (32i64 << 48) | (21025i64 << 16) | 10016;
    assert_eq!(umd_version_parts(raw), [32, 0, 21025, 10016]);
}

/// Only an HDR session on the Vulkan rung with a driver below the floor warns.
#[test]
fn an_old_amd_driver_warns_only_for_vulkan_hdr() {
    let old = Some([32, 0, 12011, 4002]);
    let msg = amd_vulkan_hdr_driver_notice(old, true, true).expect("old driver, Vulkan, HDR");
    assert!(msg.contains("32.0.12011.4002"), "{msg}");
    assert!(msg.contains("25.9.1"), "{msg}");
    assert_eq!(
        amd_vulkan_hdr_driver_notice(old, false, true),
        None,
        "D3D11VA"
    );
    assert_eq!(amd_vulkan_hdr_driver_notice(old, true, false), None, "SDR");
    assert_eq!(
        amd_vulkan_hdr_driver_notice(None, true, true),
        None,
        "unknown driver"
    );
    let floor = Some(amd_vulkan_hdr_driver_floor());
    assert_eq!(amd_vulkan_hdr_driver_notice(floor, true, true), None);
    assert!(amd_vulkan_hdr_driver_notice(Some([32, 0, 21024, 65535]), true, true).is_some());
    assert_eq!(
        amd_vulkan_hdr_driver_notice(Some([32, 0, 31041, 1004]), true, true),
        None
    );
}

/// Advertising 4:4:4 on a device that cannot decode it costs HEVC: there is
/// no CPU HEVC, and the host grants 4:4:4 on HEVC only.
#[test]
fn the_444_bit_needs_the_setting_and_a_device_that_can_decode_it() {
    const V444: u8 = VIDEO_CAP_444;
    assert_eq!(
        video_caps_for(true, false, false) & V444,
        0,
        "a 4:4:4 promise this device cannot keep costs HEVC entirely"
    );
    assert_ne!(video_caps_for(true, false, true) & V444, 0);
    assert_eq!(video_caps_for(true, false, false) & V444, 0);
    assert_eq!(video_caps_for(false, false, false) & V444, 0);

    // 4:4:4 must not disturb 10-bit/HDR (those are not probe-gated).
    const HDR_BITS: u8 =
        VIDEO_CAP_10BIT | VIDEO_CAP_HDR;
    for want_444 in [false, true] {
        assert_eq!(video_caps_for(true, false, want_444) & HDR_BITS, HDR_BITS);
        assert_eq!(video_caps_for(false, false, want_444) & HDR_BITS, 0);
        assert_ne!(
            video_caps_for(false, false, want_444)
                & VIDEO_CAP_MULTI_SLICE,
            0,
            "MULTI_SLICE is unconditional for this embedder"
        );
    }
}

/// 10-bit SDR advertises the depth bit alone — never HDR — and is subsumed by HDR.
#[test]
fn ten_bit_sdr_advertises_depth_without_hdr() {
    const TEN: u8 = VIDEO_CAP_10BIT;
    const HDR: u8 = VIDEO_CAP_HDR;
    assert_eq!(video_caps_for(false, true, false) & (TEN | HDR), TEN);
    assert_eq!(video_caps_for(false, false, false) & (TEN | HDR), 0);
    assert_eq!(video_caps_for(true, true, false) & (TEN | HDR), TEN | HDR);
    assert_eq!(
        video_caps_for(false, true, false) & VIDEO_CAP_444,
        0
    );
    assert_ne!(
        video_caps_for(false, true, false) & VIDEO_CAP_MULTI_SLICE,
        0
    );
}

/// No presenter Vulkan device ⇒ no 4:4:4. The `Some` arm needs a GPU.
#[test]
fn no_vulkan_device_means_no_444_promise() {
    assert!(!hevc_444_hardware_decodable(None));
}

/// An exhausted codec reconnects onto one with a CPU rung, never onto itself.
#[test]
fn an_exhausted_codec_reconnects_only_onto_one_with_a_cpu_rung() {
    let sw = software_decodable_codecs();
    assert_eq!(sw, CODEC_H264 | CODEC_AV1, "M8's CPU rung set");
    assert_eq!(sw & CODEC_HEVC, 0, "software HEVC is what M8 dropped");

    assert_eq!(
        last_rung_verdict(CODEC_HEVC, CODEC_H264 | CODEC_HEVC, RungLoss::Codec),
        LastRungVerdict::Retry { caps: CODEC_H264 }
    );
    // Survivors stay on the table — the host picks; we only ever remove.
    assert_eq!(
        last_rung_verdict(
            CODEC_HEVC,
            CODEC_H264 | CODEC_HEVC | CODEC_AV1,
            RungLoss::Codec
        ),
        LastRungVerdict::Retry {
            caps: CODEC_H264 | CODEC_AV1
        }
    );
    assert_eq!(
        last_rung_verdict(CODEC_HEVC, CODEC_HEVC, RungLoss::Codec),
        LastRungVerdict::Dead
    );
    for advertised in 0u8..16 {
        for negotiated in [CODEC_H264, CODEC_HEVC, CODEC_AV1] {
            if let LastRungVerdict::Retry { caps } =
                last_rung_verdict(negotiated, advertised, RungLoss::Codec)
            {
                assert_eq!(caps & negotiated, 0, "{negotiated:#x} re-offered");
                // A codec with no CPU rung must not be offered again.
                assert_eq!(caps & !software_decodable_codecs(), 0);
                assert_ne!(caps, 0, "Retry must carry something to advertise");
            }
        }
    }
    // PyroWave never demotes; if it reached this rule the answer must be Dead.
    assert_eq!(
        last_rung_verdict(CODEC_PYROWAVE, CODEC_PYROWAVE, RungLoss::Codec),
        LastRungVerdict::Dead
    );
}

/// A shape the CPU rung cannot decode is not "this codec has no CPU rung":
/// a 4:4:4 H.264 session must retry onto HEVC.
#[test]
fn a_shape_refusal_may_retry_onto_a_codec_with_no_cpu_rung() {
    assert_eq!(
        last_rung_verdict(CODEC_H264, CODEC_H264 | CODEC_HEVC, RungLoss::Shape),
        LastRungVerdict::Retry { caps: CODEC_HEVC }
    );
    // Same inputs as `Codec`: hardware H.264 exhausted and no CPU H.264 — HEVC is the same losing bet.
    assert_eq!(
        last_rung_verdict(CODEC_H264, CODEC_H264 | CODEC_HEVC, RungLoss::Codec),
        LastRungVerdict::Dead
    );
    // PyroWave opt-in survives a shape refusal, but never alone: `resolve_codec` would pick nothing.
    assert_eq!(
        last_rung_verdict(
            CODEC_H264,
            CODEC_H264 | CODEC_HEVC | CODEC_PYROWAVE,
            RungLoss::Shape
        ),
        LastRungVerdict::Retry {
            caps: CODEC_HEVC | CODEC_PYROWAVE
        }
    );
    assert_eq!(
        last_rung_verdict(CODEC_H264, CODEC_H264 | CODEC_PYROWAVE, RungLoss::Shape),
        LastRungVerdict::Dead
    );
    // A shape refusal still never re-offers the codec that raised it.
    for advertised in 0u8..16 {
        for negotiated in [CODEC_H264, CODEC_HEVC, CODEC_AV1] {
            if let LastRungVerdict::Retry { caps } =
                last_rung_verdict(negotiated, advertised, RungLoss::Shape)
            {
                assert_eq!(caps & negotiated, 0, "{negotiated:#x} re-offered");
                assert_ne!(caps, 0, "Retry must carry something to advertise");
            }
        }
    }
}

/// A software pin has no HEVC rung, so HEVC must leave the advertisement before Hello.
#[test]
fn a_software_pin_takes_hevc_off_the_advertisement() {
    assert!(decode_pinned_to_software(None, "software"));
    assert!(!decode_pinned_to_software(None, "auto"));
    assert!(!decode_pinned_to_software(None, "vulkan"));
    assert!(!decode_pinned_to_software(None, ""));
}

/// Stored `vulkan` / `vaapi` / `d3d11va` map onto native pins. An unknown
/// named rung is a hard error; the `native-*` names must not move.
#[test]
fn a_pre_m10_decoder_preference_migrates_onto_its_native_rung() {
    for (stored, want) in [
        ("vulkan", "native-vulkan"),
        ("vaapi", "native-vaapi"),
        ("d3d11va", "native-d3d11va"),
    ] {
        assert_eq!(migrate_decoder_pref(stored), want, "stored {stored:?}");
    }
    // Everything else passes through, including an unknown value — it must
    // reach the ladder unchanged rather than become a silent hardware pin.
    for pass in [
        "auto",
        "",
        "hardware",
        "software",
        "native-vulkan",
        "native-vaapi",
        "native-d3d11va",
        "something-else",
    ] {
        assert_eq!(migrate_decoder_pref(pass), pass, "passthrough {pass:?}");
    }
    // Migrated names are the pin constants the ladder compares against.
    assert_eq!(migrate_decoder_pref("vulkan"), "native-vulkan");
    assert_eq!(
        migrate_decoder_pref("vaapi"),
        NativeRung::Vaapi.name()
    );
    assert_eq!(
        migrate_decoder_pref("d3d11va"),
        DECODER_PIN
    );
    // Migrated `vulkan` is a name `native_vulkan_gate` admits.
    assert!(native_vulkan_gate(
        &migrate_decoder_pref("vulkan"),
        CODEC_H264,
        true,
        VIDEO_CODEC_OP_DECODE_H264
    ));
}

/// Presenter uploads with no stride: the copy undoes decoder padding, and a
/// short plane is refused rather than read past.
#[test]
fn planar_frames_are_tightly_packed_and_short_planes_are_refused() {
    let color = ColorDesc {
        primaries: 1,
        transfer: 1,
        matrix: 1,
        full_range: false,
    };
    // 4×2 luma, 2×1 chroma, all planes padded by 3 bytes per row.
    let y: Vec<u8> = vec![1, 2, 3, 4, 9, 9, 9, 5, 6, 7, 8, 9, 9, 9];
    let u: Vec<u8> = vec![10, 11, 9, 9, 9];
    let v: Vec<u8> = vec![20, 21, 9, 9, 9];
    let none = LocalRecovery::none();
    let f =
        CpuPlanarFrame::from_i420(4, 2, [&y, &u, &v], [7, 5, 5], color, true, none).unwrap();
    assert_eq!(f.plane(0), &[1, 2, 3, 4, 5, 6, 7, 8]);
    assert_eq!(f.plane(1), &[10, 11]);
    assert_eq!(f.plane(2), &[20, 21]);
    assert_eq!(f.plane_dims(0), (4, 2));
    assert_eq!(f.plane_dims(1), (2, 1));
    // Odd dimensions round chroma up; dropping the last sample would read past the plane.
    assert_eq!(CpuPlanarFrame::chroma_dims(5, 3), (3, 2));
    // A short plane is a geometry disagreement, not something to truncate.
    let short: Vec<u8> = vec![1, 2, 3];
    assert!(
        CpuPlanarFrame::from_i420(4, 2, [&short, &u, &v], [7, 5, 5], color, true, none)
            .is_err()
    );
    // A stride narrower than the picture is the same disagreement.
    assert!(
        CpuPlanarFrame::from_i420(4, 2, [&y, &u, &v], [2, 5, 5], color, true, none).is_err()
    );
}

fn decode_device(vendor_id: u32, _device_name: &str) -> VulkanDecodeDevice {
    VulkanDecodeDevice {
        vendor_id,
        video_decode: true,
        decode_video_caps: 0,
        pyrowave_decode: false,
        present_timing: false,
        d3d11_import: false,
        dmabuf_import: true,
        vaapi_av1_decode: false,
        d3d11_hdr10: false,
        d3d11_nv12: false,
        d3d11_p010: false,
        hevc_444_8: false,
        hevc_444_10: false,
        adapter_luid: None,
    }
}

/// An `Ok` clears the demotion streak only when it proves the rung works.
/// Concealment with no picture proves nothing: interleaved `Err`s must still
/// reach the threshold, and a forever-concealing rung must still have an escape.
#[test]
fn only_an_answer_that_proves_the_rung_works_clears_the_demotion_streak() {
    assert!(clears_demotion_streak(true, false));
    assert!(clears_demotion_streak(true, true));
    // Clean `Ok(None)` is proof (buffered, or an H.265 RASL skip).
    assert!(clears_demotion_streak(false, false));
    assert!(!clears_demotion_streak(false, true));

    // Alternating driver errors with concealment must still reach the threshold.
    let mut fails = 0u32;
    for concealed_ok in [false, true, false, true, false] {
        if concealed_ok {
            if clears_demotion_streak(false, true) {
                fails = 0;
            }
        } else {
            fails += 1; // driver verdict Err
        }
    }
    assert!(
        fails >= DEMOTE_AFTER,
        "three driver errors interleaved with concealment must still reach the \
         demotion threshold — they got to {fails}"
    );

    // A re-anchor wait produces no picture; every AU of it is an error, so
    // a rung that never recovers reaches the threshold.
    let mut fails = 0u32;
    for errored in [true; 5] {
        // failing AU, then four skipped ones
        if errored {
            fails += 1;
        } else if clears_demotion_streak(false, false) {
            fails = 0;
        }
    }
    assert!(fails >= DEMOTE_AFTER);

    // Counterfactual: answering skipped AUs as clean `Ok(None)` zeroes the
    // streak and `DEMOTE_AFTER` is unreachable. That is the AV1
    // film-grain-without-profile path in `NativeVulkanDecoder::new`.
    let mut fails = 0u32;
    for errored in [true, false, false, true, false, false, true, false, false] {
        if errored {
            fails += 1;
        } else if clears_demotion_streak(false, false) {
            fails = 0;
        }
    }
    assert!(
        fails < DEMOTE_AFTER,
        "a recovery wait answered as a CLEAN AU zeroes the streak once per frame \
         — which is why it must not be answered that way; it got to {fails}"
    );
}

/// Ordering only: auto tries Vulkan first on NVIDIA/AMD and the platform rung
/// first on Intel/unknown. Separate admission gates may skip a platform rung.
#[test]
fn vulkan_first_on_nvidia_and_amd_only() {
    assert!(decode_device(0x10DE, "NVIDIA GeForce RTX 5070 Ti").prefer_vulkan_first());
    assert!(decode_device(0x1002, "AMD RADV VANGOGH").prefer_vulkan_first());
    assert!(decode_device(0x1002, "AMD Custom GPU 0405 (RADV VANGOGH)").prefer_vulkan_first());
    assert!(decode_device(0x1002, "AMD Radeon RX 7800 XT (RADV NAVI32)").prefer_vulkan_first());
    assert!(
        !decode_device(0x8086, "Intel(R) Arc(tm) A770 Graphics (DG2)").prefer_vulkan_first()
    );
    // Discrete Arc advertises Vulkan Video and must still land on D3D11VA in auto.
    assert!(!decode_device(0x8086, "Intel(R) Arc(TM) B580 Graphics").prefer_vulkan_first());
    assert!(!decode_device(0x8086, "Intel(R) Arc(TM) Pro Graphics").prefer_vulkan_first());
}

/// Where Vulkan has no AV1, the presenter's VAAPI answer advertises it, but only on a
/// presenter the VAAPI rung may feed.
#[test]
fn linux_vaapi_av1_is_advertised_where_the_vaapi_rung_runs() {
    let mut intel = decode_device(0x8086, "Intel(R) Graphics (RKL GT1)");
    intel.decode_video_caps = usable_decode_ops(
        Platform::Linux,
        0x8086,
        VIDEO_CODEC_OP_DECODE_H265 | VIDEO_CODEC_OP_DECODE_AV1,
    );
    assert!(
        !av1_hardware_decodable(Platform::Linux, Some(&intel)),
        "Vulkan AV1 is masked on Intel"
    );
    intel.vaapi_av1_decode = true;
    assert!(av1_hardware_decodable(Platform::Linux, Some(&intel)));
    assert_ne!(decodable_codecs_for(Platform::Linux, Some(&intel), None, "auto", false) & CODEC_AV1, 0);
    intel.dmabuf_import = false;
    assert!(
        !av1_hardware_decodable(Platform::Linux, Some(&intel)),
        "VAAPI frames need dmabuf import"
    );

    let mut nvidia = decode_device(0x10DE, "NVIDIA GeForce RTX 3070 Ti");
    nvidia.vaapi_av1_decode = true;
    assert!(!av1_hardware_decodable(Platform::Linux, Some(&nvidia)));
}

#[test]
fn linux_intel_keeps_av1_off_the_vulkan_rung() {
    let all = VIDEO_CODEC_OP_DECODE_H264 | VIDEO_CODEC_OP_DECODE_H265 | VIDEO_CODEC_OP_DECODE_AV1;
    for platform in [Platform::Linux, Platform::Windows] {
        let intel = usable_decode_ops(platform, 0x8086, all);
        let h26x = VIDEO_CODEC_OP_DECODE_H264 | VIDEO_CODEC_OP_DECODE_H265;
        assert_eq!(intel & h26x, h26x);
        let av1_kept = intel & VIDEO_CODEC_OP_DECODE_AV1 != 0;
        assert_eq!(av1_kept, platform != Platform::Linux);
        assert_eq!(usable_decode_ops(platform, 0x1002, all), all);
        assert_eq!(usable_decode_ops(platform, 0x10DE, all), all);
    }
}

/// `auto` enters the VAAPI rung only on a presenter that imports its
/// dmabufs and is not NVIDIA, so a Vulkan refusal cannot land on frames
/// the selected device cannot display.
#[test]
fn auto_never_enters_vaapi_on_an_nvidia_presenter() {
    assert!(!vaapi_auto_ok(Some(&decode_device(
        0x10DE,
        "NVIDIA GeForce RTX 3070 Ti"
    ))));
    assert!(vaapi_auto_ok(Some(&decode_device(
        0x1002,
        "AMD RADV NAVI32"
    ))));
    assert!(vaapi_auto_ok(Some(&decode_device(0x8086, "Intel Arc"))));
    // Without dmabuf import the exported surfaces can never reach the screen.
    let mut no_import = decode_device(0x1002, "AMD RADV NAVI32");
    no_import.dmabuf_import = false;
    assert!(!vaapi_auto_ok(Some(&no_import)));
    // No Vulkan decode device means no presenter facts to refuse on.
    assert!(vaapi_auto_ok(None));
}

/// AV1 is advertised on a hardware fact, never on a decoder existing.
/// Negotiation happens once; there is no falling back afterwards.
#[test]
fn av1_is_advertised_only_where_hardware_can_decode_it() {
    assert!(!av1_hardware_decodable(Platform::Linux, None));

    // `video_decode` alone is not AV1: plenty of devices decode H.264/H.265 only.
    let mut dev = decode_device(0x10de, "no-av1");
    dev.decode_video_caps = VIDEO_CODEC_OP_DECODE_H264 | VIDEO_CODEC_OP_DECODE_H265;
    assert!(
        !av1_hardware_decodable(Platform::Linux, Some(&dev)),
        "H.264+H.265 decode support says nothing about AV1"
    );

    // The AV1 operation bit is the yes.
    let mut dev = decode_device(0x1002, "vangogh-ish");
    dev.decode_video_caps =
        VIDEO_CODEC_OP_DECODE_H264 | VIDEO_CODEC_OP_DECODE_H265 | VIDEO_CODEC_OP_DECODE_AV1;
    assert!(av1_hardware_decodable(Platform::Linux, Some(&dev)));

    // No decode queue: caps bits are not a claim.
    let mut dev = decode_device(0x1002, "no-decode-queue");
    dev.decode_video_caps = VIDEO_CODEC_OP_DECODE_AV1;
    dev.video_decode = false;
    assert!(!av1_hardware_decodable(Platform::Linux, Some(&dev)));
}

/// A pin with stray whitespace is still a pin. `"native-vulkan "` matched
/// no gate arm and fell through to `auto`. Same two inputs as `decode_pinned_to_software`.
#[test]
fn a_decoder_pin_survives_the_whitespace_a_shell_script_adds() {
    assert_eq!(
        resolve_decoder_pref(Some("native-vulkan "), "auto"),
        "native-vulkan",
        "a trailing space must not turn a pin into an unrecognised value"
    );
    assert_eq!(
        resolve_decoder_pref(Some("  software\t"), "auto"),
        "software"
    );
    // Trimmed to nothing is absent, not a pin to `""` (the auto family).
    assert_eq!(
        resolve_decoder_pref(Some("   "), "native-vaapi"),
        "native-vaapi"
    );
    assert_eq!(
        resolve_decoder_pref(Some(""), "native-vaapi"),
        "native-vaapi"
    );
    assert_eq!(resolve_decoder_pref(None, "native-vaapi"), "native-vaapi");
    // The trimmed value is what `native_vulkan_gate` admits.
    assert!(
        native_vulkan_gate(
            &resolve_decoder_pref(Some("native-vulkan "), "auto"),
            CODEC_HEVC,
            true,
            VIDEO_CODEC_OP_DECODE_H265,
        ),
        "the whole point: the trimmed pin reaches `native_vulkan_gate` and is admitted"
    );
}

#[test]
fn native_vulkan_gate_admits_pin_and_auto_family_per_codec_on_a_capable_family() {
    // Pin the spec values, not the implementation constants: a typo'd bit
    // would refuse every real driver and native would never engage.
    assert_eq!(
        VIDEO_CODEC_OP_DECODE_H264, 0x1,
        "VK_VIDEO_CODEC_OPERATION_DECODE_H264_BIT_KHR"
    );
    assert_eq!(
        VIDEO_CODEC_OP_DECODE_H265, 0x2,
        "VK_VIDEO_CODEC_OPERATION_DECODE_H265_BIT_KHR"
    );
    assert_eq!(
        VIDEO_CODEC_OP_DECODE_AV1, 0x4,
        "VK_VIDEO_CODEC_OPERATION_DECODE_AV1_BIT_KHR"
    );
    const H264_OP: u32 = VIDEO_CODEC_OP_DECODE_H264;
    const H265_OP: u32 = VIDEO_CODEC_OP_DECODE_H265;
    const AV1_OP: u32 = VIDEO_CODEC_OP_DECODE_AV1;
    for choice in ["native-vulkan", "auto", "", "hardware"] {
        // Pin and auto family admit both codecs pf-vkdecode speaks.
        assert!(
            native_vulkan_gate(choice, CODEC_H264, true, H264_OP),
            "{choice:?}"
        );
        assert!(
            native_vulkan_gate(choice, CODEC_HEVC, true, H265_OP),
            "{choice:?}"
        );
        // A family that runs both still admits each codec.
        assert!(
            native_vulkan_gate(choice, CODEC_H264, true, H264_OP | H265_OP),
            "{choice:?}"
        );
        assert!(
            native_vulkan_gate(choice, CODEC_HEVC, true, H264_OP | H265_OP),
            "{choice:?}"
        );
        // Each codec needs its own bit.
        assert!(
            !native_vulkan_gate(choice, CODEC_HEVC, true, H264_OP),
            "{choice:?}"
        );
        assert!(
            !native_vulkan_gate(choice, CODEC_H264, true, H265_OP),
            "{choice:?}"
        );
        // AV1 is in the auto family. The pin is not a licence to skip the device leg.
        assert!(
            native_vulkan_gate(choice, CODEC_AV1, true, AV1_OP),
            "{choice:?}"
        );
        assert!(
            native_vulkan_gate(choice, CODEC_AV1, true, H264_OP | H265_OP | AV1_OP),
            "{choice:?}"
        );
        // An AV1 session on a family without the AV1 op would create a session the family cannot run.
        assert!(
            !native_vulkan_gate(choice, CODEC_AV1, true, H264_OP | H265_OP),
            "{choice:?}"
        );
        assert!(
            !native_vulkan_gate(choice, CODEC_AV1, false, AV1_OP),
            "{choice:?}"
        );
        // No Vulkan-Video-capable presenter device.
        assert!(
            !native_vulkan_gate(choice, CODEC_H264, false, H264_OP),
            "{choice:?}"
        );
        assert!(
            !native_vulkan_gate(choice, CODEC_HEVC, false, H265_OP),
            "{choice:?}"
        );
        // Caps bit is the codec gate, not `video_decode`.
        assert!(
            !native_vulkan_gate(choice, CODEC_H264, true, 0),
            "{choice:?}"
        );
        assert!(
            !native_vulkan_gate(choice, CODEC_HEVC, true, 0),
            "{choice:?}"
        );
        assert!(
            !native_vulkan_gate(choice, CODEC_H264, true, AV1_OP),
            "{choice:?}"
        );
        assert!(
            !native_vulkan_gate(choice, CODEC_HEVC, true, AV1_OP),
            "{choice:?}"
        );
    }
    // Never for an explicit other-backend pin. Legacy spellings never reach this gate.
    for choice in ["native-vaapi", "native-d3d11va", "software"] {
        assert!(
            !native_vulkan_gate(choice, CODEC_H264, true, H264_OP),
            "{choice:?}"
        );
        assert!(
            !native_vulkan_gate(choice, CODEC_HEVC, true, H265_OP),
            "{choice:?}"
        );
        assert!(
            !native_vulkan_gate(choice, CODEC_AV1, true, AV1_OP),
            "{choice:?}"
        );
    }
    // Construction sites `expect()` this map: a codec admitted with no decoder would panic.
    assert_eq!(
        native_codec(CODEC_H264).map(|(c, _)| c),
        Some(NativeCodec::H264)
    );
    assert_eq!(
        native_codec(CODEC_HEVC).map(|(c, _)| c),
        Some(NativeCodec::H265)
    );
    // AV1 has a decoder here. Whether `auto` may pick it is `native_vulkan_gate`, not this map.
    assert_eq!(
        native_codec(CODEC_AV1),
        Some((NativeCodec::Av1, VIDEO_CODEC_OP_DECODE_AV1))
    );
    assert!(native_codec(CODEC_PYROWAVE).is_none());
    assert!(native_codec(0).is_none());
}

/// Which rung/codec pairs meet the automatic-priority confidence bar.
/// A table nobody checks drifts into a table that says everything is fine.
#[test]
fn the_evidence_table_marks_automatic_priority_confidence() {
    for (rung, codec, what) in [
        (
            NativeRung::Vulkan,
            CODEC_H264,
            "native Vulkan H.264 (M2 WP-D)",
        ),
        (NativeRung::Vulkan, CODEC_HEVC, "native Vulkan H.265 (M3)"),
        (
            NativeRung::Vulkan,
            CODEC_AV1,
            "native Vulkan AV1 (M7, RTX 5070 Ti)",
        ),
        (NativeRung::D3d11va, CODEC_H264, "native D3D11VA H.264 (M5)"),
        (NativeRung::D3d11va, CODEC_HEVC, "native D3D11VA H.265 (M5)"),
        (
            NativeRung::D3d11va,
            CODEC_AV1,
            "native D3D11VA AV1 (M7, RTX 3500 Ada + Intel Arc, 2026-08-07)",
        ),
    ] {
        assert!(
            native_evidence(rung, codec).verified,
            "{what} has hardware parity recorded"
        );
    }
    for (rung, codec, why) in [
        (
            NativeRung::Vaapi,
            CODEC_H264,
            "single-vendor parity without a soak stays below the priority bar",
        ),
        (
            NativeRung::Vaapi,
            CODEC_HEVC,
            "single-vendor parity without a soak stays below the priority bar",
        ),
        (
            NativeRung::Vaapi,
            CODEC_AV1,
            "single-vendor parity without a soak stays below the priority bar",
        ),
        (
            NativeRung::Software,
            CODEC_H264,
            "openh264 never ran on glass",
        ),
        (
            NativeRung::Software,
            CODEC_AV1,
            "rav1d has decoded on glass but has no parity check and no soak",
        ),
    ] {
        assert!(!native_evidence(rung, codec).verified, "{why}");
    }
    let vaapi_hevc = native_evidence(NativeRung::Vaapi, CODEC_HEVC);
    assert!(!vaapi_hevc.verified);
    assert!(
        vaapi_hevc.note.contains("bit-identical"),
        "below-priority evidence is not the same as never having run"
    );
    // An unknown codec leg is unverified, never a neighbour's evidence.
    assert!(!native_evidence(NativeRung::Vulkan, CODEC_PYROWAVE).verified);
    assert!(!native_evidence(NativeRung::Software, CODEC_HEVC).verified);
    assert!(!native_evidence(NativeRung::D3d11va, 0).verified);
    // Every answer explains itself in the session log.
    for rung in [
        NativeRung::Vulkan,
        NativeRung::D3d11va,
        NativeRung::Vaapi,
        NativeRung::Software,
    ] {
        for codec in [CODEC_H264, CODEC_HEVC, CODEC_AV1, 0] {
            assert!(
                !native_evidence(rung, codec).note.is_empty(),
                "{} / {codec} must carry a note",
                rung.name()
            );
        }
    }
}

/// A rung below the automatic-priority bar still runs when only CPU is below.
/// Which rung `auto` may prioritize is [`native_rung_admitted`].
#[test]
fn every_rung_runs_and_the_unproven_ones_are_named() {
    let unproven = [
        (NativeRung::Vaapi, CODEC_H264),
        (NativeRung::Vaapi, CODEC_HEVC),
        (NativeRung::Vaapi, CODEC_AV1),
    ];
    for (rung, codec) in unproven {
        let e = native_evidence(rung, codec);
        assert!(
            !e.verified,
            "{} / {codec:#x} reached the automatic-priority bar without a deliberate \
             evidence-table promotion",
            rung.name()
        );
        assert!(
            e.note.contains("never soaked"),
            "{} / {codec:#x}: the warning note must name the missing priority \
             coverage, got {:?}",
            rung.name(),
            e.note
        );
    }
    // Proven pairs stay proven. Deleting the filter must not relabel them.
    for (rung, codec) in [
        (NativeRung::Vulkan, CODEC_H264),
        (NativeRung::Vulkan, CODEC_HEVC),
        (NativeRung::Vulkan, CODEC_AV1),
        (NativeRung::D3d11va, CODEC_H264),
        (NativeRung::D3d11va, CODEC_HEVC),
        (NativeRung::D3d11va, CODEC_AV1),
    ] {
        assert!(native_evidence(rung, codec).verified, "{}", rung.name());
    }
}

/// `auto` yields an unproven rung only to proven code. Wrong pixels leave
/// only through the error streak, so the choice is made before the session runs.
#[test]
fn an_unproven_rung_yields_to_a_proven_one_and_to_nothing_else() {
    // Linux Intel/unknown: VAAPI first, proven Vulkan under it — `auto` takes none of them.
    for codec in [CODEC_H264, CODEC_HEVC, CODEC_AV1] {
        assert!(
            !native_rung_admitted(NativeRung::Vaapi, codec, Some(NativeRung::Vulkan)),
            "codec {codec:#x}: a never-run VAAPI rung must not go first when the \
             device can run the proven Vulkan rung for it"
        );
        // Admitted when nothing proven is below it (after Vulkan, or when Vulkan cannot run this codec).
        assert!(
            native_rung_admitted(NativeRung::Vaapi, codec, None),
            "codec {codec:#x}: with only the CPU below, the unproven rung runs"
        );
        // Yields to proven code, not to the unverified CPU rung.
        assert!(native_rung_admitted(
            NativeRung::Vaapi,
            codec,
            Some(NativeRung::Software)
        ));
    }
    // A proven rung is admitted whatever is below it.
    for (rung, codec) in [
        (NativeRung::Vulkan, CODEC_H264),
        (NativeRung::Vulkan, CODEC_HEVC),
        (NativeRung::Vulkan, CODEC_AV1),
        (NativeRung::D3d11va, CODEC_H264),
        (NativeRung::D3d11va, CODEC_HEVC),
        (NativeRung::D3d11va, CODEC_AV1),
    ] {
        for below in [
            None,
            Some(NativeRung::Vulkan),
            Some(NativeRung::Vaapi),
            Some(NativeRung::Software),
        ] {
            assert!(
                native_rung_admitted(rung, codec, below),
                "{} / {codec:#x} is proven and must run",
                rung.name()
            );
        }
    }
    // CPU is last everywhere, so it always runs. A codec it cannot decode is [`last_rung_verdict`].
    for codec in [CODEC_H264, CODEC_HEVC, CODEC_AV1] {
        assert!(native_rung_admitted(NativeRung::Software, codec, None));
    }
}

/// "Vulkan is below me" is a claim about this GPU. Without it, Linux Intel
/// would bar VAAPI on a box whose Vulkan device cannot decode this codec.
#[test]
fn the_rung_below_must_be_one_this_device_can_actually_run() {
    const H264_OP: u32 = VIDEO_CODEC_OP_DECODE_H264;
    const AV1_OP: u32 = VIDEO_CODEC_OP_DECODE_AV1;
    // Mesa/Intel: a decode family that advertises this codec.
    assert!(native_vulkan_usable(CODEC_H264, true, H264_OP));
    // No Vulkan Video, or a family that runs some other codec: neither is a rung to fall onto.
    assert!(!native_vulkan_usable(CODEC_H264, false, H264_OP));
    assert!(!native_vulkan_usable(CODEC_H264, true, AV1_OP));
    assert!(!native_vulkan_usable(CODEC_H264, true, 0));
    // A codec no native rung speaks is not a Vulkan rung.
    assert!(!native_vulkan_usable(CODEC_PYROWAVE, true, u32::MAX));
    // Linux Intel, both ways: H.264 on an H.264-capable device takes Vulkan;
    // AV1 on that device has no proven rung below VAAPI, so VAAPI runs.
    let below =
        |wire, caps| native_vulkan_usable(wire, true, caps).then_some(NativeRung::Vulkan);
    assert!(!native_rung_admitted(
        NativeRung::Vaapi,
        CODEC_H264,
        below(CODEC_H264, H264_OP)
    ));
    assert!(native_rung_admitted(
        NativeRung::Vaapi,
        CODEC_AV1,
        below(CODEC_AV1, H264_OP)
    ));
}

/// Advertised codecs are our rungs, not a decoder-library registry. The
/// Hello is a promise: moving the set would renegotiate every session.
#[test]
fn advertised_codecs_describe_our_rungs_and_not_libavcodecs_registry() {
    let bits = decodable_codecs();
    assert_eq!(
        bits,
        CODEC_H264 | CODEC_HEVC | CODEC_AV1,
        "the three codecs the native rungs speak"
    );
    assert_eq!(
        bits & CODEC_PYROWAVE,
        0,
        "pyrowave rides decodable_codecs_for"
    );
    // CPU codecs are a subset, except HEVC: the one advertised codec with no CPU rung.
    assert_eq!(
        software_decodable_codecs() & !bits,
        0,
        "a codec with a CPU rung but no advertisement would be unreachable"
    );
    assert_eq!(
        bits & !software_decodable_codecs(),
        CODEC_HEVC,
        "HEVC is the ONE advertised codec with no CPU rung (last_rung_verdict owns it)"
    );
}
