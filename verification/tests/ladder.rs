//! The decode ladder: order, demotion, and what a session log says.

use pf_client_core::decoder::{
    decoder_choice, ladder, log_rung, open_decoder, rung_bit, software_rung, Backend, Built,
    DecodeStep, Decoder, Opening, RungAnswer, Walk, WalkStep, DEMOTE_AFTER, DEMOTE_MIN_STREAK_NS,
    RUNG_BIT_NATIVE_PLATFORM, RUNG_BIT_NATIVE_VULKAN,
};
use pf_client_core::video::{
    hdr_presentable, hevc_hardware_decodable, vaapi_av1_decodable, Platform, RungLoss,
    VulkanDecodeDevice,
};
use pf_client_core::video_types::{DecodeHealth, StreamFormat};
use pf_client_core::wire::{
    CODEC_AV1, CODEC_H264, CODEC_HEVC, CODEC_PYROWAVE, VENDOR_AMD, VENDOR_INTEL, VENDOR_NVIDIA,
    VIDEO_CODEC_OP_DECODE_H264, VIDEO_CODEC_OP_DECODE_H265,
};

fn device(vendor_id: u32) -> VulkanDecodeDevice {
    VulkanDecodeDevice {
        vendor_id,
        video_decode: true,
        decode_video_caps: VIDEO_CODEC_OP_DECODE_H264 | VIDEO_CODEC_OP_DECODE_H265,
        pyrowave_decode: false,
        present_timing: false,
        d3d11_import: true,
        dmabuf_import: true,
        vaapi_av1_decode: false,
        d3d11_hdr10: false,
        d3d11_nv12: false,
        d3d11_p010: false,
        hevc_444_8: false,
        hevc_444_10: false,
        adapter_luid: None,
    }
}

#[test]
fn auto_takes_vulkan_first_on_amd_and_the_platform_after() {
    let amd = device(VENDOR_AMD);
    for choice in ["auto", "", "hardware"] {
        assert_eq!(
            ladder(Platform::Linux, CODEC_H264, choice, Some(&amd)),
            vec![Backend::NativeVulkan, Backend::NativeVaapi]
        );
        assert_eq!(
            ladder(Platform::Windows, CODEC_H264, choice, Some(&amd)),
            vec![Backend::NativeVulkan, Backend::NativeD3d11va]
        );
    }
}

#[test]
fn intel_takes_d3d11va_first_on_windows_and_proven_vulkan_first_on_linux() {
    let intel = device(VENDOR_INTEL);
    assert_eq!(
        ladder(Platform::Windows, CODEC_HEVC, "auto", Some(&intel)),
        vec![Backend::NativeD3d11va, Backend::NativeVulkan]
    );
    assert_eq!(
        ladder(Platform::Linux, CODEC_HEVC, "auto", Some(&intel)),
        vec![Backend::NativeVulkan, Backend::NativeVaapi]
    );
    // Vulkan does not run AV1 here, so the unproven rung is all there is.
    assert_eq!(
        ladder(Platform::Linux, CODEC_AV1, "auto", Some(&intel)),
        vec![Backend::NativeVaapi]
    );
}

#[test]
fn automatic_choice_on_nvidia_never_tries_vaapi_but_a_pin_does() {
    let nvidia = device(VENDOR_NVIDIA);
    assert_eq!(
        ladder(Platform::Linux, CODEC_H264, "auto", Some(&nvidia)),
        vec![Backend::NativeVulkan]
    );
    assert_eq!(
        ladder(Platform::Linux, CODEC_H264, "native-vaapi", Some(&nvidia)),
        vec![Backend::NativeVaapi, Backend::NativeVulkan]
    );
}

#[test]
fn a_pin_on_software_tries_no_hardware() {
    let amd = device(VENDOR_AMD);
    assert!(ladder(Platform::Linux, CODEC_H264, "software", Some(&amd)).is_empty());
    assert!(ladder(Platform::Windows, CODEC_AV1, "software", None).is_empty());
}

#[test]
fn a_codec_no_rung_speaks_has_an_empty_ladder() {
    assert!(ladder(Platform::Linux, CODEC_PYROWAVE, "auto", Some(&device(VENDOR_AMD))).is_empty());
}

#[test]
fn a_windows_pin_without_imports_goes_on_as_auto() {
    let mut amd = device(VENDOR_AMD);
    amd.d3d11_import = false;
    assert_eq!(
        ladder(Platform::Windows, CODEC_H264, "native-d3d11va", Some(&amd)),
        vec![Backend::NativeVulkan]
    );
}

#[test]
fn the_environment_names_the_decoder_and_old_names_move() {
    assert_eq!(decoder_choice(Some(" vaapi "), "auto"), ("native-vaapi".into(), true));
    assert_eq!(decoder_choice(None, "software"), ("software".into(), false));
}

#[test]
fn a_streak_has_to_be_long_and_old_before_it_demotes() {
    let vk = Some(device(VENDOR_AMD));
    let mut d = Decoder::new(
        Backend::NativeVulkan,
        CODEC_H264,
        Platform::Linux,
        vk,
        StreamFormat::sdr_420_8(),
    );
    assert!(d.on_error(false, 1_000).is_empty());
    assert!(d.on_error(false, 2_000).is_empty());
    assert!(d.on_error(false, 3_000).is_empty(), "three errors, but young");
    assert_eq!(
        d.on_error(false, 1_000 + DEMOTE_MIN_STREAK_NS),
        vec![Backend::NativeVaapi, Backend::Software]
    );
    assert!(d.take_keyframe_request());
    assert!(!d.take_keyframe_request());
    // A picture clears the streak, concealment does not.
    d.on_answer(false, true);
    assert_eq!(d.fails, 4);
    d.on_answer(true, false);
    assert_eq!((d.fails, d.first_fail), (0, None));
}

#[test]
fn a_device_that_cannot_host_the_codec_does_not_wait() {
    let mut d = Decoder::new(
        Backend::NativeVulkan,
        CODEC_HEVC,
        Platform::Windows,
        Some(device(VENDOR_NVIDIA)),
        StreamFormat::sdr_420_8(),
    );
    assert_eq!(
        d.on_error(true, 5),
        vec![Backend::NativeD3d11va, Backend::Software]
    );
}

#[test]
fn an_entered_rung_is_not_offered_again() {
    let mut d = Decoder::new(
        Backend::NativeVaapi,
        CODEC_H264,
        Platform::Linux,
        Some(device(VENDOR_INTEL)),
        StreamFormat::sdr_420_8(),
    );
    assert_eq!(d.entered_rungs, RUNG_BIT_NATIVE_PLATFORM);
    assert_eq!(
        d.on_error(true, 5),
        vec![Backend::NativeVulkan, Backend::Software]
    );
    d.install(Backend::NativeVulkan);
    assert_eq!(
        d.entered_rungs,
        RUNG_BIT_NATIVE_PLATFORM | RUNG_BIT_NATIVE_VULKAN
    );
    assert_eq!(d.on_error(true, 9), vec![Backend::Software]);
    assert_eq!(rung_bit(Backend::Software), 0);
    assert_eq!(rung_bit(Backend::PyroWave), 0);
}

#[test]
fn software_is_forced_once_and_its_refusal_is_handed_on() {
    let mut d = Decoder::new(
        Backend::NativeVulkan,
        CODEC_HEVC,
        Platform::Linux,
        None,
        StreamFormat::sdr_420_8(),
    );
    assert_eq!(software_rung(CODEC_HEVC), Err(RungLoss::Codec));
    assert_eq!(software_rung(CODEC_H264), Ok(()));
    assert_eq!(software_rung(CODEC_AV1), Ok(()));
    assert_eq!(d.force_software(Err(RungLoss::Codec)), Err(RungLoss::Codec));
    assert_eq!(d.backend, Backend::NativeVulkan);
    assert_eq!(d.force_software(Ok(())), Ok(true));
    assert_eq!(d.backend, Backend::Software);
    assert!(d.take_keyframe_request());
    assert_eq!(d.force_software(Ok(())), Ok(false));
    assert!(!d.take_keyframe_request());
}

#[test]
fn only_hardware_rungs_answer_for_their_pictures() {
    let counters = DecodeHealth {
        damaged: 4,
        ..DecodeHealth::default()
    };
    let on = |backend: Backend| {
        Decoder::new(
            backend,
            CODEC_H264,
            Platform::Linux,
            None,
            StreamFormat::sdr_420_8(),
        )
    };
    assert_eq!(on(Backend::NativeVulkan).decode_health(counters), Some(counters));
    assert_eq!(on(Backend::Software).decode_health(counters), None);
    assert_eq!(on(Backend::NativeVulkan).decode_order(8), 8);
    assert_eq!(on(Backend::NativeVaapi).decode_order(8), 0);
    assert!(on(Backend::NativeVulkan).on_native_vulkan());
    assert!(on(Backend::NativeVulkan).wait_hw_decoded(true));
    assert!(!on(Backend::NativeVulkan).wait_hw_decoded(false));
    assert!(!on(Backend::NativeVaapi).wait_hw_decoded(true));
    assert!(on(Backend::NativeVaapi).forgive_unclean());
    assert!(!on(Backend::Software).forgive_unclean());
    assert!(on(Backend::NativeVaapi).is_native_platform_rung());
    assert!(!on(Backend::NativeD3d11va).is_native_platform_rung());
    let pyro = Decoder::new_pyrowave(Platform::Windows);
    assert_eq!(pyro.wire_codec, CODEC_PYROWAVE);
    assert_eq!(pyro.entered_rungs, 0);
}

#[test]
fn the_log_names_the_rung_and_its_evidence() {
    let line = log_rung(Backend::NativeVaapi, CODEC_HEVC);
    assert_eq!(line.rung, "native-vaapi");
    assert!(!line.evidence.unwrap().verified);
    let line = log_rung(Backend::PyroWave, CODEC_PYROWAVE);
    assert_eq!(line.rung, "pyrowave");
    assert!(line.evidence.is_none());
}

#[test]
fn a_walk_ends_at_software() {
    let mut w = Walk::new(ladder(
        Platform::Linux,
        CODEC_H264,
        "auto",
        Some(&device(VENDOR_AMD)),
    ));
    assert_eq!(w.current(), Backend::NativeVulkan);
    assert!(w.failed());
    assert_eq!(w.current(), Backend::NativeVaapi);
    assert!(w.failed());
    assert_eq!(w.current(), Backend::Software);
    assert!(!w.failed());
    let mut demotion = Walk::new(vec![Backend::Software]);
    assert_eq!(demotion.current(), Backend::Software);
    assert!(!demotion.failed());
}

#[test]
fn a_session_opens_the_decoder_its_codec_needs() {
    assert_eq!(
        open_decoder(CODEC_HEVC, 3, 10, false),
        Opening::Ladder {
            stream: StreamFormat {
                chroma_format_idc: 3,
                bit_depth: 10
            }
        }
    );
    assert_eq!(
        open_decoder(CODEC_PYROWAVE, 3, 8, true),
        Opening::PyroWave {
            chroma444: true,
            hdr16: false
        }
    );
    assert_eq!(
        open_decoder(CODEC_PYROWAVE, 1, 10, true),
        Opening::PyroWave {
            chroma444: false,
            hdr16: true
        }
    );
    assert_eq!(open_decoder(CODEC_PYROWAVE, 1, 8, false), Opening::NoDevice);
}

#[test]
fn what_a_device_shows_and_decodes_is_a_fact_of_the_device() {
    let mut d = device(VENDOR_INTEL);
    assert!(hdr_presentable(Platform::Linux, Some(&d), false));
    assert!(!hdr_presentable(Platform::Windows, Some(&d), false));
    assert!(hdr_presentable(Platform::Windows, Some(&d), true));
    assert!(hdr_presentable(Platform::Windows, None, false));
    d.d3d11_hdr10 = true;
    assert!(hdr_presentable(Platform::Windows, Some(&d), false));
    d.d3d11_hdr10 = false;
    d.d3d11_import = false;
    assert!(hdr_presentable(Platform::Windows, Some(&d), false));

    let mut d = device(VENDOR_INTEL);
    assert!(hevc_hardware_decodable(Some(&d), false));
    d.decode_video_caps = 0;
    assert!(!hevc_hardware_decodable(Some(&d), false));
    assert!(hevc_hardware_decodable(Some(&d), true));
    d.d3d11_import = false;
    assert!(!hevc_hardware_decodable(Some(&d), true));
    assert!(!hevc_hardware_decodable(None, true));

    assert!(vaapi_av1_decodable(VENDOR_INTEL, false, true));
    assert!(!vaapi_av1_decodable(VENDOR_INTEL, true, true));
    assert!(!vaapi_av1_decodable(VENDOR_NVIDIA, false, true));
    assert!(!vaapi_av1_decodable(VENDOR_AMD, false, false));
}

#[test]
fn a_failing_rung_gives_way_to_the_first_that_builds() {
    let mut d = Decoder::new(
        Backend::NativeVulkan,
        CODEC_HEVC,
        Platform::Windows,
        Some(device(VENDOR_AMD)),
        StreamFormat::sdr_420_8(),
    );
    let answered = |delivered: bool, concealed: bool| RungAnswer::Answered {
        delivered,
        concealed,
    };
    let failed = RungAnswer::Failed { device_fact: false };
    assert_eq!(d.on_decoded(answered(true, false), 0), DecodeStep::Deliver);
    assert_eq!(d.on_decoded(answered(false, true), 0), DecodeStep::Nothing);
    assert!(d.take_keyframe_request());
    for _ in 0..DEMOTE_AFTER {
        assert_eq!(d.on_decoded(failed, 5), DecodeStep::Nothing);
    }
    let DecodeStep::Demote(rungs) = d.on_decoded(failed, 5 + DEMOTE_MIN_STREAK_NS) else {
        panic!("long and old enough");
    };
    assert_eq!(rungs, [Backend::NativeD3d11va, Backend::Software]);
    let mut walk = Walk::new(rungs);
    assert_eq!(walk.on_built(Built::No), WalkStep::Build(Backend::Software));
    assert_eq!(
        walk.on_built(Built::NoRung(RungLoss::Codec)),
        WalkStep::Refused(Some(RungLoss::Codec))
    );
    assert_eq!(walk.on_built(Built::No), WalkStep::Refused(None));
    assert_eq!(walk.on_built(Built::Yes), WalkStep::Running(Backend::Software));
    d.install(Backend::Software);
    assert_eq!(d.on_decoded(failed, 9), DecodeStep::Fail, "nothing stands below");
    assert_eq!(d.on_decoded(answered(true, false), 9), DecodeStep::Deliver);
}
