//! The audio plane.

use pf_client_core::audio::{
    audio_kind, audio_plan, av_sync_enabled, buffer_ms, concealed_len, interleaved, AudioKind,
    AudioLoop, AudioPlan, AudioWelcome, PacketStep, QuietStep,
};

fn welcome(codec: u8, rate_hz: u32, frame_us: u16) -> AudioWelcome {
    AudioWelcome {
        codec,
        channels: 2,
        rate_hz,
        bits: 24,
        frame_us,
        layout_known: true,
    }
}

#[test]
fn a_plane_opens_from_what_the_host_resolved() {
    assert_eq!(
        audio_plan(&welcome(0, 48_000, 0)),
        Some(AudioPlan {
            lossless: false,
            channels: 2,
            rate_hz: 48_000,
            frame_us: 5_000,
            per_ms: 96,
            scratch: 11_520,
            frame_ms: 5,
        })
    );
    // 192 samples per channel, interleaved.
    assert_eq!(
        audio_plan(&welcome(1, 96_000, 2_000)),
        Some(AudioPlan {
            lossless: true,
            channels: 2,
            rate_hz: 96_000,
            frame_us: 2_000,
            per_ms: 192,
            scratch: 384,
            frame_ms: 2,
        })
    );
}

#[test]
fn a_plane_this_client_cannot_decode_is_left_out() {
    assert_eq!(audio_plan(&welcome(2, 48_000, 0)), None);
    let mut w = welcome(0, 48_000, 0);
    w.layout_known = false;
    assert_eq!(audio_plan(&w), None);
}

#[test]
fn nothing_a_host_states_makes_the_loop_spin() {
    let mut w = welcome(1, 0, 0);
    w.channels = 0;
    let p = audio_plan(&w).unwrap();
    assert_eq!((p.rate_hz, p.frame_us, p.frame_ms, p.per_ms), (48_000, 1_000, 1, 48));
    let p = audio_plan(&welcome(1, 900, 1_001)).unwrap();
    assert_eq!((p.per_ms, p.frame_ms), (2, 2));
}

#[test]
fn the_codec_and_the_channels_pick_the_decoder() {
    assert_eq!(audio_kind(&welcome(1, 96_000, 2_000)), AudioKind::Pcm { bits: 24 });
    assert_eq!(audio_kind(&welcome(0, 48_000, 0)), AudioKind::Stereo);
    let mut w = welcome(0, 48_000, 0);
    w.channels = 6;
    assert_eq!(audio_kind(&w), AudioKind::Surround);
}

#[test]
fn counts_are_interleaved() {
    assert_eq!(interleaved(240, 2), Some(480));
    assert_eq!(interleaved(240, 0), Some(240));
    assert_eq!(interleaved(usize::MAX, 2), None);
    assert_eq!(concealed_len(480, 11_520), Some(480));
    assert_eq!(concealed_len(480, 100), Some(100));
    assert_eq!(concealed_len(0, 100), None);
    assert_eq!(concealed_len(480, 0), None);
}

#[test]
fn a_loop_protects_a_stream_it_has_heard() {
    let plan = audio_plan(&welcome(0, 48_000, 0)).unwrap();
    let mut l = AudioLoop::new();
    assert_eq!(l.wait_ms(&plan), 100);
    assert_eq!(l.conceal_before(3, 0), 0);
    assert_eq!(l.on_quiet(&plan, 0), QuietStep::Wait);
    l.on_decoded(Some(480));
    assert_eq!(l.wait_ms(&plan), 5);
    assert_eq!(l.conceal_before(3, 1), 2);
    assert_eq!(l.conceal_before(1, 3), 0);
    assert_eq!(l.on_quiet(&plan, 960), QuietStep::AskDrought { depth_ms: 10 });
    assert_eq!(
        l.on_packet(&plan, true, 960, 7, 3, 1),
        PacketStep {
            buffer_ms: 10,
            observe: true,
            video_e2e_ns: Some(7),
            conceal: 2
        }
    );
    assert_eq!(
        l.on_packet(&plan, true, 96, 0, 0, 0).video_e2e_ns,
        None,
        "nothing on the screen yet"
    );
    let off = l.on_packet(&plan, false, 96, 7, 0, 0);
    assert_eq!((off.buffer_ms, off.observe, off.video_e2e_ns), (1, false, None));
    l.on_decoded(None);
    assert_eq!(l.frame_samples, 480);
    assert_eq!(buffer_ms(960, 96), 10);
}

#[test]
fn the_environment_may_switch_sync_off() {
    assert!(av_sync_enabled(None));
    assert!(av_sync_enabled(Some("0")));
    assert!(!av_sync_enabled(Some("1")));
    assert!(!av_sync_enabled(Some("true")));
}
