//! Decoded pictures and the counters kept of them.

use pf_client_core::frame::{
    AnchorEvidence, ColorDesc, DecodedImage, DmabufFrame, DrmFrameGuard, LocalRecovery,
    NativeReleaseGuard, NativeReleaseToken, NativeVkFrame, NativeVkLayout, PyroWavePlanarFrame,
    RawVkFormat,
};
use pf_client_core::handoff::{D3d11Frame, SlotFormat};
use pf_client_core::planar::{CpuPlanarFrame, PlanarError};
use pf_client_core::video_types::{umd_version_parts, DecodeHealth, StreamFormat};

fn sdr() -> ColorDesc {
    ColorDesc {
        primaries: 1,
        transfer: 1,
        matrix: 1,
        full_range: false,
    }
}

fn vulkan_frame() -> NativeVkFrame {
    NativeVkFrame {
        image: 1,
        vk_format: RawVkFormat(1000156003),
        plane_views: [2, 3],
        layer: 0,
        layout: NativeVkLayout::DecodeDpb,
        semaphore: 40,
        semaphore_value: 7,
        generation: 1,
        width: 1920,
        height: 1080,
        coded_width: 1920,
        coded_height: 1088,
        crop_x: 0,
        crop_y: 0,
        color: sdr(),
        keyframe: false,
        poc: 4,
        recovery: LocalRecovery { code: 3 },
        references_clean: false,
        decode_order: 99,
        guard: NativeReleaseGuard::new(NativeReleaseToken {
            seq: 5,
            generation: 1,
            presented: false,
        }),
    }
}

fn cpu_frame() -> CpuPlanarFrame {
    CpuPlanarFrame::from_i420(
        2,
        2,
        [&[1, 2, 3, 4], &[5], &[6]],
        [2, 1, 1],
        sdr(),
        true,
        LocalRecovery { code: 8 },
    )
    .unwrap()
}

#[test]
fn each_path_answers_only_what_it_knows() {
    let vk = DecodedImage::NativeVk(vulkan_frame());
    assert!(!vk.is_keyframe());
    assert_eq!(vk.local_recovery(), LocalRecovery { code: 3 });
    assert_eq!(vk.anchor_evidence(), AnchorEvidence::ReferencesDamaged);
    assert_eq!(vk.decode_order(), Some(99));
    assert_eq!(vk.dimensions(), (1920, 1080));
    assert_eq!(vk.path_tag(), "native-vulkan");
    assert_eq!(vk.hw_fence(), Some((40, 7)));

    let cpu = DecodedImage::Cpu(cpu_frame());
    assert!(cpu.is_keyframe());
    assert_eq!(cpu.local_recovery(), LocalRecovery { code: 8 });
    assert_eq!(cpu.anchor_evidence(), AnchorEvidence::Unavailable);
    assert_eq!(cpu.decode_order(), None);
    assert_eq!(cpu.dimensions(), (2, 2));
    assert_eq!(cpu.path_tag(), "software");
    assert_eq!(cpu.hw_fence(), None);

    let dx = DecodedImage::D3d11(D3d11Frame {
        width: 1280,
        height: 720,
        color: sdr(),
        format: SlotFormat::Bgra8,
        keyframe: true,
        references_clean: true,
        slot: 0,
        generation: 0,
    });
    assert_eq!(dx.anchor_evidence(), AnchorEvidence::ReferencesClean);
    assert_eq!(dx.local_recovery(), LocalRecovery::none());
    assert_eq!(dx.path_tag(), "native-d3d11va");

    let va = DecodedImage::NativeDmabuf(DmabufFrame {
        width: 640,
        height: 480,
        coded_width: 640,
        coded_height: 480,
        fourcc: 0x3231_564e,
        modifier: 0,
        planes: Vec::new(),
        color: sdr(),
        keyframe: false,
        references_clean: true,
        sync_fds: Vec::new(),
        pool_key: 1,
        guard: DrmFrameGuard(1),
    });
    assert_eq!(va.path_tag(), "native-vaapi");
    assert_eq!(va.anchor_evidence(), AnchorEvidence::ReferencesClean);
    assert_eq!(va.dimensions(), (640, 480));

    let pw = DecodedImage::PyroWave(PyroWavePlanarFrame {
        width: 3840,
        height: 2160,
        plane_views: [1, 2, 3],
        color: sdr(),
        keyframe: true,
    });
    assert_eq!(pw.path_tag(), "pyrowave");
    assert_eq!(pw.anchor_evidence(), AnchorEvidence::Unavailable);
    assert_eq!(pw.decode_order(), None);
}

#[test]
fn a_release_token_goes_back_once() {
    let mut g = vulkan_frame().guard;
    g.mark_presented();
    assert_eq!(
        g.release(),
        Some(NativeReleaseToken {
            seq: 5,
            generation: 1,
            presented: true
        })
    );
    assert_eq!(g.release(), None);
    g.mark_presented();
    assert_eq!(g.release(), None);
}

#[test]
fn a_bad_picture_is_refused_for_its_first_fault() {
    let build = |w: u32, h: u32, y: &[u8], u: &[u8], strides: [usize; 3]| {
        CpuPlanarFrame::from_i420(w, h, [y, u, u], strides, sdr(), false, LocalRecovery::none())
            .map(|_| ())
    };
    assert_eq!(build(0, 2, &[1], &[1], [1, 1, 1]), Err(PlanarError::Empty));
    assert_eq!(build(2, 0, &[1], &[1], [2, 1, 1]), Err(PlanarError::Empty));
    assert_eq!(
        build(2, 2, &[1, 2, 3, 4], &[1], [1, 1, 1]),
        Err(PlanarError::NarrowStride { plane: 0 })
    );
    assert_eq!(
        build(2, 2, &[1, 2, 3], &[1], [2, 1, 1]),
        Err(PlanarError::ShortPlane { plane: 0 })
    );
    assert_eq!(
        build(2, 2, &[1, 2, 3, 4], &[1], [2, 0, 1]),
        Err(PlanarError::NarrowStride { plane: 1 })
    );
    assert_eq!(
        build(2, 2, &[1, 2, 3, 4], &[], [2, 1, 1]),
        Err(PlanarError::ShortPlane { plane: 1 })
    );
    // The last row needs no padding after it.
    assert_eq!(build(2, 2, &[1, 2, 9, 9, 3, 4], &[1], [4, 1, 1]), Ok(()));
}

#[test]
fn odd_pictures_keep_their_last_chroma_sample() {
    let y = [1u8, 2, 3, 4, 5, 6, 7, 8, 9];
    let c = [1u8, 2, 3, 4];
    let f = CpuPlanarFrame::from_i420(
        3,
        3,
        [&y, &c, &c],
        [3, 2, 2],
        sdr(),
        false,
        LocalRecovery::none(),
    )
    .unwrap();
    assert_eq!(f.plane(0), &y);
    assert_eq!(f.plane(1), &c);
    assert_eq!(f.plane(2), &c);
    assert_eq!(f.plane_dims(2), (2, 2));
    assert_eq!(f.data.len(), 17);
}

#[test]
fn counters_only_climb_and_a_clean_unit_ends_the_run() {
    let mut h = DecodeHealth {
        status_queries: true,
        ..DecodeHealth::default()
    };
    h.note(true, false, 0);
    h.note(false, true, 0);
    h.note(false, false, 2);
    assert_eq!((h.damaged, h.refused, h.failed), (1, 1, 2));
    assert_eq!((h.run, h.worst_run), (3, 3));
    h.note(false, false, 0);
    assert_eq!((h.run, h.worst_run), (0, 3));
    h.note(true, false, 0);
    assert_eq!((h.run, h.worst_run), (1, 3));
    h.note_dropped();
    assert_eq!(h.dropped, 1);
    assert_eq!((h.damaged, h.refused, h.failed), (2, 1, 2));

    // A device that answers no queries counts no failures, and the run still shows them.
    let mut blind = DecodeHealth::default();
    blind.note(false, false, 4);
    assert_eq!((blind.failed, blind.run), (0, 1));
}

#[test]
fn a_depth_is_eight_or_ten_or_refused() {
    let at = |bit_depth: u8| {
        StreamFormat {
            bit_depth,
            ..StreamFormat::sdr_420_8()
        }
        .bit_depth_minus8()
    };
    assert_eq!(at(8), Some(0));
    assert_eq!(at(10), Some(2));
    assert_eq!(at(12), None);
    assert_eq!(at(0), None);
    assert_eq!(StreamFormat::sdr_420_8().chroma_format_idc, 1);
}

#[test]
fn a_driver_version_with_the_top_bit_set_still_splits() {
    assert_eq!(umd_version_parts(-1), [65535; 4]);
    assert_eq!(umd_version_parts(0), [0; 4]);
}

#[test]
fn pq_is_told_by_its_transfer() {
    assert!(!sdr().is_pq());
    let pq = ColorDesc {
        transfer: 16,
        ..sdr()
    };
    assert!(pq.is_pq());
}
