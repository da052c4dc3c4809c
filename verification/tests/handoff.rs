//! Handing decoded surfaces to the presenter, and the native decoder's accounts.

use pf_client_core::dxva::{
    av1_buffers, begin_frame, buffer_kind, build_session, copy_into, facts_of_av1, frame_result,
    pool_desc, pool_share, profile_supported, slice_buffers, source_of, Av1Frame, Av1Picture, Av1Step,
    Av1Unit, BeginStep, BufferDesc, BufferError, BufferKind, BusyWait, Declared, DoesNotFit,
    MixedDepth, NativeDecoder, PictureFacts, PlanAnswer, PlanStep, PoolShare, ProfileError,
    SessionError, StreamShape, UnitOutcome, Written, BEGIN_FRAME_BUDGET_NS, BEGIN_FRAME_SLEEP_NS,
    BEGIN_FRAME_SPIN_NS, BUFFER_BITSTREAM, BUFFER_INVERSE_QUANTIZATION_MATRIX,
    BUFFER_PICTURE_PARAMETERS, BUFFER_SLICE_CONTROL, E_PENDING, NUM_REF_SLOTS,
};
use pf_client_core::frame::ColorDesc;
use pf_client_core::handoff::{
    adapter_of_luid, choose_adapter, choose_screen, input_space, keyed_acquired, planar_ring,
    pq_tonemap_supported, read_blt_us, rgb_ring, ring_processor, Adapter, BltTimer, HandoffRing,
    HandoffSource, HandoffStep, HandoffWindow, InputSpace, OutputSpace, PoolFormat, ScreenRect,
    SliceOutside, SlotFormat, ACQUIRE_STALL_NS, RING_SLOTS,
};

const SDR: ColorDesc = ColorDesc {
    primaries: 1,
    transfer: 1,
    matrix: 1,
    full_range: false,
};
const PQ: ColorDesc = ColorDesc {
    primaries: 9,
    transfer: 16,
    matrix: 9,
    full_range: false,
};

fn source(color: ColorDesc) -> HandoffSource {
    HandoffSource {
        pool: 77,
        pool_format: PoolFormat::P010,
        slices: 4,
        array_slice: 2,
        width: 1919,
        height: 1080,
        color,
        keyframe: true,
        references_clean: true,
    }
}

#[test]
fn a_blit_builds_its_ring_then_its_views_then_goes() {
    let mut h = HandoffRing::new(true);
    let s = source(PQ);
    let HandoffStep::BuildRgb { pq_out, generation } = h.present(&s) else {
        panic!("no ring yet");
    };
    assert!(pq_out);
    assert_eq!(generation, 0);
    h.rgb_built(&s, generation);
    assert_eq!(h.present(&s), HandoffStep::BindPool);
    h.pool_bound(&s);
    let HandoffStep::Blit { set_space, frame } = h.present(&s) else {
        panic!("everything is there");
    };
    assert_eq!(set_space, Some(InputSpace::StudioPq2020));
    assert_eq!(frame.format, SlotFormat::Rgb10a2);
    assert!(frame.color.is_pq() && frame.color.full_range && frame.keyframe);
    assert_eq!((frame.slot, frame.generation), (0, 0));
    for slot in 1..=RING_SLOTS {
        let HandoffStep::Blit { set_space, frame } = h.present(&s) else {
            panic!("everything is still there");
        };
        assert_eq!(set_space, None);
        assert_eq!(frame.slot, slot % RING_SLOTS);
    }
    // A slice the pool does not have.
    let outside = HandoffSource { array_slice: 4, ..s };
    let refused = SliceOutside {
        slice: 4,
        slices: 4,
    };
    assert_eq!(h.present(&outside), HandoffStep::Refused(refused));
    // Another pool needs views of its own; another size a ring of its own.
    assert_eq!(h.present(&HandoffSource { pool: 78, ..s }), HandoffStep::BindPool);
    assert_eq!(
        h.present(&HandoffSource { width: 1280, ..s }),
        HandoffStep::BuildRgb {
            pq_out: true,
            generation: 1
        }
    );
}

#[test]
fn pq_leaves_as_srgb_where_the_presenter_has_no_hdr() {
    let mut h = HandoffRing::new(false);
    let s = source(PQ);
    let HandoffStep::BuildRgb { pq_out, generation } = h.present(&s) else {
        panic!("no ring yet");
    };
    assert!(!pq_out);
    h.rgb_built(&s, generation);
    h.pool_bound(&s);
    let HandoffStep::Blit { frame, .. } = h.present(&s) else {
        panic!("everything is there");
    };
    assert_eq!((frame.format, frame.color.transfer), (SlotFormat::Bgra8, 13));
}

#[test]
fn a_failed_copy_falls_back_to_the_blit() {
    let mut h = HandoffRing::new(true);
    h.set_planar(true, true);
    let s = source(SDR);
    let HandoffStep::BuildPlanar { format, generation } = h.present(&s) else {
        panic!("no ring yet");
    };
    assert_eq!((format, generation), (SlotFormat::P010, 0));
    h.planar_built(&s, format, generation);
    let HandoffStep::CopyPlanar { frame, .. } = h.present(&s) else {
        panic!("the ring is there");
    };
    assert_eq!((frame.width, frame.height), (1920, 1080), "even sides");
    assert_eq!(frame.color, SDR, "the presenter converts");
    h.planar_failed(format);
    assert_eq!(
        h.present(&s),
        HandoffStep::BuildRgb {
            pq_out: false,
            generation: 1
        }
    );
    assert_eq!(h.planar_format(PoolFormat::P010), None);
    assert_eq!(h.planar_format(PoolFormat::Nv12), Some(SlotFormat::Nv12));
    assert_eq!(h.planar_format(PoolFormat::Other), None);
}

#[test]
fn rings_are_made_for_who_writes_them() {
    let s = source(SDR);
    let rgb = rgb_ring(&s, false);
    assert_eq!((rgb.width, rgb.format, rgb.render_target), (1919, SlotFormat::Bgra8, true));
    assert_eq!(rgb_ring(&s, true).format, SlotFormat::Rgb10a2);
    let vp = ring_processor(&s, true);
    assert_eq!((vp.width, vp.crop_width, vp.auto_processing), (1919, 1919, false));
    assert_eq!(vp.output, OutputSpace::PqFull2020);
    assert_eq!(ring_processor(&s, false).output, OutputSpace::SrgbFull709);
    let copy = planar_ring(&s, SlotFormat::Nv12);
    assert_eq!((copy.width, copy.slots, copy.render_target), (1920, RING_SLOTS, false));
}

#[test]
fn signalling_becomes_an_input_space() {
    let space = |transfer: u8, matrix: u8, full_range: bool| {
        input_space(ColorDesc {
            primaries: 1,
            transfer,
            matrix,
            full_range,
        })
    };
    assert_eq!(space(16, 9, true), InputSpace::StudioPq2020);
    assert_eq!(space(1, 9, false), InputSpace::Studio2020);
    assert_eq!(space(1, 10, true), InputSpace::Full2020);
    assert_eq!(space(1, 5, false), InputSpace::Studio601);
    assert_eq!(space(1, 6, true), InputSpace::Full601);
    assert_eq!(space(1, 2, true), InputSpace::Full709);
    assert_eq!(space(1, 1, false), InputSpace::Studio709);
}

#[test]
fn a_timeout_is_not_an_acquire() {
    assert_eq!(keyed_acquired(0), Ok(()));
    assert_eq!(keyed_acquired(0x102), Err(0x102));
    assert_eq!(keyed_acquired(-1), Err(-1));
    assert!(pq_tonemap_supported(None) && pq_tonemap_supported(Some(true)));
    assert!(!pq_tonemap_supported(Some(false)));
}

#[test]
fn timings_cycle_and_a_bad_clock_gives_none() {
    let mut t = BltTimer::new();
    for i in 0..4 {
        assert_eq!(t.begin(), (i, false));
        assert_eq!(t.current(), i);
    }
    assert_eq!(t.begin(), (0, true));
    assert_eq!(read_blt_us(false, 10_000_000, 100, 5_100), Some(500));
    assert_eq!(read_blt_us(true, 10_000_000, 100, 5_100), None);
    assert_eq!(read_blt_us(false, 0, 100, 5_100), None);
    assert_eq!(read_blt_us(false, 10_000_000, 5_100, 100), None);
    assert_eq!(read_blt_us(false, 1, 0, u64::MAX), None);
}

#[test]
fn a_window_reports_once_a_second() {
    let mut w = HandoffWindow::new(0, false);
    assert!(w.flush_if_due(5_000_000_000).is_none(), "nothing went through");
    w.note_frame(10, Some(300));
    w.note_frame(ACQUIRE_STALL_NS, None);
    assert!(w.flush_if_due(999_999_999).is_none());
    w.note_begin_frame(2, 5_000);
    let r = w.flush_if_due(1_000_000_000).unwrap();
    assert_eq!((r.frames, r.acquire_stalls, r.acquire_wait_us), (2, 1, 1_000));
    assert_eq!((r.begin_retries, r.begin_wait_us), (2, 5));
    assert_eq!(r.blt_us, [300]);
    assert!(r.loud);
    w.note_frame(0, None);
    assert!(!w.flush_if_due(2_000_000_000).unwrap().loud);
}

#[test]
fn decoding_stays_on_the_presenters_card() {
    let card = |software: bool, n: u8| Adapter {
        software,
        luid: [n; 8],
    };
    let cards = vec![card(true, 1), card(false, 2), card(false, 3)];
    assert_eq!(choose_adapter(&cards, Some([3; 8])), Some(2));
    assert_eq!(choose_adapter(&cards, Some([9; 8])), Some(1));
    assert_eq!(choose_adapter(&cards, Some([1; 8])), Some(1), "software decodes nothing");
    assert_eq!(choose_adapter(&cards, None), Some(1));
    assert_eq!(choose_adapter(&vec![card(true, 1)], None), None);
    assert_eq!(adapter_of_luid(&cards, &[1; 8]), Some(0));
    assert_eq!(adapter_of_luid(&cards, &[9; 8]), None);
}

#[test]
fn the_screen_under_the_window_is_the_one() {
    let at = |left: i32| ScreenRect {
        left,
        right: left + 100,
        top: 0,
        bottom: 100,
    };
    let screens = vec![at(-100), at(0), at(100)];
    assert_eq!(choose_screen(&screens, Some((150, 5))), Some(2));
    assert_eq!(choose_screen(&screens, Some((900, 5))), Some(1));
    assert_eq!(choose_screen(&screens, None), Some(1));
    assert_eq!(choose_screen(&vec![at(500)], None), Some(0));
    assert_eq!(choose_screen(&Vec::new(), None), None);
}

#[test]
fn a_busy_decoder_is_waited_for() {
    assert_eq!(begin_frame(0, 0, 3), BeginStep::Begun { retries: 3 });
    assert_eq!(
        begin_frame(-5, 0, 3),
        BeginStep::Failed {
            code: -5,
            retries: 3
        }
    );
    assert_eq!(
        begin_frame(E_PENDING, 0, 3),
        BeginStep::Again {
            wait: BusyWait::Yield,
            retries: 4
        }
    );
    assert_eq!(
        begin_frame(E_PENDING, BEGIN_FRAME_SPIN_NS, 4),
        BeginStep::Again {
            wait: BusyWait::Sleep(BEGIN_FRAME_SLEEP_NS),
            retries: 5
        }
    );
    assert_eq!(
        begin_frame(E_PENDING, BEGIN_FRAME_BUDGET_NS, 5),
        BeginStep::StillBusy { retries: 6 }
    );
}

const PICTURE: Av1Picture = Av1Picture {
    max_frame_width_minus_1: 3839,
    max_frame_height_minus_1: 2159,
    bit_depth: 10,
    chroma_format_idc: 1,
    colour: SDR,
    is_key: true,
    references_clean: true,
    render_width: 2000,
    render_height: 1080,
    upscaled_width: 1920,
    frame_height: 1088,
};

#[test]
fn an_av1_session_is_sized_for_its_sequence() {
    let shape = StreamShape::of_av1(&PICTURE);
    assert_eq!((shape.coded_width, shape.coded_height), (3840, 2160));
    assert_eq!(shape.max_dpb_frames, NUM_REF_SLOTS);
    assert_eq!(shape.bit_depth(), 10);
    assert_eq!(shape.check(), Ok(()));
    let facts = facts_of_av1(&PICTURE);
    assert_eq!((facts.width, facts.height), (1920, 1080), "cut to what was decoded");
    let mixed = StreamShape {
        bit_depth_chroma_minus8: 0,
        ..shape
    };
    let e = MixedDepth { luma: 2, chroma: 0 };
    assert_eq!(mixed.check(), Err(e));
    let supported = Ok(());
    assert_eq!(build_session(&shape, true, supported, 3, Some(1)), Ok(1));
    assert_eq!(build_session(&mixed, true, supported, 3, Some(1)), Err(SessionError::Mixed(e)));
    assert_eq!(build_session(&shape, false, supported, 3, Some(1)), Err(SessionError::NoProfile));
    assert_eq!(
        build_session(&shape, true, Err(ProfileError::Missing), 3, Some(1)),
        Err(SessionError::Profile(ProfileError::Missing))
    );
    assert_eq!(
        build_session(&shape, true, supported, 3, None),
        Err(SessionError::NoConfig { offered: 3 })
    );
    let pool = pool_desc(&shape, 3840, 2176, 12, PoolShare::Private);
    assert_eq!((pool.sample_height, pool.surface_height, pool.surfaces), (2160, 2176, 12));
    assert_eq!(profile_supported(&vec![7, 8], 8, true), Ok(()));
    assert_eq!(profile_supported(&vec![7, 8], 8, false), Err(ProfileError::WrongFormat));
    assert_eq!(profile_supported(&vec![7, 8], 9, true), Err(ProfileError::Missing));
}

#[test]
fn a_decoder_without_a_keyframe_idles_and_asks() {
    let mut d = NativeDecoder::new();
    assert_eq!(d.on_plan(PlanAnswer::RaslSkipped), PlanStep::Idle);
    assert!(!d.take_recovery_request());
    assert_eq!(d.on_plan(PlanAnswer::AwaitingIdr), PlanStep::Idle);
    assert!(d.take_recovery_request() && !d.take_recovery_request());
    assert_eq!(d.on_plan(PlanAnswer::NoActiveParamSet), PlanStep::Idle);
    assert!(d.take_recovery_request());
    assert_eq!(d.on_plan(PlanAnswer::Refused), PlanStep::Fail);
    assert_eq!((d.health.refused, d.health.run), (1, 1));
    assert_eq!(d.on_plan(PlanAnswer::Planned), PlanStep::Go);
    assert_eq!(d.settle(false, true), UnitOutcome::Shown);
    assert_eq!(d.health.run, 0);
    assert_eq!(d.settle(true, false), UnitOutcome::Dropped);
    assert!(d.take_recovery_request());
    assert_eq!(d.settle(false, false), UnitOutcome::Failed);
    assert_eq!((d.health.damaged, d.health.refused, d.health.worst_run), (1, 2, 2));
    d.status_id = u32::MAX;
    assert_eq!(d.next_status(), 1, "zero is a buffer nobody wrote");
}

#[test]
fn a_change_of_shape_rebuilds_and_forgets() {
    let mut d = NativeDecoder::new();
    let shape = StreamShape::of_av1(&PICTURE);
    assert!(d.ensure_session(shape));
    d.session_built(shape, 3);
    assert!(!d.ensure_session(shape));
    let facts = facts_of_av1(&PICTURE);
    let frame = Av1Frame {
        damaged: false,
        setup_slot: 1,
        refreshes: true,
        show: false,
        facts,
    };
    assert_eq!(NativeDecoder::av1_step(&frame), Av1Step::Decode);
    assert!(!d.av1_done(&frame, false));
    assert_eq!(d.show_existing(Some(1)), Some((1, facts)));
    assert_eq!(d.show_existing(Some(0)), None);
    assert_eq!(d.show_existing(Some(9)), None);
    assert_eq!(d.show_existing(None), None);
    // The same surface, decoded into again without success.
    assert!(!d.av1_done(&frame, true));
    assert_eq!(d.show_existing(Some(1)), None);
    let passing = Av1Frame {
        refreshes: false,
        show: true,
        ..frame
    };
    assert_eq!(NativeDecoder::av1_step(&passing), Av1Step::DecodeAndShow);
    assert!(d.av1_done(&passing, false), "nothing will name it again");
    d.av1_done(&frame, false);
    let hurt = Av1Frame {
        damaged: true,
        ..frame
    };
    assert_eq!(NativeDecoder::av1_step(&hurt), Av1Step::Skip);
    d.av1_done(&hurt, false);
    assert_eq!(d.show_existing(Some(1)), None);
    let wider = StreamShape {
        coded_width: 7680,
        ..shape
    };
    assert!(d.ensure_session(wider));
    assert!(d.held.is_empty() && d.shape.is_none());
}

#[test]
fn one_damaged_frame_conceals_the_whole_unit() {
    let mut h = HandoffRing::new(false);
    h.set_planar(false, true);
    let s = source(SDR);
    h.present(&s);
    h.planar_built(&s, SlotFormat::P010, 0);
    let HandoffStep::CopyPlanar { frame, .. } = h.present(&s) else {
        panic!("the ring is there");
    };
    let mut unit = Av1Unit::new();
    unit.on_frame(false, Some(frame));
    unit.on_frame(false, None);
    let mut d = NativeDecoder::new();
    assert_eq!(d.unit_done(&unit), Some(frame));
    unit.on_frame(true, None);
    assert_eq!(d.unit_done(&unit), None);
    assert_eq!(d.health.damaged, 1);
    assert!(d.take_recovery_request());
    d.unit_failed();
    assert_eq!(d.health.refused, 1);
}

#[test]
fn a_surface_is_handed_over_with_its_facts() {
    let facts: PictureFacts = facts_of_av1(&PICTURE);
    let s = source_of(5, PoolFormat::P010, 9, 3, facts);
    assert_eq!((s.pool, s.slices, s.array_slice), (5, 9, 3));
    assert_eq!((s.width, s.height, s.keyframe), (1920, 1080, true));
}

#[test]
fn declared_buffers_are_held_against_what_was_written() {
    assert_eq!(buffer_kind(BUFFER_BITSTREAM), Some(BufferKind::Bitstream));
    assert_eq!(buffer_kind(BUFFER_SLICE_CONTROL), Some(BufferKind::SliceControl));
    assert_eq!(buffer_kind(99), None);
    let kinds = |q: Option<u32>| {
        slice_buffers(1, q, 2, 3, 40)
            .iter()
            .map(|b| (b.kind, b.size, b.mb_count))
            .collect::<Vec<_>>()
    };
    assert_eq!(
        kinds(Some(8)),
        [
            (BufferKind::PictureParameters, 1, 0),
            (BufferKind::InverseQuantizationMatrix, 8, 0),
            (BufferKind::Bitstream, 2, 40),
            (BufferKind::SliceControl, 3, 40),
        ]
    );
    assert_eq!(kinds(None).len(), 3);
    let written = Written {
        pic_params: 10,
        bitstream: 20,
        tile_control: 30,
    };
    let declare = |code: u32, size: u32| Declared {
        code,
        size,
        mb_count: 0,
    };
    let good = vec![
        declare(BUFFER_PICTURE_PARAMETERS, 10),
        declare(BUFFER_BITSTREAM, 20),
        declare(BUFFER_SLICE_CONTROL, 30),
    ];
    let made = av1_buffers(&good, &written).unwrap();
    assert_eq!(
        made[2],
        BufferDesc {
            kind: BufferKind::SliceControl,
            size: 30,
            mb_count: 0
        }
    );
    assert_eq!(
        av1_buffers(&vec![declare(BUFFER_BITSTREAM, 21)], &written),
        Err(BufferError::Mismatch {
            code: BUFFER_BITSTREAM,
            wrote: 20,
            declared: 21
        })
    );
    assert_eq!(
        av1_buffers(&vec![declare(BUFFER_INVERSE_QUANTIZATION_MATRIX, 1)], &written),
        Err(BufferError::NoWriter {
            code: BUFFER_INVERSE_QUANTIZATION_MATRIX
        })
    );
}

#[test]
fn a_buffer_is_copied_whole_or_not_at_all() {
    let mut dst = [9u8; 4];
    assert_eq!(copy_into(&mut dst, &[1, 2]), Ok(()));
    assert_eq!(dst, [1, 2, 9, 9]);
    assert_eq!(copy_into(&mut dst, &[7; 5]), Err(DoesNotFit { len: 5, room: 4 }));
    assert_eq!(dst, [1, 2, 9, 9]);
    assert_eq!(pool_share(Some("1")), PoolShare::Shared);
    assert_eq!(pool_share(Some("srv")), PoolShare::Sampled);
    assert_eq!(pool_share(Some("yes")), PoolShare::Private);
    assert_eq!(pool_share(None), PoolShare::Private);
    assert_eq!(frame_result(Err("a"), Err("b")), Err("a"));
    assert_eq!(frame_result(Ok(()), Err("b")), Err("b"));
    assert_eq!(frame_result::<&str>(Ok(()), Ok(())), Ok(()));
}
