//! Access units on the native D3D11VA rung, step by step.

use pf_client_core::dxva::{Av1Frame, PictureFacts, PlanAnswer, StreamShape};
use pf_client_core::dxva_unit::{
    submission, Av1Event, Av1Next, Av1Run, Av1Stage, SliceCodec, SliceEvent, SliceNext,
    SlicePicture, SliceReply, SliceRun, SliceStage, UnitEnd,
};
use pf_client_core::frame::ColorDesc;
use pf_client_core::handoff::{D3d11Frame, SlotFormat};

const COLOUR: ColorDesc = ColorDesc {
    primaries: 1,
    transfer: 1,
    matrix: 1,
    full_range: false,
};
const SHAPE: StreamShape = StreamShape {
    coded_width: 1920,
    coded_height: 1088,
    max_dpb_frames: 4,
    chroma_format_idc: 1,
    bit_depth_luma_minus8: 0,
    bit_depth_chroma_minus8: 0,
};
const FACTS: PictureFacts = PictureFacts {
    colour: COLOUR,
    keyframe: true,
    references_clean: true,
    width: 1920,
    height: 1080,
};
const SHOWN: D3d11Frame = D3d11Frame {
    width: 1920,
    height: 1080,
    color: COLOUR,
    format: SlotFormat::Bgra8,
    keyframe: true,
    references_clean: true,
    slot: 3,
    generation: 0,
};

fn planned(damaged: bool) -> SliceEvent {
    SliceEvent::Planned {
        answer: PlanAnswer::Planned,
        damaged,
        shape: SHAPE,
    }
}

fn goes_on(next: SliceNext) -> SliceReply {
    SliceReply {
        release: false,
        next,
    }
}

fn done(release: bool, end: UnitEnd) -> SliceReply {
    SliceReply {
        release,
        next: SliceNext::Done(end),
    }
}

#[test]
fn a_unit_is_planned_built_converted_and_submitted() {
    let mut r = SliceRun::new();
    assert_eq!(r.hear(SliceEvent::Submitted(true)), goes_on(SliceNext::Wait));
    assert_eq!(r.hear(SliceEvent::Start), goes_on(SliceNext::Plan));
    assert_eq!(r.hear(planned(false)), goes_on(SliceNext::Build(SHAPE)));
    assert_eq!(
        r.hear(SliceEvent::Built(Some(5))),
        goes_on(SliceNext::Convert { status: 1 })
    );
    assert_eq!(r.decoder.held.len(), 5);
    assert_eq!(r.hear(SliceEvent::Converted(true)), goes_on(SliceNext::Submit));
    assert_eq!(r.hear(SliceEvent::Submitted(true)), done(true, UnitEnd::Shown));
    // The next unit has its session already.
    r.hear(SliceEvent::Start);
    assert_eq!(r.hear(planned(false)), goes_on(SliceNext::Convert { status: 2 }));
    r.hear(SliceEvent::Converted(true));
    assert_eq!(r.hear(SliceEvent::Submitted(false)), done(true, UnitEnd::Failed));
    assert_eq!(r.decoder.health.refused, 1);
    assert_eq!(r.stage, SliceStage::Idle);
}

#[test]
fn a_unit_with_a_substituted_reference_is_not_submitted() {
    let mut r = SliceRun::new();
    r.hear(SliceEvent::Start);
    r.hear(planned(true));
    r.hear(SliceEvent::Built(Some(5)));
    assert_eq!(r.hear(SliceEvent::Converted(true)), done(true, UnitEnd::Nothing));
    assert_eq!((r.decoder.health.damaged, r.decoder.health.refused), (1, 0));
    assert!(r.decoder.take_recovery_request());
}

#[test]
fn what_cannot_be_planned_built_or_converted_is_told_apart() {
    let mut r = SliceRun::new();
    let plan = |r: &mut SliceRun, answer: PlanAnswer| {
        r.hear(SliceEvent::Start);
        r.hear(SliceEvent::Planned {
            answer,
            damaged: false,
            shape: SHAPE,
        })
    };
    assert_eq!(plan(&mut r, PlanAnswer::RaslSkipped), done(false, UnitEnd::Nothing));
    assert!(!r.decoder.take_recovery_request());
    assert_eq!(plan(&mut r, PlanAnswer::AwaitingIdr), done(false, UnitEnd::Nothing));
    assert!(r.decoder.take_recovery_request());
    assert_eq!(plan(&mut r, PlanAnswer::Refused), done(false, UnitEnd::Failed));
    plan(&mut r, PlanAnswer::Planned);
    assert_eq!(r.hear(SliceEvent::Built(None)), done(false, UnitEnd::Failed));
    assert!(r.decoder.shape.is_none());
    plan(&mut r, PlanAnswer::Planned);
    r.hear(SliceEvent::Built(Some(2)));
    assert_eq!(r.hear(SliceEvent::Converted(false)), done(false, UnitEnd::Failed));
    assert_eq!(r.decoder.health.refused, 3);
}

#[test]
fn the_two_slice_codecs_submit_differently() {
    let p = SlicePicture {
        shape: SHAPE,
        colour: COLOUR,
        is_idr: true,
        is_irap: false,
        references_clean: true,
        crop_width: 1920,
        crop_height: 1080,
        mb_count: 8160,
        scaling_lists: false,
    };
    let h264 = submission(SliceCodec::H264, &p);
    assert!(h264.facts.keyframe && h264.qmatrix && h264.defers_release);
    assert_eq!((h264.mb_count, h264.facts.height), (8160, 1080));
    let hevc = submission(SliceCodec::H265, &p);
    assert!(!hevc.facts.keyframe && !hevc.qmatrix && !hevc.defers_release);
    assert_eq!(hevc.mb_count, 0);
    let lists = SlicePicture {
        scaling_lists: true,
        is_irap: true,
        ..p
    };
    let hevc = submission(SliceCodec::H265, &lists);
    assert!(hevc.facts.keyframe && hevc.qmatrix);
}

fn frame(slot: u8, refreshes: bool, show: bool) -> Av1Event {
    Av1Event::Converted(Some(Av1Frame {
        damaged: false,
        setup_slot: slot,
        refreshes,
        show,
        facts: FACTS,
    }))
}

fn begin(r: &mut Av1Run) {
    assert_eq!(r.hear(Av1Event::Start).next, Av1Next::Plan);
    assert_eq!(r.hear(Av1Event::Planned(true)).next, Av1Next::NextFrame);
}

fn fresh(damaged: bool) -> Av1Event {
    Av1Event::New {
        damaged,
        shape: SHAPE,
    }
}

#[test]
fn a_hidden_frame_is_decoded_and_shown_later() {
    let mut r = Av1Run::new();
    begin(&mut r);
    assert_eq!(r.hear(fresh(false)).next, Av1Next::Build(SHAPE));
    assert_eq!(r.hear(Av1Event::Built(Some(9))).next, Av1Next::Convert);
    assert_eq!(r.hear(frame(2, true, false)).next, Av1Next::Decode);
    let hidden = r.hear(Av1Event::Decoded(true));
    assert!(hidden.release && !hidden.release_own);
    assert_eq!(hidden.next, Av1Next::NextFrame);
    // A second frame of the same unit is shown and replaces no reference.
    assert_eq!(r.hear(fresh(false)).next, Av1Next::Convert);
    r.hear(frame(3, false, true));
    assert_eq!(
        r.hear(Av1Event::Decoded(true)).next,
        Av1Next::Present {
            slot: 3,
            facts: FACTS
        }
    );
    let over = r.hear(Av1Event::Presented(Some(SHOWN)));
    assert!(over.release && over.release_own);
    assert_eq!(r.hear(Av1Event::NoMore).next, Av1Next::Done(Some(SHOWN)));
    // The next unit shows the hidden picture, and one that is not there.
    begin(&mut r);
    let again = r.hear(Av1Event::Existing {
        damaged: false,
        slot: Some(2),
    });
    assert!(again.release_removed && !again.release);
    assert_eq!(
        again.next,
        Av1Next::Present {
            slot: 2,
            facts: FACTS
        }
    );
    assert_eq!(r.hear(Av1Event::Presented(Some(SHOWN))).next, Av1Next::NextFrame);
    let missing = r.hear(Av1Event::Existing {
        damaged: true,
        slot: Some(3),
    });
    assert_eq!(missing.next, Av1Next::NextFrame);
    assert_eq!(
        r.hear(Av1Event::NoMore).next,
        Av1Next::Done(None),
        "damage conceals the whole unit"
    );
    assert!(r.decoder.take_recovery_request());
}

#[test]
fn a_damaged_frame_is_converted_and_no_more() {
    let mut r = Av1Run::new();
    begin(&mut r);
    r.hear(fresh(true));
    r.hear(Av1Event::Built(Some(9)));
    let reply = r.hear(frame(1, true, true));
    assert!(reply.release);
    assert_eq!(reply.next, Av1Next::NextFrame);
    assert_eq!(r.decoder.show_existing(Some(1)), None);
    assert_eq!(r.hear(Av1Event::NoMore).next, Av1Next::Done(None));
    assert_eq!(r.decoder.health.damaged, 1);
}

#[test]
fn a_frame_that_fails_abandons_its_unit_and_keeps_no_surface() {
    let mut r = Av1Run::new();
    assert_eq!(r.hear(Av1Event::NoMore).next, Av1Next::Wait);
    begin(&mut r);
    r.hear(fresh(false));
    r.hear(Av1Event::Built(Some(9)));
    r.hear(frame(1, true, true));
    r.hear(Av1Event::Decoded(true));
    let failed = r.hear(Av1Event::Presented(None));
    assert!(failed.release);
    assert_eq!(failed.next, Av1Next::Failed);
    assert_eq!(r.stage, Av1Stage::Idle);
    assert_eq!(r.decoder.show_existing(Some(1)), None);
    begin(&mut r);
    r.hear(fresh(false));
    r.hear(frame(1, true, true));
    assert!(r.hear(Av1Event::Decoded(false)).release);
    begin(&mut r);
    r.hear(fresh(false));
    assert_eq!(r.hear(Av1Event::Converted(None)).next, Av1Next::Failed);
    r.hear(Av1Event::Start);
    assert_eq!(r.hear(Av1Event::Planned(false)).next, Av1Next::Failed);
    assert_eq!(r.decoder.health.refused, 4);
}
