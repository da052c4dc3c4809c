//! One access unit on the native D3D11VA rung, step by step: plan, session, conversion,
//! submission and hand-off, and which surfaces are given back on the way out.
//!
//! The application makes the calls into the planner and the driver and hands in how each went.

use vstd::prelude::*;
use crate::dxva::{
    held_after, Av1Frame, Av1Unit, NativeDecoder, NativeState, PictureFacts, PlanAnswer, PlanStep,
    StreamShape, UnitOutcome,
};
use crate::frame::ColorDesc;
use crate::handoff::D3d11Frame;

verus! {

/// Codecs whose pictures are made of slices.
#[derive(Debug, Clone, Copy, PartialEq, Eq, Structural)]
pub enum SliceCodec {
    H264,
    H265,
}

/// What planning says of a picture made of slices.
#[derive(Debug, Clone, Copy, PartialEq, Eq, Structural)]
pub struct SlicePicture {
    pub shape: StreamShape,
    pub colour: ColorDesc,
    /// It refreshes the decoder at once.
    pub is_idr: bool,
    /// It is a point to join at.
    pub is_irap: bool,
    pub references_clean: bool,
    /// The part that is shown.
    pub crop_width: u32,
    pub crop_height: u32,
    /// Its macroblocks.
    pub mb_count: u32,
    /// The stream carries scaling lists.
    pub scaling_lists: bool,
}

/// What is submitted for a picture made of slices.
#[derive(Debug, Clone, Copy, PartialEq, Eq, Structural)]
pub struct Submission {
    pub facts: PictureFacts,
    /// The matrices are submitted: always for H.264, and for HEVC where the stream has lists.
    pub qmatrix: bool,
    /// HEVC counts no macroblocks.
    pub mb_count: u32,
    /// Surfaces it still names are given back only after the decode: HEVC names none that its
    /// reference set dropped.
    pub defers_release: bool,
}

/// What is submitted for a picture made of slices.
pub open spec fn submitted(codec: SliceCodec, p: SlicePicture) -> Submission {
    let h264 = codec == SliceCodec::H264;
    Submission {
        facts: PictureFacts {
            colour: p.colour,
            keyframe: if h264 {
                p.is_idr
            } else {
                p.is_irap
            },
            references_clean: p.references_clean,
            width: p.crop_width,
            height: p.crop_height,
        },
        qmatrix: h264 || p.scaling_lists,
        mb_count: if h264 {
            p.mb_count
        } else {
            0
        },
        defers_release: h264,
    }
}

/// What is submitted for a picture made of slices.
pub fn submission(codec: SliceCodec, p: &SlicePicture) -> (s: Submission)
    ensures
        s == submitted(codec, *p),
        codec == SliceCodec::H264 ==> s.facts.keyframe == p.is_idr && s.qmatrix && s.mb_count
            == p.mb_count && s.defers_release,
        codec == SliceCodec::H265 ==> s.facts.keyframe == p.is_irap && s.qmatrix == p.scaling_lists
            && s.mb_count == 0 && !s.defers_release,
        s.facts.colour == p.colour,
        s.facts.references_clean == p.references_clean,
        s.facts.width == p.crop_width && s.facts.height == p.crop_height,
{
    let (keyframe, qmatrix, mb_count, defers_release): (bool, bool, u32, bool) = match codec {
        SliceCodec::H264 => (p.is_idr, true, p.mb_count, true),
        SliceCodec::H265 => (p.is_irap, p.scaling_lists, 0, false),
    };
    Submission {
        facts: PictureFacts {
            colour: p.colour,
            keyframe,
            references_clean: p.references_clean,
            width: p.crop_width,
            height: p.crop_height,
        },
        qmatrix,
        mb_count,
        defers_release,
    }
}

/// What a unit made of slices waits for.
#[derive(Debug, Clone, Copy, PartialEq, Eq, Structural)]
pub enum SliceStage {
    /// A unit.
    Idle,
    Plan,
    Build,
    Convert,
    Submit,
}

/// How a unit ended.
#[derive(Debug, Clone, Copy, PartialEq, Eq, Structural)]
pub enum UnitEnd {
    /// A picture is in the hand-off.
    Shown,
    /// No picture, no failure.
    Nothing,
    /// The decoder could not run.
    Failed,
}

/// Something a unit made of slices hears.
#[derive(Debug, Clone, Copy, PartialEq, Eq, Structural)]
pub enum SliceEvent {
    /// An access unit arrived.
    Start,
    /// It was planned. `damaged`: a reference was substituted.
    Planned { answer: PlanAnswer, damaged: bool, shape: StreamShape },
    /// A session was built over this many surfaces, or not.
    Built(Option<u32>),
    /// The plan was turned into what the driver takes, or not.
    Converted(bool),
    /// It was decoded and handed over, or not.
    Submitted(bool),
}

/// What a unit made of slices does next.
#[derive(Debug, Clone, Copy, PartialEq, Eq, Structural)]
pub enum SliceNext {
    Plan,
    Build(StreamShape),
    /// Convert the plan under this tag.
    Convert { status: u32 },
    Submit,
    Done(UnitEnd),
    /// Not what it waits for: nothing changes.
    Wait,
}

/// What follows an event: first the surfaces the unit held back are given back, where it says
/// so, then the next step.
#[derive(Debug, Clone, Copy, PartialEq, Eq, Structural)]
pub struct SliceReply {
    pub release: bool,
    pub next: SliceNext,
}

/// Units made of slices, as values.
#[verifier::ext_equal]
pub struct SliceState {
    pub decoder: NativeState,
    pub stage: SliceStage,
    pub damaged: bool,
    pub shape: Option<StreamShape>,
}

/// Units made of slices, one after the other.
#[derive(Debug)]
pub struct SliceRun {
    pub decoder: NativeDecoder,
    pub stage: SliceStage,
    /// The unit in hand has a substituted reference.
    pub damaged: bool,
    /// The shape of the unit in hand.
    pub shape: Option<StreamShape>,
}

impl View for SliceRun {
    type V = SliceState;

    open spec fn view(&self) -> SliceState {
        SliceState {
            decoder: self.decoder@,
            stage: self.stage,
            damaged: self.damaged,
            shape: self.shape,
        }
    }
}

impl NativeState {
    /// One refused unit more.
    pub open spec fn refused(self) -> NativeState {
        NativeState { health: self.health.noted(false, true, 0), ..self }
    }

    /// A settled picture.
    pub open spec fn settled(self, concealed: bool, submitted: bool) -> NativeState {
        NativeState {
            health: self.health.noted(concealed, !concealed && !submitted, 0),
            want_recovery: self.want_recovery || concealed,
            ..self
        }
    }

    /// The tag after this one.
    pub open spec fn next_tag(self) -> u32 {
        if self.status_id == u32::MAX {
            1
        } else {
            (self.status_id + 1) as u32
        }
    }

    /// Without a session.
    pub open spec fn without_session(self) -> NativeState {
        NativeState { shape: None, held: Seq::empty(), ..self }
    }

    /// With a fresh session.
    pub open spec fn with_session(self, shape: StreamShape, pool_size: u32) -> NativeState {
        NativeState {
            shape: Some(shape),
            held: Seq::new(pool_size as nat, |i: int| None::<PictureFacts>),
            ..self
        }
    }
}

impl SliceState {
    /// The unit ends.
    pub open spec fn ended(self, decoder: NativeState, release: bool, end: UnitEnd) -> (
        SliceState,
        SliceReply,
    ) {
        (
            SliceState { decoder, stage: SliceStage::Idle, ..self },
            SliceReply { release, next: SliceNext::Done(end) },
        )
    }

    /// The unit goes on.
    pub open spec fn goes_on(self, stage: SliceStage, next: SliceNext) -> (SliceState, SliceReply) {
        (SliceState { stage, ..self }, SliceReply { release: false, next })
    }

    /// The unit was planned. Nothing to feed is no failure; a stream that changed shape drops
    /// the old session before the new one is built.
    pub open spec fn planned(self, answer: PlanAnswer, damaged: bool, shape: StreamShape) -> (
        SliceState,
        SliceReply,
    ) {
        let idle = answer == PlanAnswer::AwaitingIdr || answer == PlanAnswer::NoActiveParamSet;
        match answer {
            PlanAnswer::Planned => {
                let s = SliceState { damaged, shape: Some(shape), ..self };
                if self.decoder.shape == Some(shape) {
                    s.goes_on(
                        SliceStage::Convert,
                        SliceNext::Convert { status: self.decoder.status_id },
                    )
                } else {
                    (SliceState { decoder: self.decoder.without_session(), ..s }).goes_on(
                        SliceStage::Build,
                        SliceNext::Build(shape),
                    )
                }
            },
            PlanAnswer::Refused => self.ended(self.decoder.refused(), false, UnitEnd::Failed),
            _ => self.ended(
                NativeState { want_recovery: self.decoder.want_recovery || idle, ..self.decoder },
                false,
                UnitEnd::Nothing,
            ),
        }
    }

    /// What an event comes to.
    pub open spec fn stepped(self, e: SliceEvent) -> (SliceState, SliceReply) {
        match (self.stage, e) {
            (SliceStage::Idle, SliceEvent::Start) => (SliceState {
                decoder: NativeState { status_id: self.decoder.next_tag(), ..self.decoder },
                ..self
            }).goes_on(SliceStage::Plan, SliceNext::Plan),
            (SliceStage::Plan, SliceEvent::Planned { answer, damaged, shape }) => self.planned(
                answer,
                damaged,
                shape,
            ),
            (SliceStage::Build, SliceEvent::Built(Some(pool_size))) => (SliceState {
                decoder: match self.shape {
                    Some(shape) => self.decoder.with_session(shape, pool_size),
                    None => self.decoder,
                },
                ..self
            }).goes_on(
                SliceStage::Convert,
                SliceNext::Convert { status: self.decoder.status_id },
            ),
            (SliceStage::Build, SliceEvent::Built(None)) => self.ended(
                self.decoder.refused(),
                false,
                UnitEnd::Failed,
            ),
            (SliceStage::Convert, SliceEvent::Converted(true)) => if self.damaged {
                self.ended(self.decoder.settled(true, false), true, UnitEnd::Nothing)
            } else {
                self.goes_on(SliceStage::Submit, SliceNext::Submit)
            },
            (SliceStage::Convert, SliceEvent::Converted(false)) => self.ended(
                self.decoder.refused(),
                false,
                UnitEnd::Failed,
            ),
            (SliceStage::Submit, SliceEvent::Submitted(ok)) => self.ended(
                self.decoder.settled(false, ok),
                true,
                if ok {
                    UnitEnd::Shown
                } else {
                    UnitEnd::Failed
                },
            ),
            _ => (self, SliceReply { release: false, next: SliceNext::Wait }),
        }
    }
}

impl SliceRun {
    /// A decoder before its first unit.
    pub fn new() -> (r: SliceRun)
        ensures
            r.stage == SliceStage::Idle,
            r.decoder.status_id == 0,
            r.decoder.health == crate::dxva::unasked(),
            !r.decoder.want_recovery,
            r.decoder.shape is None,
            r.decoder.held@.len() == 0,
            !r.damaged,
            r.shape is None,
    {
        SliceRun {
            decoder: NativeDecoder::new(),
            stage: SliceStage::Idle,
            damaged: false,
            shape: None,
        }
    }

    fn done(&mut self, release: bool, end: UnitEnd) -> (r: SliceReply)
        ensures
            (final(self)@, r) == old(self)@.ended(old(self)@.decoder, release, end),
    {
        self.stage = SliceStage::Idle;
        SliceReply { release, next: SliceNext::Done(end) }
    }

    fn on_planned(&mut self, answer: PlanAnswer, damaged: bool, shape: StreamShape) -> (r: SliceReply)
        ensures
            (final(self)@, r) == old(self)@.planned(answer, damaged, shape),
    {
        match self.decoder.on_plan(answer) {
            PlanStep::Idle => self.done(false, UnitEnd::Nothing),
            PlanStep::Fail => self.done(false, UnitEnd::Failed),
            PlanStep::Go => {
                self.damaged = damaged;
                self.shape = Some(shape);
                if self.decoder.ensure_session(shape) {
                    self.stage = SliceStage::Build;
                    SliceReply { release: false, next: SliceNext::Build(shape) }
                } else {
                    self.stage = SliceStage::Convert;
                    SliceReply {
                        release: false,
                        next: SliceNext::Convert { status: self.decoder.status_id },
                    }
                }
            },
        }
    }

    /// A unit hears something: what is given back, and what is next.
    pub fn hear(&mut self, e: SliceEvent) -> (r: SliceReply)
        ensures
            (final(self)@, r) == old(self)@.stepped(e),
    {
        match (self.stage, e) {
            (SliceStage::Idle, SliceEvent::Start) => {
                self.decoder.next_status();
                self.stage = SliceStage::Plan;
                SliceReply { release: false, next: SliceNext::Plan }
            },
            (SliceStage::Plan, SliceEvent::Planned { answer, damaged, shape }) => self.on_planned(
                answer,
                damaged,
                shape,
            ),
            (SliceStage::Build, SliceEvent::Built(Some(pool_size))) => {
                match self.shape {
                    Some(shape) => {
                        self.decoder.session_built(shape, pool_size);
                    },
                    None => {},
                }
                self.stage = SliceStage::Convert;
                SliceReply {
                    release: false,
                    next: SliceNext::Convert { status: self.decoder.status_id },
                }
            },
            (SliceStage::Build, SliceEvent::Built(None)) => {
                self.decoder.unit_failed();
                self.done(false, UnitEnd::Failed)
            },
            (SliceStage::Convert, SliceEvent::Converted(true)) => {
                if self.damaged {
                    self.decoder.settle(true, false);
                    return self.done(true, UnitEnd::Nothing);
                }
                self.stage = SliceStage::Submit;
                SliceReply { release: false, next: SliceNext::Submit }
            },
            (SliceStage::Convert, SliceEvent::Converted(false)) => {
                self.decoder.unit_failed();
                self.done(false, UnitEnd::Failed)
            },
            (SliceStage::Submit, SliceEvent::Submitted(ok)) => {
                match self.decoder.settle(false, ok) {
                    UnitOutcome::Shown => self.done(true, UnitEnd::Shown),
                    _ => self.done(true, UnitEnd::Failed),
                }
            },
            _ => SliceReply { release: false, next: SliceNext::Wait },
        }
    }
}

/// A unit that was converted gives back the surfaces it held exactly when it ends, whether it
/// was shown, concealed or failed; one that was not converted has none to give back.
pub proof fn a_converted_unit_gives_its_surfaces_back(s: SliceState, e: SliceEvent)
    ensures
        ({
            let (t, r) = s.stepped(e);
            let converted = s.stage == SliceStage::Submit || (s.stage == SliceStage::Convert && e
                == SliceEvent::Converted(true));
            r.release == (converted && r.next is Done)
        }),
{
}

impl SliceState {
    /// The unit in hand and the session agree: nothing is converted or submitted but in a
    /// session of the unit's own shape, and while one is built there is none.
    pub open spec fn in_step(self) -> bool {
        match self.stage {
            SliceStage::Build => self.shape is Some && self.decoder.shape is None,
            SliceStage::Convert => self.shape is Some && self.decoder.shape == self.shape,
            SliceStage::Submit => self.shape is Some && self.decoder.shape == self.shape,
            _ => true,
        }
    }
}

/// Whatever a unit hears, it is converted and submitted only in a session of its own shape, and
/// what was planned stays the unit in hand until it ends.
pub proof fn a_unit_meets_only_its_own_session(s: SliceState, e: SliceEvent)
    requires
        s.in_step(),
    ensures
        ({
            let (t, r) = s.stepped(e);
            &&& t.in_step()
            &&& r.next is Convert || r.next is Submit ==> t.shape is Some && t.decoder.shape
                == t.shape
            &&& r.next matches SliceNext::Build(shape) ==> t.shape == Some(shape)
                && t.decoder.shape is None && t.decoder.held.len() == 0
            &&& s.stage == SliceStage::Build || s.stage == SliceStage::Convert || s.stage
                == SliceStage::Submit ==> t.shape == s.shape && t.damaged == s.damaged
        }),
{
}

/// A planned unit is taken up as it was planned. Where the running session has another shape, or
/// there is none, that session goes and one of the unit's shape is built; where it has the
/// unit's, it stays as it is and the unit is converted under the tag of its start.
pub proof fn a_moved_stream_is_rebuilt(s: SliceState, damaged: bool, shape: StreamShape)
    requires
        s.stage == SliceStage::Plan,
    ensures
        ({
            let e = SliceEvent::Planned { answer: PlanAnswer::Planned, damaged, shape };
            let (t, r) = s.stepped(e);
            &&& t.shape == Some(shape) && t.damaged == damaged && !r.release
            &&& s.decoder.shape != Some(shape) ==> r.next == SliceNext::Build(shape) && t.stage
                == SliceStage::Build && t.decoder.shape is None && t.decoder.held.len() == 0
            &&& s.decoder.shape == Some(shape) ==> r.next == SliceNext::Convert {
                status: s.decoder.status_id,
            } && t.stage == SliceStage::Convert && t.decoder == s.decoder
            &&& t.decoder.health == s.decoder.health && t.decoder.want_recovery
                == s.decoder.want_recovery && t.decoder.status_id == s.decoder.status_id
        }),
{
}

/// A unit that was not planned ends at once. A decoder that joined in the middle idles and asks
/// for a keyframe, a skipped leading picture asks for nothing, and only a refusal is a failure
/// that is counted.
pub proof fn nothing_to_feed_is_no_failure(
    s: SliceState,
    answer: PlanAnswer,
    damaged: bool,
    shape: StreamShape,
)
    requires
        s.stage == SliceStage::Plan,
        answer != PlanAnswer::Planned,
    ensures
        ({
            let (t, r) = s.stepped(SliceEvent::Planned { answer, damaged, shape });
            &&& t.stage == SliceStage::Idle && !r.release
            &&& t.decoder.shape == s.decoder.shape && t.decoder.held == s.decoder.held
            &&& answer == PlanAnswer::Refused ==> r.next == SliceNext::Done(UnitEnd::Failed)
                && t.decoder.want_recovery == s.decoder.want_recovery && (s.decoder.health.refused
                < u64::MAX ==> t.decoder.health.refused == s.decoder.health.refused + 1)
                && t.decoder.health.damaged == s.decoder.health.damaged
            &&& answer != PlanAnswer::Refused ==> r.next == SliceNext::Done(UnitEnd::Nothing)
                && t.decoder.health == s.decoder.health
            &&& answer == PlanAnswer::AwaitingIdr || answer == PlanAnswer::NoActiveParamSet
                ==> t.decoder.want_recovery
            &&& answer == PlanAnswer::RaslSkipped ==> t.decoder.want_recovery
                == s.decoder.want_recovery
        }),
{
}

/// A unit starts under a tag of its own that is never zero; a built session holds nothing on any
/// of its surfaces; what follows each step is the next one, and every failure of the driver ends
/// the unit as refused.
pub proof fn a_unit_goes_step_by_step(s: SliceState, pool_size: u32)
    requires
        s.in_step(),
    ensures
        s.stage == SliceStage::Idle ==> {
            let (t, r) = s.stepped(SliceEvent::Start);
            &&& r.next == SliceNext::Plan && t.stage == SliceStage::Plan && !r.release
            &&& t.decoder.status_id != s.decoder.status_id && t.decoder.status_id != 0
            &&& s.decoder.status_id < u32::MAX ==> t.decoder.status_id == s.decoder.status_id + 1
            &&& t.decoder.shape == s.decoder.shape && t.decoder.held == s.decoder.held
                && t.decoder.health == s.decoder.health && t.decoder.want_recovery
                == s.decoder.want_recovery
        },
        s.stage == SliceStage::Build ==> {
            let (t, r) = s.stepped(SliceEvent::Built(Some(pool_size)));
            &&& r.next == SliceNext::Convert { status: s.decoder.status_id } && t.stage
                == SliceStage::Convert
            &&& t.decoder.shape == s.shape && t.decoder.held.len() == pool_size
            &&& forall|i: int|
                0 <= i < pool_size ==> (#[trigger] t.decoder.held[i]) is None
            &&& t.decoder.health == s.decoder.health && t.decoder.status_id == s.decoder.status_id
        },
        s.stage == SliceStage::Build ==> {
            let (t, r) = s.stepped(SliceEvent::Built(None));
            &&& r.next == SliceNext::Done(UnitEnd::Failed) && t.stage == SliceStage::Idle
            &&& t.decoder.shape is None
            &&& s.decoder.health.refused < u64::MAX ==> t.decoder.health.refused
                == s.decoder.health.refused + 1
        },
        s.stage == SliceStage::Convert ==> {
            let (t, r) = s.stepped(SliceEvent::Converted(false));
            &&& r.next == SliceNext::Done(UnitEnd::Failed) && t.stage == SliceStage::Idle
            &&& s.decoder.health.refused < u64::MAX ==> t.decoder.health.refused
                == s.decoder.health.refused + 1
        },
        s.stage == SliceStage::Convert ==> {
            let (t, r) = s.stepped(SliceEvent::Converted(true));
            &&& !s.damaged ==> r.next == SliceNext::Submit && t.stage == SliceStage::Submit
                && t.decoder == s.decoder
            &&& s.damaged ==> t.stage == SliceStage::Idle && (s.decoder.health.damaged < u64::MAX
                ==> t.decoder.health.damaged == s.decoder.health.damaged + 1)
        },
        s.stage == SliceStage::Submit ==> {
            let (t, r) = s.stepped(SliceEvent::Submitted(true));
            &&& r.next == SliceNext::Done(UnitEnd::Shown) && r.release && t.stage
                == SliceStage::Idle
            &&& t.decoder.health.run == 0 && t.decoder.health.refused == s.decoder.health.refused
                && t.decoder.health.damaged == s.decoder.health.damaged
            &&& t.decoder.want_recovery == s.decoder.want_recovery && t.decoder.shape
                == s.decoder.shape
        },
        s.stage == SliceStage::Submit ==> {
            let (t, r) = s.stepped(SliceEvent::Submitted(false));
            &&& r.next == SliceNext::Done(UnitEnd::Failed) && r.release && t.stage
                == SliceStage::Idle
            &&& s.decoder.health.refused < u64::MAX ==> t.decoder.health.refused
                == s.decoder.health.refused + 1
            &&& t.decoder.want_recovery == s.decoder.want_recovery
        },
{
}

/// Whatever a unit hears, its end is counted once and as what it was: a failure as refused, a
/// substituted reference as damaged, a picture shown as clean. Until then nothing is counted, a
/// tag changes only at a start, and what is not waited for changes nothing.
pub proof fn an_end_is_counted_once(s: SliceState, e: SliceEvent)
    ensures
        ({
            let (t, r) = s.stepped(e);
            let was = s.decoder;
            let now = t.decoder;
            let awaited = match s.stage {
                SliceStage::Idle => e is Start,
                SliceStage::Plan => e is Planned,
                SliceStage::Build => e is Built,
                SliceStage::Convert => e is Converted,
                SliceStage::Submit => e is Submitted,
            };
            &&& !awaited <==> r.next is Wait
            &&& !awaited ==> t == s && !r.release
            &&& r.next == SliceNext::Done(UnitEnd::Failed) ==> now.health == was.health.noted(
                false,
                true,
                0,
            ) && now.want_recovery == was.want_recovery
            &&& r.next == SliceNext::Done(UnitEnd::Shown) ==> now.health == was.health.noted(
                false,
                false,
                0,
            ) && now.want_recovery == was.want_recovery && s.stage == SliceStage::Submit
            &&& r.next == SliceNext::Done(UnitEnd::Nothing) && s.stage == SliceStage::Convert
                ==> now.health == was.health.noted(true, false, 0) && now.want_recovery
            &&& !(r.next is Done) ==> now.health == was.health && now.want_recovery
                == was.want_recovery
            &&& r.next is Done ==> t.stage == SliceStage::Idle
            &&& s.stage != SliceStage::Idle ==> now.status_id == was.status_id
        }),
{
}

/// A unit with a substituted reference is never submitted and never shown, and asks for a
/// keyframe instead.
pub proof fn a_damaged_unit_is_never_submitted(s: SliceState)
    requires
        s.stage == SliceStage::Convert,
        s.damaged,
    ensures
        ({
            let (t, r) = s.stepped(SliceEvent::Converted(true));
            &&& r.next == SliceNext::Done(UnitEnd::Nothing)
            &&& t.decoder.want_recovery
            &&& t.decoder.health.refused == s.decoder.health.refused
        }),
{
}

/// What an AV1 unit waits for.
#[derive(Debug, Clone, Copy, PartialEq, Eq, Structural)]
pub enum Av1Stage {
    /// A unit.
    Idle,
    Plan,
    /// The unit's next frame, or its end.
    Frame,
    Build,
    Convert,
    Decode,
    Present,
}

/// Something an AV1 unit hears.
#[derive(Debug, Clone, Copy, PartialEq, Eq, Structural)]
pub enum Av1Event {
    /// A temporal unit arrived.
    Start,
    /// It was planned, or not.
    Planned(bool),
    /// A frame that shows a picture decoded earlier, by the surface that should hold it.
    Existing { damaged: bool, slot: Option<u8> },
    /// A frame to decode.
    New { damaged: bool, shape: StreamShape },
    /// No frame is left.
    NoMore,
    /// A session was built over this many surfaces, or not.
    Built(Option<u32>),
    /// The frame was turned into what the driver takes, or not.
    Converted(Option<Av1Frame>),
    /// It was decoded, or not.
    Decoded(bool),
    /// The picture was handed over, or not.
    Presented(Option<D3d11Frame>),
}

/// What an AV1 unit does next.
#[derive(Debug, Clone, Copy, PartialEq, Eq, Structural)]
pub enum Av1Next {
    Plan,
    NextFrame,
    Build(StreamShape),
    Convert,
    Decode,
    Present { slot: u8, facts: PictureFacts },
    /// The unit is over, with the picture it shows.
    Done(Option<D3d11Frame>),
    Failed,
    /// Not what it waits for: nothing changes.
    Wait,
}

/// What follows an event: first the surfaces that are given back, then the next step.
#[derive(Debug, Clone, Copy, PartialEq, Eq, Structural)]
pub struct Av1Reply {
    /// Those the frame's refresh displaced.
    pub release: bool,
    /// The frame's own, which no reference names.
    pub release_own: bool,
    /// Those that showing a picture again removed.
    pub release_removed: bool,
    pub next: Av1Next,
}

/// AV1 units, as values.
#[verifier::ext_equal]
pub struct Av1State {
    pub decoder: NativeState,
    pub stage: Av1Stage,
    pub unit: Av1Unit,
    pub damaged: bool,
    pub shape: Option<StreamShape>,
    pub frame: Option<Av1Frame>,
}

/// AV1 units, one after the other.
#[derive(Debug)]
pub struct Av1Run {
    pub decoder: NativeDecoder,
    pub stage: Av1Stage,
    pub unit: Av1Unit,
    /// The frame in hand lacks a reference.
    pub damaged: bool,
    /// The shape of the frame in hand.
    pub shape: Option<StreamShape>,
    /// The frame in hand, once it is converted; `None` for one that shows an earlier picture.
    pub frame: Option<Av1Frame>,
}

impl View for Av1Run {
    type V = Av1State;

    open spec fn view(&self) -> Av1State {
        Av1State {
            decoder: self.decoder@,
            stage: self.stage,
            unit: self.unit,
            damaged: self.damaged,
            shape: self.shape,
            frame: self.frame,
        }
    }
}

/// A reply that gives nothing back.
pub open spec fn plain(next: Av1Next) -> Av1Reply {
    Av1Reply { release: false, release_own: false, release_removed: false, next }
}

impl Av1State {
    /// The next frame is due.
    pub open spec fn frame_over(self, shown: Option<D3d11Frame>) -> Av1State {
        Av1State {
            stage: Av1Stage::Frame,
            frame: None,
            unit: self.unit.after(false, shown),
            ..self
        }
    }

    /// The unit fails, and the frames behind are abandoned.
    pub open spec fn fails(self) -> Av1State {
        Av1State { stage: Av1Stage::Idle, frame: None, decoder: self.decoder.refused(), ..self }
    }

    /// A converted frame is done with: its surfaces are given back on every way out, and a
    /// failure ends the unit.
    pub open spec fn finished(self, f: Av1Frame, failed: bool, shown: Option<D3d11Frame>) -> (
        Av1State,
        Av1Reply,
    ) {
        let kept = Av1State {
            decoder: NativeState {
                held: held_after(self.decoder.held, f, failed),
                ..self.decoder
            },
            ..self
        };
        (
            if failed {
                kept.fails()
            } else {
                kept.frame_over(shown)
            },
            Av1Reply {
                release: true,
                release_own: !f.refreshes,
                release_removed: false,
                next: if failed {
                    Av1Next::Failed
                } else {
                    Av1Next::NextFrame
                },
            },
        )
    }

    /// A frame that shows an earlier picture. A surface nothing was decoded into shows nothing.
    pub open spec fn existing(self, damaged: bool, slot: Option<u8>) -> (Av1State, Av1Reply) {
        let s = Av1State {
            unit: self.unit.after(damaged, None),
            damaged,
            frame: None,
            ..self
        };
        let held = if slot is Some && slot->Some_0 < self.decoder.held.len() {
            self.decoder.held[slot->Some_0 as int]
        } else {
            None
        };
        match held {
            Some(facts) => (
                Av1State { stage: Av1Stage::Present, ..s },
                Av1Reply {
                    release_removed: true,
                    ..plain(Av1Next::Present { slot: slot->Some_0, facts })
                },
            ),
            None => (
                s.frame_over(None),
                Av1Reply { release_removed: true, ..plain(Av1Next::NextFrame) },
            ),
        }
    }

    /// A frame to decode.
    pub open spec fn fresh(self, damaged: bool, shape: StreamShape) -> (Av1State, Av1Reply) {
        let s = Av1State {
            unit: self.unit.after(damaged, None),
            damaged,
            shape: Some(shape),
            ..self
        };
        if self.decoder.shape == Some(shape) {
            (Av1State { stage: Av1Stage::Convert, ..s }, plain(Av1Next::Convert))
        } else {
            (
                Av1State {
                    stage: Av1Stage::Build,
                    decoder: self.decoder.without_session(),
                    ..s
                },
                plain(Av1Next::Build(shape)),
            )
        }
    }

    /// The unit is over. Damage to any of its frames conceals all of it.
    pub open spec fn over(self) -> (Av1State, Av1Reply) {
        (
            Av1State {
                stage: Av1Stage::Idle,
                decoder: NativeState {
                    health: self.decoder.health.noted(self.unit.concealed, false, 0),
                    want_recovery: self.decoder.want_recovery || self.unit.concealed,
                    ..self.decoder
                },
                ..self
            },
            plain(
                Av1Next::Done(
                    if self.unit.concealed {
                        None
                    } else {
                        self.unit.shown
                    },
                ),
            ),
        )
    }

    /// What an event comes to.
    pub open spec fn stepped(self, e: Av1Event) -> (Av1State, Av1Reply) {
        match (self.stage, e) {
            (Av1Stage::Idle, Av1Event::Start) => (
                Av1State { stage: Av1Stage::Plan, ..self },
                plain(Av1Next::Plan),
            ),
            (Av1Stage::Plan, Av1Event::Planned(ok)) => if ok {
                (
                    Av1State {
                        stage: Av1Stage::Frame,
                        unit: Av1Unit { concealed: false, shown: None },
                        ..self
                    },
                    plain(Av1Next::NextFrame),
                )
            } else {
                (self.fails(), plain(Av1Next::Failed))
            },
            (Av1Stage::Frame, Av1Event::Existing { damaged, slot }) => self.existing(damaged, slot),
            (Av1Stage::Frame, Av1Event::New { damaged, shape }) => self.fresh(damaged, shape),
            (Av1Stage::Frame, Av1Event::NoMore) => self.over(),
            (Av1Stage::Build, Av1Event::Built(Some(pool_size))) => (
                Av1State {
                    stage: Av1Stage::Convert,
                    decoder: match self.shape {
                        Some(shape) => self.decoder.with_session(shape, pool_size),
                        None => self.decoder,
                    },
                    ..self
                },
                plain(Av1Next::Convert),
            ),
            (Av1Stage::Build, Av1Event::Built(None)) => (self.fails(), plain(Av1Next::Failed)),
            (Av1Stage::Convert, Av1Event::Converted(None)) => (
                self.fails(),
                plain(Av1Next::Failed),
            ),
            (Av1Stage::Convert, Av1Event::Converted(Some(frame))) => {
                let f = Av1Frame { damaged: self.damaged, ..frame };
                if self.damaged {
                    self.finished(f, false, None)
                } else {
                    (
                        Av1State { stage: Av1Stage::Decode, frame: Some(f), ..self },
                        plain(Av1Next::Decode),
                    )
                }
            },
            (Av1Stage::Decode, Av1Event::Decoded(ok)) => match self.frame {
                Some(f) => if !ok {
                    self.finished(f, true, None)
                } else if f.show {
                    (
                        Av1State { stage: Av1Stage::Present, ..self },
                        plain(Av1Next::Present { slot: f.setup_slot, facts: f.facts }),
                    )
                } else {
                    self.finished(f, false, None)
                },
                None => (self, plain(Av1Next::Wait)),
            },
            (Av1Stage::Present, Av1Event::Presented(shown)) => match self.frame {
                Some(f) => self.finished(f, shown is None, shown),
                None => if shown is None {
                    (self.fails(), plain(Av1Next::Failed))
                } else {
                    (self.frame_over(shown), plain(Av1Next::NextFrame))
                },
            },
            _ => (self, plain(Av1Next::Wait)),
        }
    }
}

impl Av1Run {
    /// A decoder before its first unit.
    pub fn new() -> (r: Av1Run)
        ensures
            r.stage == Av1Stage::Idle,
            r.decoder.status_id == 0,
            r.decoder.health == crate::dxva::unasked(),
            !r.decoder.want_recovery,
            r.decoder.shape is None,
            r.decoder.held@.len() == 0,
            !r.unit.concealed,
            r.unit.shown is None,
            !r.damaged,
            r.shape is None,
            r.frame is None,
    {
        Av1Run {
            decoder: NativeDecoder::new(),
            stage: Av1Stage::Idle,
            unit: Av1Unit::new(),
            damaged: false,
            shape: None,
            frame: None,
        }
    }

    fn reply(next: Av1Next) -> (r: Av1Reply)
        ensures
            r == plain(next),
    {
        Av1Reply { release: false, release_own: false, release_removed: false, next }
    }

    fn note_frame(&mut self, damaged: bool, shown: Option<D3d11Frame>)
        ensures
            final(self)@ == (Av1State {
                unit: old(self)@.unit.after(damaged, shown),
                ..old(self)@
            }),
    {
        let mut unit: Av1Unit = self.unit;
        unit.on_frame(damaged, shown);
        self.unit = unit;
    }

    fn fail(&mut self)
        ensures
            final(self)@ == old(self)@.fails(),
    {
        self.decoder.unit_failed();
        self.frame = None;
        self.stage = Av1Stage::Idle;
    }

    fn finish(&mut self, f: Av1Frame, failed: bool, shown: Option<D3d11Frame>) -> (r: Av1Reply)
        ensures
            (final(self)@, r) == old(self)@.finished(f, failed, shown),
    {
        let release_own: bool = self.decoder.av1_done(&f, failed);
        if failed {
            self.fail();
        } else {
            self.note_frame(false, shown);
            self.frame = None;
            self.stage = Av1Stage::Frame;
        }
        Av1Reply {
            release: true,
            release_own,
            release_removed: false,
            next: if failed {
                Av1Next::Failed
            } else {
                Av1Next::NextFrame
            },
        }
    }

    fn on_existing(&mut self, damaged: bool, slot: Option<u8>) -> (r: Av1Reply)
        ensures
            (final(self)@, r) == old(self)@.existing(damaged, slot),
    {
        self.note_frame(damaged, None);
        self.damaged = damaged;
        self.frame = None;
        let next: Av1Next = match self.decoder.show_existing(slot) {
            Some((slot, facts)) => {
                self.stage = Av1Stage::Present;
                Av1Next::Present { slot, facts }
            },
            None => {
                self.stage = Av1Stage::Frame;
                Av1Next::NextFrame
            },
        };
        Av1Reply { release: false, release_own: false, release_removed: true, next }
    }

    fn on_new(&mut self, damaged: bool, shape: StreamShape) -> (r: Av1Reply)
        ensures
            (final(self)@, r) == old(self)@.fresh(damaged, shape),
    {
        self.note_frame(damaged, None);
        self.damaged = damaged;
        self.shape = Some(shape);
        if self.decoder.ensure_session(shape) {
            self.stage = Av1Stage::Build;
            Self::reply(Av1Next::Build(shape))
        } else {
            self.stage = Av1Stage::Convert;
            Self::reply(Av1Next::Convert)
        }
    }

    fn on_converted(&mut self, frame: Av1Frame) -> (r: Av1Reply)
        requires
            old(self).stage == Av1Stage::Convert,
        ensures
            (final(self)@, r) == old(self)@.stepped(Av1Event::Converted(Some(frame))),
    {
        let f = Av1Frame {
            damaged: self.damaged,
            setup_slot: frame.setup_slot,
            refreshes: frame.refreshes,
            show: frame.show,
            facts: frame.facts,
        };
        if self.damaged {
            return self.finish(f, false, None);
        }
        self.frame = Some(f);
        self.stage = Av1Stage::Decode;
        Self::reply(Av1Next::Decode)
    }

    fn on_decoded(&mut self, ok: bool) -> (r: Av1Reply)
        requires
            old(self).stage == Av1Stage::Decode,
        ensures
            (final(self)@, r) == old(self)@.stepped(Av1Event::Decoded(ok)),
    {
        match self.frame {
            Some(f) => {
                if !ok {
                    return self.finish(f, true, None);
                }
                if !f.show {
                    return self.finish(f, false, None);
                }
                self.stage = Av1Stage::Present;
                Self::reply(Av1Next::Present { slot: f.setup_slot, facts: f.facts })
            },
            None => Self::reply(Av1Next::Wait),
        }
    }

    fn on_presented(&mut self, shown: Option<D3d11Frame>) -> (r: Av1Reply)
        requires
            old(self).stage == Av1Stage::Present,
        ensures
            (final(self)@, r) == old(self)@.stepped(Av1Event::Presented(shown)),
    {
        match self.frame {
            Some(f) => self.finish(f, shown.is_none(), shown),
            None => {
                if shown.is_none() {
                    self.fail();
                    return Self::reply(Av1Next::Failed);
                }
                self.note_frame(false, shown);
                self.stage = Av1Stage::Frame;
                Self::reply(Av1Next::NextFrame)
            },
        }
    }

    /// A unit hears something: what is given back, and what is next.
    pub fn hear(&mut self, e: Av1Event) -> (r: Av1Reply)
        ensures
            (final(self)@, r) == old(self)@.stepped(e),
    {
        match (self.stage, e) {
            (Av1Stage::Idle, Av1Event::Start) => {
                self.stage = Av1Stage::Plan;
                Self::reply(Av1Next::Plan)
            },
            (Av1Stage::Plan, Av1Event::Planned(ok)) => {
                if !ok {
                    self.fail();
                    return Self::reply(Av1Next::Failed);
                }
                self.unit = Av1Unit::new();
                self.stage = Av1Stage::Frame;
                Self::reply(Av1Next::NextFrame)
            },
            (Av1Stage::Frame, Av1Event::Existing { damaged, slot }) => self.on_existing(
                damaged,
                slot,
            ),
            (Av1Stage::Frame, Av1Event::New { damaged, shape }) => self.on_new(damaged, shape),
            (Av1Stage::Frame, Av1Event::NoMore) => {
                let unit: Av1Unit = self.unit;
                let shown: Option<D3d11Frame> = self.decoder.unit_done(&unit);
                self.stage = Av1Stage::Idle;
                Self::reply(Av1Next::Done(shown))
            },
            (Av1Stage::Build, Av1Event::Built(Some(pool_size))) => {
                match self.shape {
                    Some(shape) => {
                        self.decoder.session_built(shape, pool_size);
                    },
                    None => {},
                }
                self.stage = Av1Stage::Convert;
                Self::reply(Av1Next::Convert)
            },
            (Av1Stage::Build, Av1Event::Built(None)) => {
                self.fail();
                Self::reply(Av1Next::Failed)
            },
            (Av1Stage::Convert, Av1Event::Converted(None)) => {
                self.fail();
                Self::reply(Av1Next::Failed)
            },
            (Av1Stage::Convert, Av1Event::Converted(Some(frame))) => self.on_converted(frame),
            (Av1Stage::Decode, Av1Event::Decoded(ok)) => self.on_decoded(ok),
            (Av1Stage::Present, Av1Event::Presented(shown)) => self.on_presented(shown),
            _ => Self::reply(Av1Next::Wait),
        }
    }
}

impl Av1State {
    /// A frame is in hand exactly while it is decoded or handed over.
    pub open spec fn wf(self) -> bool {
        &&& self.stage == Av1Stage::Decode ==> self.frame is Some
        &&& self.stage != Av1Stage::Decode && self.stage != Av1Stage::Present ==> self.frame is None
        &&& self.frame matches Some(f) ==> !f.damaged && (self.stage == Av1Stage::Present ==> f.show)
    }
}

/// A converted frame gives back the surfaces it displaced exactly when it is done with, whether
/// it was decoded, damaged or failed, and its own with them where no reference names it.
pub proof fn a_converted_frame_gives_its_surfaces_back(s: Av1State, e: Av1Event)
    requires
        s.wf(),
    ensures
        ({
            let (t, r) = s.stepped(e);
            let converted = s.frame is Some || (s.stage == Av1Stage::Convert && e is Converted
                && e->Converted_0 is Some);
            &&& t.wf()
            &&& r.release == (converted && (r.next == Av1Next::NextFrame || r.next
                == Av1Next::Failed))
            &&& r.release_own ==> r.release
        }),
{
}

impl Av1State {
    /// The frame in hand and the session agree: nothing is converted, decoded or handed over as
    /// new but in a session of the frame's own shape.
    pub open spec fn in_step(self) -> bool {
        &&& self.stage == Av1Stage::Build ==> self.shape is Some && self.decoder.shape is None
        &&& self.stage == Av1Stage::Convert || self.stage == Av1Stage::Decode || (self.stage
            == Av1Stage::Present && self.frame is Some) ==> self.shape is Some
            && self.decoder.shape == self.shape
    }
}

/// Whatever an AV1 unit hears, a new frame is converted, decoded and handed over only in a
/// session of its own shape.
pub proof fn a_frame_meets_only_its_own_session(s: Av1State, e: Av1Event)
    requires
        s.wf(),
        s.in_step(),
    ensures
        ({
            let (t, r) = s.stepped(e);
            &&& t.in_step()
            &&& r.next == Av1Next::Convert || r.next == Av1Next::Decode ==> t.shape is Some
                && t.decoder.shape == t.shape
            &&& r.next matches Av1Next::Build(shape) ==> t.shape == Some(shape)
                && t.decoder.shape is None && t.decoder.held.len() == 0
        }),
{
}

/// A new frame is taken up as it was planned: in the running session where that has its shape,
/// and otherwise after a session of its shape is built.
pub proof fn a_moved_sequence_is_rebuilt(s: Av1State, damaged: bool, shape: StreamShape)
    requires
        s.stage == Av1Stage::Frame,
    ensures
        ({
            let (t, r) = s.stepped(Av1Event::New { damaged, shape });
            &&& t.shape == Some(shape) && t.damaged == damaged
            &&& t.unit.concealed == (s.unit.concealed || damaged) && t.unit.shown == s.unit.shown
            &&& s.decoder.shape != Some(shape) ==> r == plain(Av1Next::Build(shape)) && t.stage
                == Av1Stage::Build && t.decoder.shape is None && t.decoder.held.len() == 0
            &&& s.decoder.shape == Some(shape) ==> r == plain(Av1Next::Convert) && t.stage
                == Av1Stage::Convert && t.decoder == s.decoder
        }),
{
}

/// The steps of a unit: it starts without a picture, a frame that can be decoded is, one that
/// shows is handed over from its own surface and the latest handed over is the unit's, a hidden
/// one is kept for later, and a frame's end leads to the next.
pub proof fn an_av1_unit_goes_step_by_step(
    s: Av1State,
    frame: Av1Frame,
    shown: D3d11Frame,
    pool_size: u32,
)
    requires
        s.wf(),
        s.in_step(),
    ensures
        s.stage == Av1Stage::Idle ==> s.stepped(Av1Event::Start).1 == plain(Av1Next::Plan)
            && s.stepped(Av1Event::Start).0.stage == Av1Stage::Plan && s.stepped(
            Av1Event::Start,
        ).0.decoder == s.decoder,
        s.stage == Av1Stage::Plan ==> {
            let (t, r) = s.stepped(Av1Event::Planned(true));
            &&& r == plain(Av1Next::NextFrame) && t.stage == Av1Stage::Frame
            &&& !t.unit.concealed && t.unit.shown is None && t.decoder == s.decoder
        },
        s.stage == Av1Stage::Plan ==> {
            let (t, r) = s.stepped(Av1Event::Planned(false));
            &&& r == plain(Av1Next::Failed) && t.stage == Av1Stage::Idle
            &&& s.decoder.health.refused < u64::MAX ==> t.decoder.health.refused
                == s.decoder.health.refused + 1
        },
        s.stage == Av1Stage::Build ==> {
            let (t, r) = s.stepped(Av1Event::Built(Some(pool_size)));
            &&& r == plain(Av1Next::Convert) && t.stage == Av1Stage::Convert
            &&& t.decoder.shape == s.shape && t.decoder.held.len() == pool_size
            &&& forall|i: int|
                0 <= i < pool_size ==> (#[trigger] t.decoder.held[i]) is None
        },
        s.stage == Av1Stage::Build ==> s.stepped(Av1Event::Built(None)).1.next == Av1Next::Failed
            && s.stepped(Av1Event::Built(None)).0.stage == Av1Stage::Idle,
        s.stage == Av1Stage::Convert ==> s.stepped(Av1Event::Converted(None)).1.next
            == Av1Next::Failed && s.stepped(Av1Event::Converted(None)).0.stage == Av1Stage::Idle,
        s.stage == Av1Stage::Convert && !s.damaged ==> {
            let (t, r) = s.stepped(Av1Event::Converted(Some(frame)));
            &&& r == plain(Av1Next::Decode) && t.stage == Av1Stage::Decode
            &&& t.frame is Some && t.frame->Some_0.setup_slot == frame.setup_slot
                && t.frame->Some_0.show == frame.show && t.frame->Some_0.refreshes
                == frame.refreshes && t.frame->Some_0.facts == frame.facts
            &&& t.decoder == s.decoder
        },
        s.stage == Av1Stage::Decode ==> {
            let f = s.frame->Some_0;
            let (t, r) = s.stepped(Av1Event::Decoded(true));
            &&& f.show ==> r == plain(Av1Next::Present { slot: f.setup_slot, facts: f.facts })
                && t.stage == Av1Stage::Present && t.frame == s.frame
            &&& !f.show ==> r.next == Av1Next::NextFrame && r.release && r.release_own
                == !f.refreshes && t.unit == s.unit
            &&& !f.show && f.setup_slot < s.decoder.held.len() ==> t.decoder.held[f.setup_slot
                as int] == (if f.refreshes {
                Some(f.facts)
            } else {
                None
            })
        },
        s.stage == Av1Stage::Decode ==> {
            let f = s.frame->Some_0;
            let (t, r) = s.stepped(Av1Event::Decoded(false));
            &&& r.next == Av1Next::Failed && r.release && r.release_own == !f.refreshes
            &&& t.stage == Av1Stage::Idle
            &&& f.setup_slot < s.decoder.held.len() ==> t.decoder.held[f.setup_slot as int] is None
            &&& s.decoder.health.refused < u64::MAX ==> t.decoder.health.refused
                == s.decoder.health.refused + 1
        },
        s.stage == Av1Stage::Present ==> {
            let (t, r) = s.stepped(Av1Event::Presented(Some(shown)));
            &&& r.next == Av1Next::NextFrame && t.stage == Av1Stage::Frame
            &&& t.unit.shown == Some(shown) && t.unit.concealed == s.unit.concealed
            &&& s.frame matches Some(f) ==> r.release && r.release_own == !f.refreshes && (
            f.setup_slot < s.decoder.held.len() ==> t.decoder.held[f.setup_slot as int] == (
            if f.refreshes {
                Some(f.facts)
            } else {
                None
            }))
        },
        s.stage == Av1Stage::Present ==> s.stepped(Av1Event::Presented(None)).1.next
            == Av1Next::Failed && s.stepped(Av1Event::Presented(None)).0.stage == Av1Stage::Idle,
        s.stage == Av1Stage::Frame && !s.unit.concealed ==> {
            let (t, r) = s.stepped(Av1Event::NoMore);
            &&& r == plain(Av1Next::Done(s.unit.shown)) && t.stage == Av1Stage::Idle
            &&& t.decoder.health.run == 0 && t.decoder.want_recovery == s.decoder.want_recovery
        },
        s.stage == Av1Stage::Frame && s.unit.concealed ==> {
            let (t, r) = s.stepped(Av1Event::NoMore);
            &&& r == plain(Av1Next::Done(None)) && t.stage == Av1Stage::Idle
            &&& t.decoder.want_recovery
            &&& s.decoder.health.damaged < u64::MAX ==> t.decoder.health.damaged
                == s.decoder.health.damaged + 1
        },
{
}

/// Whatever an AV1 unit hears, its end is counted once: a failure as refused, and any other end
/// as damaged where one of its frames was. Until then nothing is counted; only showing an earlier
/// picture removes surfaces; and what is not waited for changes nothing.
pub proof fn an_av1_end_is_counted_once(s: Av1State, e: Av1Event)
    requires
        s.wf(),
    ensures
        ({
            let (t, r) = s.stepped(e);
            let was = s.decoder;
            let now = t.decoder;
            let awaited = match s.stage {
                Av1Stage::Idle => e is Start,
                Av1Stage::Plan => e is Planned,
                Av1Stage::Frame => e is Existing || e is New || e is NoMore,
                Av1Stage::Build => e is Built,
                Av1Stage::Convert => e is Converted,
                Av1Stage::Decode => e is Decoded,
                Av1Stage::Present => e is Presented,
            };
            &&& !awaited <==> r.next == Av1Next::Wait
            &&& !awaited ==> t == s
            &&& r.release_removed == (s.stage == Av1Stage::Frame && e is Existing)
            &&& r.next == Av1Next::Failed ==> now.health == was.health.noted(false, true, 0)
                && now.want_recovery == was.want_recovery && t.stage == Av1Stage::Idle && t.frame
                is None
            &&& r.next is Done ==> now.health == was.health.noted(s.unit.concealed, false, 0)
                && now.want_recovery == (was.want_recovery || s.unit.concealed) && t.stage
                == Av1Stage::Idle
            &&& r.next != Av1Next::Failed && !(r.next is Done) ==> now.health == was.health
                && now.want_recovery == was.want_recovery
            &&& now.status_id == was.status_id
        }),
{
}

/// A frame that shows an earlier picture hands over the surface that holds it, with that
/// picture's own size and colour; a surface that holds none shows nothing. Either way what the
/// showing removed is given back.
pub proof fn an_earlier_picture_is_shown_as_it_was(s: Av1State, damaged: bool, slot: Option<u8>)
    requires
        s.stage == Av1Stage::Frame,
    ensures
        ({
            let (t, r) = s.stepped(Av1Event::Existing { damaged, slot });
            &&& r.release_removed && !r.release && !r.release_own
            &&& t.unit.concealed == (s.unit.concealed || damaged) && t.unit.shown == s.unit.shown
            &&& t.decoder == s.decoder && t.frame is None
            &&& if slot is Some && slot->Some_0 < s.decoder.held.len()
                && s.decoder.held[slot->Some_0 as int] is Some {
                r.next == (Av1Next::Present {
                    slot: slot->Some_0,
                    facts: s.decoder.held[slot->Some_0 as int]->Some_0,
                }) && t.stage == Av1Stage::Present
            } else {
                r.next == Av1Next::NextFrame && t.stage == Av1Stage::Frame
            }
        }),
{
}

/// A unit once damaged stays concealed to its end, and then shows nothing, whatever its other
/// frames showed.
pub proof fn a_damaged_unit_shows_nothing(s: Av1State, e: Av1Event)
    requires
        s.stage != Av1Stage::Idle && s.stage != Av1Stage::Plan,
        s.unit.concealed,
    ensures
        s.stepped(e).0.unit.concealed,
        s.stepped(e).1.next matches Av1Next::Done(shown) ==> shown is None && s.stepped(
            e,
        ).0.decoder.want_recovery,
{
}

/// A damaged frame is converted and goes no further: it is neither decoded nor handed over,
/// and its surface shows nothing later.
pub proof fn a_damaged_frame_goes_no_further(s: Av1State, frame: Av1Frame)
    requires
        s.stage == Av1Stage::Convert,
        s.damaged,
    ensures
        ({
            let (t, r) = s.stepped(Av1Event::Converted(Some(frame)));
            &&& r.next == Av1Next::NextFrame
            &&& frame.setup_slot < s.decoder.held.len() ==> t.decoder.held[frame.setup_slot as int]
                is None
        }),
{
}

} // verus!
