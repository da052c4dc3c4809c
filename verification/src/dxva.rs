//! The native D3D11VA rung: how access units are planned, submitted, shown and accounted for.

use vstd::prelude::*;
use crate::frame::ColorDesc;
use crate::handoff::{D3d11Frame, HandoffSource, PoolFormat};
use crate::text::same;
use crate::video_types::DecodeHealth;

verus! {

/// The name that pins this rung.
pub const DECODER_PIN: &'static str = "native-d3d11va";

/// How long a busy decoder is waited for.
pub const BEGIN_FRAME_BUDGET_NS: u64 = 100_000_000;

/// How long of that is spent spinning: a queue that drains within a decode costs no sleep.
pub const BEGIN_FRAME_SPIN_NS: u64 = 500_000;

/// One sleep after that.
pub const BEGIN_FRAME_SLEEP_NS: u64 = 1_000_000;

/// The code of a decoder whose queue is full.
pub const E_PENDING: i32 = -2147483638;

/// Reference slots of an AV1 stream.
pub const NUM_REF_SLOTS: usize = 8;

/// What a busy decoder is waited for with.
#[derive(Debug, Clone, Copy, PartialEq, Eq, Structural)]
pub enum BusyWait {
    Yield,
    /// Nanoseconds.
    Sleep(u64),
    GiveUp,
}

/// What to do this far into the wait.
pub open spec fn wait_at(elapsed: u64) -> BusyWait {
    if elapsed >= BEGIN_FRAME_BUDGET_NS {
        BusyWait::GiveUp
    } else if elapsed < BEGIN_FRAME_SPIN_NS {
        BusyWait::Yield
    } else {
        BusyWait::Sleep(BEGIN_FRAME_SLEEP_NS)
    }
}

/// What to do `elapsed` nanoseconds into the wait.
pub fn busy_wait_after(elapsed: u64) -> (r: BusyWait)
    ensures
        r == wait_at(elapsed),
        elapsed < 500_000 ==> r == BusyWait::Yield,
        500_000 <= elapsed < 100_000_000 ==> r == BusyWait::Sleep(1_000_000),
        elapsed >= 100_000_000 ==> r == BusyWait::GiveUp,
{
    if elapsed >= BEGIN_FRAME_BUDGET_NS {
        BusyWait::GiveUp
    } else if elapsed < BEGIN_FRAME_SPIN_NS {
        BusyWait::Yield
    } else {
        BusyWait::Sleep(BEGIN_FRAME_SLEEP_NS)
    }
}

/// What follows an attempt to begin a frame.
#[derive(Debug, Clone, Copy, PartialEq, Eq, Structural)]
pub enum BeginStep {
    /// The frame began, after this many retries.
    Begun { retries: u32 },
    /// The decoder failed.
    Failed { code: i32, retries: u32 },
    /// The decoder is busy: wait, then try again with this count.
    Again { wait: BusyWait, retries: u32 },
    /// The decoder stayed busy.
    StillBusy { retries: u32 },
}

/// An attempt to begin a frame answered `code`, `elapsed` into the wait and after `retries`
/// retries. Busy is no failure until the budget is spent.
pub fn begin_frame(code: i32, elapsed: u64, retries: u32) -> (r: BeginStep)
    ensures
        r == (if code == E_PENDING {
            let n = if retries < u32::MAX {
                (retries + 1) as u32
            } else {
                retries
            };
            if wait_at(elapsed) == BusyWait::GiveUp {
                BeginStep::StillBusy { retries: n }
            } else {
                BeginStep::Again { wait: wait_at(elapsed), retries: n }
            }
        } else if code >= 0 {
            BeginStep::Begun { retries }
        } else {
            BeginStep::Failed { code, retries }
        }),
        code >= 0 ==> r == (BeginStep::Begun { retries }),
        code < 0 && code != -2147483638 ==> r == (BeginStep::Failed { code, retries }),
        code == -2147483638 && elapsed >= 100_000_000 ==> r is StillBusy,
        code == -2147483638 && elapsed < 500_000 ==> r is Again && r->wait == BusyWait::Yield,
        code == -2147483638 && 500_000 <= elapsed < 100_000_000 ==> r is Again && r->wait
            == BusyWait::Sleep(1_000_000),
        code == -2147483638 && retries < u32::MAX ==> (r matches BeginStep::Again {
            retries: n,
            ..
        } ==> n == retries + 1) && (r matches BeginStep::StillBusy { retries: n } ==> n == retries
            + 1),
{
    if code != E_PENDING {
        if code >= 0 {
            return BeginStep::Begun { retries };
        }
        return BeginStep::Failed { code, retries };
    }
    let n: u32 = retries.saturating_add(1);
    match busy_wait_after(elapsed) {
        BusyWait::GiveUp => BeginStep::StillBusy { retries: n },
        wait => BeginStep::Again { wait, retries: n },
    }
}

/// Geometry and colour of a decoded picture.
#[derive(Debug, Clone, Copy, PartialEq, Eq, Structural)]
pub struct PictureFacts {
    pub colour: ColorDesc,
    pub keyframe: bool,
    /// The whole prediction chain was there.
    pub references_clean: bool,
    /// The part that is shown.
    pub width: u32,
    pub height: u32,
}

/// Everything that sizes a decode session, read from the stream itself. A change of any of it
/// rebuilds the session whole.
#[derive(Debug, Clone, Copy, PartialEq, Eq, Structural)]
pub struct StreamShape {
    pub coded_width: u32,
    pub coded_height: u32,
    pub max_dpb_frames: usize,
    pub chroma_format_idc: u8,
    pub bit_depth_luma_minus8: u8,
    pub bit_depth_chroma_minus8: u8,
}

/// What the stream says of an AV1 picture.
#[derive(Debug, Clone, Copy, PartialEq, Eq, Structural)]
pub struct Av1Picture {
    pub max_frame_width_minus_1: u16,
    pub max_frame_height_minus_1: u16,
    pub bit_depth: u8,
    pub chroma_format_idc: u8,
    pub colour: ColorDesc,
    pub is_key: bool,
    pub references_clean: bool,
    pub render_width: u32,
    pub render_height: u32,
    pub upscaled_width: u32,
    pub frame_height: u32,
}

/// The smaller of two.
pub open spec fn least(a: u32, b: u32) -> u32 {
    if a < b {
        a
    } else {
        b
    }
}

/// A session cannot hold planes of two depths. Both depths are in bits less eight, as a stream
/// writes them.
#[derive(Debug, Clone, Copy, PartialEq, Eq, Structural)]
pub struct MixedDepth {
    pub luma: u8,
    pub chroma: u8,
}

impl StreamShape {
    /// Whether both planes have one depth.
    pub open spec fn one_depth(self) -> bool {
        self.bit_depth_luma_minus8 == self.bit_depth_chroma_minus8
    }

    /// The session an AV1 picture needs.
    pub open spec fn for_av1(p: Av1Picture) -> StreamShape {
        let depth = if p.bit_depth > 8 {
            (p.bit_depth - 8) as u8
        } else {
            0
        };
        StreamShape {
            coded_width: (p.max_frame_width_minus_1 + 1) as u32,
            coded_height: (p.max_frame_height_minus_1 + 1) as u32,
            max_dpb_frames: NUM_REF_SLOTS,
            chroma_format_idc: p.chroma_format_idc,
            bit_depth_luma_minus8: depth,
            bit_depth_chroma_minus8: depth,
        }
    }

    /// Bits per sample.
    pub fn bit_depth(&self) -> (r: u8)
        requires
            self.bit_depth_luma_minus8 <= 247,
        ensures
            r == 8 + self.bit_depth_luma_minus8,
    {
        8 + self.bit_depth_luma_minus8
    }

    /// The session an AV1 picture needs. It is sized for the largest picture the sequence
    /// allows: sized for this one, a legal change downwards would drop every reference.
    pub fn of_av1(p: &Av1Picture) -> (s: StreamShape)
        ensures
            s == StreamShape::for_av1(*p),
            s.coded_width == p.max_frame_width_minus_1 + 1,
            s.coded_height == p.max_frame_height_minus_1 + 1,
            s.max_dpb_frames == 8 && s.chroma_format_idc == p.chroma_format_idc,
            p.bit_depth >= 8 ==> s.bit_depth_luma_minus8 == p.bit_depth - 8,
            p.bit_depth < 8 ==> s.bit_depth_luma_minus8 == 0,
            s.bit_depth_chroma_minus8 == s.bit_depth_luma_minus8,
    {
        let depth: u8 = p.bit_depth.saturating_sub(8);
        StreamShape {
            coded_width: p.max_frame_width_minus_1 as u32 + 1,
            coded_height: p.max_frame_height_minus_1 as u32 + 1,
            max_dpb_frames: NUM_REF_SLOTS,
            chroma_format_idc: p.chroma_format_idc,
            bit_depth_luma_minus8: depth,
            bit_depth_chroma_minus8: depth,
        }
    }

    /// Whether one surface format can hold both planes.
    pub fn check(&self) -> (r: Result<(), MixedDepth>)
        ensures
            r == (if self.one_depth() {
                Ok::<(), MixedDepth>(())
            } else {
                Err(
                    MixedDepth {
                        luma: self.bit_depth_luma_minus8,
                        chroma: self.bit_depth_chroma_minus8,
                    },
                )
            }),
    {
        if self.bit_depth_chroma_minus8 != self.bit_depth_luma_minus8 {
            return Err(
                MixedDepth {
                    luma: self.bit_depth_luma_minus8,
                    chroma: self.bit_depth_chroma_minus8,
                },
            );
        }
        Ok(())
    }
}

/// An AV1 picture never mixes depths: its session is never refused for it.
pub proof fn av1_is_never_mixed(p: Av1Picture)
    ensures
        StreamShape::for_av1(p).one_depth(),
{
}

/// What an AV1 picture shows: its render size, cut to what was decoded.
pub fn facts_of_av1(p: &Av1Picture) -> (f: PictureFacts)
    ensures
        f == (PictureFacts {
            colour: p.colour,
            keyframe: p.is_key,
            references_clean: p.references_clean,
            width: least(p.render_width, p.upscaled_width),
            height: least(p.render_height, p.frame_height),
        }),
        f.width <= p.render_width && f.width <= p.upscaled_width,
        f.width == p.render_width || f.width == p.upscaled_width,
        f.height <= p.render_height && f.height <= p.frame_height,
        f.height == p.render_height || f.height == p.frame_height,
{
    let width: u32 = if p.render_width < p.upscaled_width {
        p.render_width
    } else {
        p.upscaled_width
    };
    let height: u32 = if p.render_height < p.frame_height {
        p.render_height
    } else {
        p.frame_height
    };
    PictureFacts {
        colour: p.colour,
        keyframe: p.is_key,
        references_clean: p.references_clean,
        width,
        height,
    }
}

/// What planning an access unit came to.
#[derive(Debug, Clone, Copy, PartialEq, Eq, Structural)]
pub enum PlanAnswer {
    Planned,
    /// Nothing can be fed until a key frame arrives.
    AwaitingIdr,
    /// Nothing can be fed until its parameter sets arrive.
    NoActiveParamSet,
    /// A leading picture after a join in the middle: nothing is to be decoded.
    RaslSkipped,
    Refused,
}

/// What follows a plan.
#[derive(Debug, Clone, Copy, PartialEq, Eq, Structural)]
pub enum PlanStep {
    /// Convert and submit it.
    Go,
    /// No picture, no failure.
    Idle,
    /// The decoder could not run.
    Fail,
}

/// What an access unit came to.
#[derive(Debug, Clone, Copy, PartialEq, Eq, Structural)]
pub enum UnitOutcome {
    /// A picture is in the hand-off.
    Shown,
    /// Concealed: nothing is shown.
    Dropped,
    /// The decoder could not run.
    Failed,
}

/// One frame of an AV1 unit, once it is converted.
#[derive(Debug, Clone, Copy, PartialEq, Eq, Structural)]
pub struct Av1Frame {
    /// Its references are not all there.
    pub damaged: bool,
    pub setup_slot: u8,
    /// It replaces at least one reference.
    pub refreshes: bool,
    pub show: bool,
    pub facts: PictureFacts,
}

/// What happens to one frame of an AV1 unit.
#[derive(Debug, Clone, Copy, PartialEq, Eq, Structural)]
pub enum Av1Step {
    /// Converted, not submitted, not shown.
    Skip,
    /// Decoded as a reference only.
    Decode,
    /// Decoded and shown.
    DecodeAndShow,
}

/// The native decoder's accounts.
#[derive(Debug)]
pub struct NativeDecoder {
    /// Tag of the latest submission; zero is a buffer nobody wrote.
    pub status_id: u32,
    pub health: DecodeHealth,
    pub want_recovery: bool,
    /// The session, where one is built.
    pub shape: Option<StreamShape>,
    /// What each surface holds, for pictures shown later.
    pub held: Vec<Option<PictureFacts>>,
}

/// The native decoder's accounts, as values.
#[verifier::ext_equal]
pub struct NativeState {
    pub status_id: u32,
    pub health: DecodeHealth,
    pub want_recovery: bool,
    pub shape: Option<StreamShape>,
    pub held: Seq<Option<PictureFacts>>,
}

impl View for NativeDecoder {
    type V = NativeState;

    open spec fn view(&self) -> NativeState {
        NativeState {
            status_id: self.status_id,
            health: self.health,
            want_recovery: self.want_recovery,
            shape: self.shape,
            held: self.held@,
        }
    }
}

/// The counters of a decoder that answers no status queries.
pub open spec fn unasked() -> DecodeHealth {
    DecodeHealth {
        damaged: 0,
        failed: 0,
        refused: 0,
        run: 0,
        worst_run: 0,
        dropped: 0,
        status_queries: false,
    }
}

/// The held facts after one AV1 frame: kept only where it was decoded, handed over without a
/// failure and stays referenced.
pub open spec fn held_after(
    held: Seq<Option<PictureFacts>>,
    f: Av1Frame,
    failed: bool,
) -> Seq<Option<PictureFacts>> {
    if f.setup_slot < held.len() {
        held.update(
            f.setup_slot as int,
            if f.damaged || failed || !f.refreshes {
                None
            } else {
                Some(f.facts)
            },
        )
    } else {
        held
    }
}

impl NativeDecoder {
    /// A decoder without a session.
    pub fn new() -> (d: NativeDecoder)
        ensures
            d.status_id == 0,
            d.health == unasked(),
            d.health.damaged == 0 && d.health.failed == 0 && d.health.refused == 0 && d.health.run == 0
                && d.health.worst_run == 0 && d.health.dropped == 0 && !d.health.status_queries,
            !d.want_recovery,
            d.shape is None,
            d.held@.len() == 0,
    {
        NativeDecoder {
            status_id: 0,
            health: DecodeHealth::default(),
            want_recovery: false,
            shape: None,
            held: Vec::new(),
        }
    }

    /// Tag of the next submission. It wraps past zero.
    pub fn next_status(&mut self) -> (r: u32)
        ensures
            r == (if old(self).status_id == u32::MAX {
                1
            } else {
                old(self).status_id + 1
            }),
            r >= 1,
            final(self).status_id == r,
            final(self).health == old(self).health,
            final(self).want_recovery == old(self).want_recovery,
            final(self).shape == old(self).shape,
            final(self).held == old(self).held,
    {
        self.status_id = if self.status_id == u32::MAX {
            1
        } else {
            self.status_id + 1
        };
        self.status_id
    }

    /// The keyframe request, once.
    pub fn take_recovery_request(&mut self) -> (r: bool)
        ensures
            r == old(self).want_recovery,
            !final(self).want_recovery,
            final(self).health == old(self).health,
            final(self).status_id == old(self).status_id,
            final(self).shape == old(self).shape,
            final(self).held == old(self).held,
    {
        let r: bool = self.want_recovery;
        self.want_recovery = false;
        r
    }

    /// An access unit was planned. A decoder that joined in the middle idles and asks for a
    /// keyframe; a skipped leading picture asks for nothing.
    pub fn on_plan(&mut self, answer: PlanAnswer) -> (r: PlanStep)
        ensures
            r == (match answer {
                PlanAnswer::Planned => PlanStep::Go,
                PlanAnswer::Refused => PlanStep::Fail,
                _ => PlanStep::Idle,
            }),
            final(self).want_recovery == (old(self).want_recovery || answer
                == PlanAnswer::AwaitingIdr || answer == PlanAnswer::NoActiveParamSet),
            final(self).health == (if answer == PlanAnswer::Refused {
                old(self).health.noted(false, true, 0)
            } else {
                old(self).health
            }),
            final(self).status_id == old(self).status_id,
            final(self).shape == old(self).shape,
            final(self).held == old(self).held,
    {
        match answer {
            PlanAnswer::Planned => PlanStep::Go,
            PlanAnswer::AwaitingIdr => {
                self.want_recovery = true;
                PlanStep::Idle
            },
            PlanAnswer::NoActiveParamSet => {
                self.want_recovery = true;
                PlanStep::Idle
            },
            PlanAnswer::RaslSkipped => PlanStep::Idle,
            PlanAnswer::Refused => {
                let mut h: DecodeHealth = self.health;
                h.note(false, true, 0);
                self.health = h;
                PlanStep::Fail
            },
        }
    }

    /// Whether a session of another shape has to be built. The old one goes first, so that
    /// its memory is free.
    pub fn ensure_session(&mut self, shape: StreamShape) -> (rebuild: bool)
        ensures
            rebuild == (old(self).shape != Some(shape)),
            final(self).shape == (if rebuild {
                None
            } else {
                old(self).shape
            }),
            final(self).held@ == (if rebuild {
                Seq::empty()
            } else {
                old(self).held@
            }),
            final(self).health == old(self).health,
            final(self).want_recovery == old(self).want_recovery,
            final(self).status_id == old(self).status_id,
    {
        let fits: bool = match self.shape {
            Some(s) => s == shape,
            None => false,
        };
        if !fits {
            self.shape = None;
            self.held = Vec::new();
        }
        !fits
    }

    /// A session was built over a pool of surfaces, none of which holds a picture.
    pub fn session_built(&mut self, shape: StreamShape, pool_size: u32)
        ensures
            final(self).shape == Some(shape),
            final(self).held@ == Seq::new(pool_size as nat, |i: int| None::<PictureFacts>),
            final(self).health == old(self).health,
            final(self).want_recovery == old(self).want_recovery,
            final(self).status_id == old(self).status_id,
    {
        let mut held: Vec<Option<PictureFacts>> = Vec::new();
        let mut i: u32 = 0;
        while i < pool_size
            invariant
                i <= pool_size,
                held@.len() == i,
                forall|j: int| 0 <= j < i ==> (#[trigger] held@[j]) is None,
            decreases pool_size - i,
        {
            held.push(None);
            i = i + 1;
        }
        assert(held@ =~= Seq::new(pool_size as nat, |i: int| None::<PictureFacts>));
        self.held = held;
        self.shape = Some(shape);
    }

    /// An access unit of one picture is settled. A picture whose reference was substituted is
    /// not submitted: a wrong reference would spoil every one after it. Whatever comes out,
    /// the surfaces the unit retired are released.
    pub fn settle(&mut self, concealed: bool, submitted: bool) -> (r: UnitOutcome)
        ensures
            r == (if concealed {
                UnitOutcome::Dropped
            } else if submitted {
                UnitOutcome::Shown
            } else {
                UnitOutcome::Failed
            }),
            final(self).health == old(self).health.noted(concealed, !concealed && !submitted, 0),
            final(self).want_recovery == (old(self).want_recovery || concealed),
            final(self).status_id == old(self).status_id,
            final(self).shape == old(self).shape,
            final(self).held == old(self).held,
    {
        let mut h: DecodeHealth = self.health;
        let r: UnitOutcome;
        if concealed {
            h.note(true, false, 0);
            self.want_recovery = true;
            r = UnitOutcome::Dropped;
        } else if submitted {
            h.note(false, false, 0);
            r = UnitOutcome::Shown;
        } else {
            h.note(false, true, 0);
            r = UnitOutcome::Failed;
        }
        self.health = h;
        r
    }

    /// What happens to a converted AV1 frame. A damaged one is converted, which keeps the
    /// surfaces in step, and goes no further.
    pub fn av1_step(f: &Av1Frame) -> (r: Av1Step)
        ensures
            r == (if f.damaged {
                Av1Step::Skip
            } else if f.show {
                Av1Step::DecodeAndShow
            } else {
                Av1Step::Decode
            }),
    {
        if f.damaged {
            Av1Step::Skip
        } else if f.show {
            Av1Step::DecodeAndShow
        } else {
            Av1Step::Decode
        }
    }

    /// A converted AV1 frame is done with; `failed` is whether decoding it or handing it over
    /// did. Answers whether its own surface is released at once: nothing will name a picture
    /// that replaces no reference.
    pub fn av1_done(&mut self, f: &Av1Frame, failed: bool) -> (release: bool)
        ensures
            release == !f.refreshes,
            final(self).held@ == held_after(old(self).held@, *f, failed),
            final(self).held@.len() == old(self).held@.len(),
            f.setup_slot < old(self).held@.len() && !f.damaged && !failed && f.refreshes ==> final(self).held@[f.setup_slot as int] == Some(f.facts),
            f.setup_slot < old(self).held@.len() && (f.damaged || failed || !f.refreshes) ==> final(self).held@[f.setup_slot as int] is None,
            forall|i: int|
                0 <= i < old(self).held@.len() && i != f.setup_slot ==> final(self).held@[i] == old(
                    self,
                ).held@[i],
            final(self).health == old(self).health,
            final(self).want_recovery == old(self).want_recovery,
            final(self).status_id == old(self).status_id,
            final(self).shape == old(self).shape,
    {
        let slot: usize = f.setup_slot as usize;
        if slot < self.held.len() {
            let facts: Option<PictureFacts> = if f.damaged || failed || !f.refreshes {
                None
            } else {
                Some(f.facts)
            };
            self.held.set(slot, facts);
        }
        !f.refreshes
    }

    /// The picture a frame shows again, by the surface that holds it. A surface nothing was
    /// decoded into shows nothing.
    pub open spec fn shows_again(self, slot: Option<u8>) -> Option<(u8, PictureFacts)> {
        if slot is Some && slot->Some_0 < self.held@.len() && self.held@[slot->Some_0 as int] is Some {
            Some((slot->Some_0, self.held@[slot->Some_0 as int]->Some_0))
        } else {
            None
        }
    }

    /// The picture a frame shows again, by the surface that holds it.
    pub fn show_existing(&self, slot: Option<u8>) -> (r: Option<(u8, PictureFacts)>)
        ensures
            r == self.shows_again(slot),
            r is Some ==> slot is Some && r->Some_0.0 == slot->Some_0 && slot->Some_0
                < self.held@.len() && self.held@[slot->Some_0 as int] == Some(r->Some_0.1),
            r is None ==> slot is None || slot->Some_0 >= self.held@.len()
                || self.held@[slot->Some_0 as int] is None,
    {
        match slot {
            Some(s) => {
                let i: usize = s as usize;
                if i < self.held.len() {
                    match self.held[i] {
                        Some(facts) => Some((s, facts)),
                        None => None,
                    }
                } else {
                    None
                }
            },
            None => None,
        }
    }

    /// A unit's planning or one of its frames failed.
    pub fn unit_failed(&mut self)
        ensures
            final(self).health == old(self).health.noted(false, true, 0),
            final(self).want_recovery == old(self).want_recovery,
            final(self).status_id == old(self).status_id,
            final(self).shape == old(self).shape,
            final(self).held == old(self).held,
    {
        let mut h: DecodeHealth = self.health;
        h.note(false, true, 0);
        self.health = h;
    }

    /// An AV1 unit is done. Damage to any of its frames conceals all of it.
    pub fn unit_done(&mut self, unit: &Av1Unit) -> (r: Option<D3d11Frame>)
        ensures
            r == (if unit.concealed {
                None
            } else {
                unit.shown
            }),
            final(self).health == old(self).health.noted(unit.concealed, false, 0),
            final(self).want_recovery == (old(self).want_recovery || unit.concealed),
            final(self).status_id == old(self).status_id,
            final(self).shape == old(self).shape,
            final(self).held == old(self).held,
    {
        let mut h: DecodeHealth = self.health;
        h.note(unit.concealed, false, 0);
        self.health = h;
        if unit.concealed {
            self.want_recovery = true;
            return None;
        }
        unit.shown
    }
}

/// The picture handed over from a surface of the pool.
pub fn source_of(pool: u64, pool_format: PoolFormat, slices: u32, slot: u8, facts: PictureFacts) -> (s:
    HandoffSource)
    ensures
        s == (HandoffSource {
            pool,
            pool_format,
            slices,
            array_slice: slot as u32,
            width: facts.width,
            height: facts.height,
            color: facts.colour,
            keyframe: facts.keyframe,
            references_clean: facts.references_clean,
        }),
{
    HandoffSource {
        pool,
        pool_format,
        slices,
        array_slice: slot as u32,
        width: facts.width,
        height: facts.height,
        color: facts.colour,
        keyframe: facts.keyframe,
        references_clean: facts.references_clean,
    }
}

/// An AV1 unit in progress: several frames, of which at most one is shown.
#[derive(Debug, Clone, Copy, PartialEq, Eq, Structural)]
pub struct Av1Unit {
    pub concealed: bool,
    pub shown: Option<D3d11Frame>,
}

/// A unit after its frames: `(damaged, shown)` of each.
pub open spec fn unit_of(frames: Seq<(bool, Option<D3d11Frame>)>) -> Av1Unit
    decreases frames.len(),
{
    if frames.len() == 0 {
        Av1Unit { concealed: false, shown: None }
    } else {
        unit_of(frames.drop_last()).after(frames.last().0, frames.last().1)
    }
}

impl Av1Unit {
    /// One frame later: the latest picture shown stands.
    pub open spec fn after(self, damaged: bool, shown: Option<D3d11Frame>) -> Av1Unit {
        Av1Unit {
            concealed: self.concealed || damaged,
            shown: if shown is Some {
                shown
            } else {
                self.shown
            },
        }
    }

    /// A unit without frames.
    pub fn new() -> (u: Av1Unit)
        ensures
            u == unit_of(Seq::empty()),
            !u.concealed && u.shown is None,
    {
        Av1Unit { concealed: false, shown: None }
    }

    /// One frame of the unit is done.
    pub fn on_frame(&mut self, damaged: bool, shown: Option<D3d11Frame>)
        ensures
            *final(self) == old(self).after(damaged, shown),
            final(self).concealed == (old(self).concealed || damaged),
            shown is Some ==> final(self).shown == shown,
            shown is None ==> final(self).shown == old(self).shown,
    {
        self.concealed = self.concealed || damaged;
        if shown.is_some() {
            self.shown = shown;
        }
    }
}

/// One damaged frame conceals its whole unit, wherever in it the frame stands.
pub proof fn damage_conceals_the_unit(frames: Seq<(bool, Option<D3d11Frame>)>, i: int)
    requires
        0 <= i < frames.len(),
        frames[i].0,
    ensures
        unit_of(frames).concealed,
    decreases frames.len(),
{
    if i < frames.len() - 1 {
        damage_conceals_the_unit(frames.drop_last(), i);
    }
}

/// A surface whose frame was damaged or failed is never shown again: what it holds is an
/// earlier picture's.
pub proof fn a_spoilt_surface_shows_nothing(
    before: NativeDecoder,
    after: NativeDecoder,
    f: Av1Frame,
    failed: bool,
)
    requires
        after.held@ == held_after(before.held@, f, failed),
        f.damaged || failed,
    ensures
        after.shows_again(Some(f.setup_slot)) is None,
{
}

/// What a decoder buffer holds.
#[derive(Debug, Clone, Copy, PartialEq, Eq, Structural)]
pub enum BufferKind {
    PictureParameters,
    InverseQuantizationMatrix,
    SliceControl,
    Bitstream,
}

/// Code of the picture parameters.
pub const BUFFER_PICTURE_PARAMETERS: u32 = 0;

/// Code of the quantization matrices.
pub const BUFFER_INVERSE_QUANTIZATION_MATRIX: u32 = 4;

/// Code of the slice or tile records.
pub const BUFFER_SLICE_CONTROL: u32 = 5;

/// Code of the bitstream.
pub const BUFFER_BITSTREAM: u32 = 6;

/// The buffer a code names.
pub open spec fn kind_of_code(code: u32) -> Option<BufferKind> {
    if code == BUFFER_PICTURE_PARAMETERS {
        Some(BufferKind::PictureParameters)
    } else if code == BUFFER_INVERSE_QUANTIZATION_MATRIX {
        Some(BufferKind::InverseQuantizationMatrix)
    } else if code == BUFFER_SLICE_CONTROL {
        Some(BufferKind::SliceControl)
    } else if code == BUFFER_BITSTREAM {
        Some(BufferKind::Bitstream)
    } else {
        None
    }
}

/// The buffer a code names.
pub fn buffer_kind(code: u32) -> (r: Option<BufferKind>)
    ensures
        r == kind_of_code(code),
        code == 0 ==> r == Some(BufferKind::PictureParameters),
        code == 4 ==> r == Some(BufferKind::InverseQuantizationMatrix),
        code == 5 ==> r == Some(BufferKind::SliceControl),
        code == 6 ==> r == Some(BufferKind::Bitstream),
        code != 0 && code != 4 && code != 5 && code != 6 ==> r is None,
{
    if code == BUFFER_PICTURE_PARAMETERS {
        Some(BufferKind::PictureParameters)
    } else if code == BUFFER_INVERSE_QUANTIZATION_MATRIX {
        Some(BufferKind::InverseQuantizationMatrix)
    } else if code == BUFFER_SLICE_CONTROL {
        Some(BufferKind::SliceControl)
    } else if code == BUFFER_BITSTREAM {
        Some(BufferKind::Bitstream)
    } else {
        None
    }
}

/// One filled buffer of a submission.
#[derive(Debug, Clone, Copy, PartialEq, Eq, Structural)]
pub struct BufferDesc {
    pub kind: BufferKind,
    pub size: u32,
    pub mb_count: u32,
}

/// The buffers of a picture made of slices: parameters, matrices where there are any, the
/// bitstream and its slice records. Only the last two count macroblocks.
pub fn slice_buffers(
    pic_params: u32,
    qmatrix: Option<u32>,
    bitstream: u32,
    slice_control: u32,
    mb_count: u32,
) -> (r: Vec<BufferDesc>)
    ensures
        r@ == seq![
            BufferDesc { kind: BufferKind::PictureParameters, size: pic_params, mb_count: 0 },
        ] + (match qmatrix {
            Some(size) => seq![
                BufferDesc { kind: BufferKind::InverseQuantizationMatrix, size, mb_count: 0 },
            ],
            None => Seq::<BufferDesc>::empty(),
        }) + seq![
            BufferDesc { kind: BufferKind::Bitstream, size: bitstream, mb_count },
            BufferDesc { kind: BufferKind::SliceControl, size: slice_control, mb_count },
        ],
{
    let mut out: Vec<BufferDesc> = Vec::new();
    out.push(BufferDesc { kind: BufferKind::PictureParameters, size: pic_params, mb_count: 0 });
    match qmatrix {
        Some(size) => {
            out.push(BufferDesc { kind: BufferKind::InverseQuantizationMatrix, size, mb_count: 0 });
        },
        None => {},
    }
    out.push(BufferDesc { kind: BufferKind::Bitstream, size: bitstream, mb_count });
    out.push(BufferDesc { kind: BufferKind::SliceControl, size: slice_control, mb_count });
    out
}

/// A buffer a submission declares: its code, size and macroblock count.
#[derive(Debug, Clone, Copy, PartialEq, Eq, Structural)]
pub struct Declared {
    pub code: u32,
    pub size: u32,
    pub mb_count: u32,
}

/// Why a declared buffer cannot be submitted.
#[derive(Debug, Clone, Copy, PartialEq, Eq, Structural)]
pub enum BufferError {
    /// Nothing was written for this code.
    NoWriter { code: u32 },
    /// What was written is not what is declared.
    Mismatch { code: u32, wrote: u32, declared: u32 },
}

/// What the three writers of an AV1 picture wrote.
#[derive(Debug, Clone, Copy, PartialEq, Eq, Structural)]
pub struct Written {
    pub pic_params: u32,
    pub bitstream: u32,
    pub tile_control: u32,
}

impl Written {
    /// What was written for a code.
    pub open spec fn of(self, code: u32) -> Option<u32> {
        if code == BUFFER_PICTURE_PARAMETERS {
            Some(self.pic_params)
        } else if code == BUFFER_BITSTREAM {
            Some(self.bitstream)
        } else if code == BUFFER_SLICE_CONTROL {
            Some(self.tile_control)
        } else {
            None
        }
    }

    /// What a declared buffer comes to.
    pub open spec fn checked(self, d: Declared) -> Result<BufferDesc, BufferError> {
        match self.of(d.code) {
            None => Err(BufferError::NoWriter { code: d.code }),
            Some(wrote) => if wrote != d.size {
                Err(BufferError::Mismatch { code: d.code, wrote, declared: d.size })
            } else {
                Ok(
                    BufferDesc {
                        kind: kind_of_code(d.code)->Some_0,
                        size: d.size,
                        mb_count: d.mb_count,
                    },
                )
            },
        }
    }

    fn check_one(&self, d: &Declared) -> (r: Result<BufferDesc, BufferError>)
        ensures
            r == self.checked(*d),
    {
        let (kind, wrote): (BufferKind, u32) = if d.code == BUFFER_PICTURE_PARAMETERS {
            (BufferKind::PictureParameters, self.pic_params)
        } else if d.code == BUFFER_BITSTREAM {
            (BufferKind::Bitstream, self.bitstream)
        } else if d.code == BUFFER_SLICE_CONTROL {
            (BufferKind::SliceControl, self.tile_control)
        } else {
            return Err(BufferError::NoWriter { code: d.code });
        };
        if wrote != d.size {
            return Err(BufferError::Mismatch { code: d.code, wrote, declared: d.size });
        }
        Ok(BufferDesc { kind, size: d.size, mb_count: d.mb_count })
    }
}

/// The buffers of an AV1 picture, held against what was written: all of them, or the first
/// that does not fit.
pub fn av1_buffers(declared: &Vec<Declared>, written: &Written) -> (r: Result<
    Vec<BufferDesc>,
    BufferError,
>)
    ensures
        match r {
            Ok(v) => {
                &&& v@.len() == declared@.len()
                &&& forall|i: int|
                    0 <= i < v@.len() ==> written.checked(#[trigger] declared@[i]) == Ok::<
                        BufferDesc,
                        BufferError,
                    >(v@[i])
            },
            Err(e) => exists|k: int|
                {
                    &&& 0 <= k < declared@.len()
                    &&& written.checked(#[trigger] declared@[k]) == Err::<BufferDesc, BufferError>(e)
                    &&& forall|i: int|
                        0 <= i < k ==> written.checked(#[trigger] declared@[i]) is Ok
                },
        },
{
    let mut out: Vec<BufferDesc> = Vec::new();
    let mut i: usize = 0;
    while i < declared.len()
        invariant
            i <= declared@.len(),
            out@.len() == i,
            forall|j: int|
                0 <= j < i ==> written.checked(#[trigger] declared@[j]) == Ok::<
                    BufferDesc,
                    BufferError,
                >(out@[j]),
        decreases declared@.len() - i,
    {
        match written.check_one(&declared[i]) {
            Ok(d) => {
                out.push(d);
            },
            Err(e) => {
                assert(written.checked(declared@[i as int]) == Err::<BufferDesc, BufferError>(e));
                return Err(e);
            },
        }
        i = i + 1;
    }
    Ok(out)
}

/// A declared buffer goes through exactly where what was written for it has its size, as the kind
/// its code names; a code nobody writes is refused as that, and any other size as a mismatch.
pub proof fn a_buffer_is_held_to_what_was_written(w: Written, d: Declared)
    ensures
        d.code == 0 && w.pic_params == d.size ==> w.checked(d) == Ok::<BufferDesc, BufferError>(
            BufferDesc {
                kind: BufferKind::PictureParameters,
                size: d.size,
                mb_count: d.mb_count,
            },
        ),
        d.code == 6 && w.bitstream == d.size ==> w.checked(d) == Ok::<BufferDesc, BufferError>(
            BufferDesc { kind: BufferKind::Bitstream, size: d.size, mb_count: d.mb_count },
        ),
        d.code == 5 && w.tile_control == d.size ==> w.checked(d) == Ok::<BufferDesc, BufferError>(
            BufferDesc { kind: BufferKind::SliceControl, size: d.size, mb_count: d.mb_count },
        ),
        d.code == 0 && w.pic_params != d.size ==> w.checked(d) == Err::<BufferDesc, BufferError>(
            BufferError::Mismatch { code: 0, wrote: w.pic_params, declared: d.size },
        ),
        d.code == 6 && w.bitstream != d.size ==> w.checked(d) == Err::<BufferDesc, BufferError>(
            BufferError::Mismatch { code: 6, wrote: w.bitstream, declared: d.size },
        ),
        d.code == 5 && w.tile_control != d.size ==> w.checked(d) == Err::<BufferDesc, BufferError>(
            BufferError::Mismatch { code: 5, wrote: w.tile_control, declared: d.size },
        ),
        d.code != 0 && d.code != 5 && d.code != 6 ==> w.checked(d) == Err::<
            BufferDesc,
            BufferError,
        >(BufferError::NoWriter { code: d.code }),
{
}

/// A buffer is too long for where it has to go.
#[derive(Debug, Clone, Copy, PartialEq, Eq, Structural)]
pub struct DoesNotFit {
    pub len: usize,
    pub room: usize,
}

/// Copy a buffer to the front of a mapping, or refuse one that does not fit.
pub fn copy_into(dst: &mut [u8], src: &[u8]) -> (r: Result<(), DoesNotFit>)
    ensures
        final(dst)@.len() == old(dst)@.len(),
        match r {
            Ok(_) => src@.len() <= old(dst)@.len() && final(dst)@ == src@ + old(dst)@.skip(
                src@.len() as int,
            ),
            Err(e) => {
                &&& src@.len() > old(dst)@.len()
                &&& e.len == src@.len()
                &&& e.room == old(dst)@.len()
                &&& final(dst)@ == old(dst)@
            },
        },
{
    let n: usize = src.len();
    let room: usize = dst.len();
    if n > room {
        return Err(DoesNotFit { len: n, room });
    }
    let ghost was = dst@;
    let mut i: usize = 0;
    while i < n
        invariant
            i <= n,
            n == src@.len(),
            n <= room,
            dst@.len() == room,
            was.len() == room,
            forall|j: int| 0 <= j < i ==> dst@[j] == src@[j],
            forall|j: int| i <= j < room ==> dst@[j] == was[j],
        decreases n - i,
    {
        dst[i] = src[i];
        i = i + 1;
    }
    assert(dst@ =~= src@ + was.skip(n as int));
    Ok(())
}

/// How the decode pool is shared.
#[derive(Debug, Clone, Copy, PartialEq, Eq, Structural)]
pub enum PoolShare {
    Private,
    /// By handle.
    Shared,
    /// By handle, and bound for sampling.
    Sampled,
}

/// How the environment wants the decode pool shared.
pub fn pool_share(env: Option<&str>) -> (r: PoolShare)
    ensures
        r == (match env {
            Some(v) => if v@ == "1"@ {
                PoolShare::Shared
            } else if v@ == "srv"@ {
                PoolShare::Sampled
            } else {
                PoolShare::Private
            },
            None => PoolShare::Private,
        }),
{
    match env {
        Some(v) => if same(v, "1") {
            PoolShare::Shared
        } else if same(v, "srv") {
            PoolShare::Sampled
        } else {
            PoolShare::Private
        },
        None => PoolShare::Private,
    }
}

/// Why an adapter cannot host a profile.
#[derive(Debug, Clone, Copy, PartialEq, Eq, Structural)]
pub enum ProfileError {
    /// It does not list the profile.
    Missing,
    /// The profile cannot decode into its surface format.
    WrongFormat,
}

/// Whether an adapter hosts a profile: it lists it and can decode into its format.
pub fn profile_supported(listed: &Vec<u128>, wanted: u128, format_ok: bool) -> (r: Result<
    (),
    ProfileError,
>)
    ensures
        r == (if !listed@.contains(wanted) {
            Err::<(), ProfileError>(ProfileError::Missing)
        } else if !format_ok {
            Err(ProfileError::WrongFormat)
        } else {
            Ok(())
        }),
{
    let mut i: usize = 0;
    while i < listed.len()
        invariant
            i <= listed@.len(),
            forall|j: int| 0 <= j < i ==> listed@[j] != wanted,
        decreases listed@.len() - i,
    {
        if listed[i] == wanted {
            if !format_ok {
                return Err(ProfileError::WrongFormat);
            }
            return Ok(());
        }
        i = i + 1;
    }
    Err(ProfileError::Missing)
}

/// Why a decode session cannot be built.
#[derive(Debug, Clone, Copy, PartialEq, Eq, Structural)]
pub enum SessionError {
    Mixed(MixedDepth),
    /// No profile decodes this codec in this shape.
    NoProfile,
    Profile(ProfileError),
    /// None of the adapter's configurations takes short slice records.
    NoConfig { offered: usize },
}

/// What a session is built with: the configuration chosen among those offered, or the first
/// thing that stands in the way.
pub open spec fn session_config(
    shape: StreamShape,
    has_profile: bool,
    supported: Result<(), ProfileError>,
    offered: usize,
    picked: Option<usize>,
) -> Result<usize, SessionError> {
    if !shape.one_depth() {
        Err(
            SessionError::Mixed(
                MixedDepth {
                    luma: shape.bit_depth_luma_minus8,
                    chroma: shape.bit_depth_chroma_minus8,
                },
            ),
        )
    } else if !has_profile {
        Err(SessionError::NoProfile)
    } else if supported is Err {
        Err(SessionError::Profile(supported->Err_0))
    } else {
        match picked {
            Some(i) => Ok(i),
            None => Err(SessionError::NoConfig { offered }),
        }
    }
}

/// What a session is built with. The shape is the stream's own, never the negotiated one: an
/// adapter that cannot host it is found out here, not in the middle of a picture.
pub fn build_session(
    shape: &StreamShape,
    has_profile: bool,
    supported: Result<(), ProfileError>,
    offered: usize,
    picked: Option<usize>,
) -> (r: Result<usize, SessionError>)
    ensures
        r == session_config(*shape, has_profile, supported, offered, picked),
        r is Ok <==> shape.bit_depth_luma_minus8 == shape.bit_depth_chroma_minus8 && has_profile
            && supported is Ok && picked is Some,
        r is Ok ==> r->Ok_0 == picked->Some_0,
        shape.bit_depth_luma_minus8 != shape.bit_depth_chroma_minus8 ==> r is Err && r->Err_0 is Mixed,
        shape.bit_depth_luma_minus8 == shape.bit_depth_chroma_minus8 && !has_profile ==> r == Err::<
            usize,
            SessionError,
        >(SessionError::NoProfile),
        shape.bit_depth_luma_minus8 == shape.bit_depth_chroma_minus8 && has_profile && supported
            is Err ==> r == Err::<usize, SessionError>(SessionError::Profile(supported->Err_0)),
        shape.bit_depth_luma_minus8 == shape.bit_depth_chroma_minus8 && has_profile && supported is Ok
            && picked is None ==> r == Err::<usize, SessionError>(
            SessionError::NoConfig { offered },
        ),
{
    match shape.check() {
        Ok(_) => {},
        Err(e) => {
            return Err(SessionError::Mixed(e));
        },
    }
    if !has_profile {
        return Err(SessionError::NoProfile);
    }
    match supported {
        Ok(_) => {},
        Err(e) => {
            return Err(SessionError::Profile(e));
        },
    }
    match picked {
        Some(i) => Ok(i),
        None => Err(SessionError::NoConfig { offered }),
    }
}

/// How a session's decoder and its surfaces are made.
#[derive(Debug, Clone, Copy, PartialEq, Eq, Structural)]
pub struct PoolDesc {
    /// The size the decoder is told: the stream's, not the surfaces'.
    pub sample_width: u32,
    pub sample_height: u32,
    /// The size of a surface, rounded up to what the codec needs.
    pub surface_width: u32,
    pub surface_height: u32,
    pub surfaces: u32,
    pub share: PoolShare,
}

/// How a session's decoder and its surfaces are made. A driver may refuse a decoder that is
/// told the rounded size, and a surface of the stream's own size is too small.
pub fn pool_desc(
    shape: &StreamShape,
    aligned_width: u32,
    aligned_height: u32,
    surfaces: u32,
    share: PoolShare,
) -> (d: PoolDesc)
    ensures
        d == (PoolDesc {
            sample_width: shape.coded_width,
            sample_height: shape.coded_height,
            surface_width: aligned_width,
            surface_height: aligned_height,
            surfaces,
            share,
        }),
{
    PoolDesc {
        sample_width: shape.coded_width,
        sample_height: shape.coded_height,
        surface_width: aligned_width,
        surface_height: aligned_height,
        surfaces,
        share,
    }
}

/// What a frame's buffers came to. The frame is ended in any case; its end speaks only where
/// nothing worse did.
pub fn frame_result<E>(filled: Result<(), E>, ended: Result<(), E>) -> (r: Result<(), E>)
    ensures
        filled is Err ==> r == filled,
        filled is Ok ==> r == ended,
{
    match filled {
        Ok(_) => ended,
        Err(e) => Err(e),
    }
}

} // verus!
