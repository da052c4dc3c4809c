//! The session loop: what one turn of the pump does, from the stop flag to the once-a-second
//! report.
//!
//! The application waits, pulls, decodes and asks the freeze gate. It hands in what came of
//! that, does what it is told, and looks at the stage for what to hand in next.

use vstd::prelude::*;
use crate::pump::{Ask, FrameStep, GateStep, Pump, Recovery, RequestStep, ASK_SPACING_NS, WINDOW_NS};
use crate::session::{
    mic_on_access, take_reconfigure, DecodeFacts, EndReason, EventState, MicStep, Mode, PumpStop,
    SessionEvent, StopState,
};
use crate::text::opt_view;
use crate::video::RungLoss;
use crate::video_types::DecodeHealth;
use crate::window::{
    elapsed_us, lead_us, pin_line, received_stamp, reported_decode_us, stage_us,
    LatchGrid, Window, WindowState,
};

verus! {

/// What the loop hears next.
#[derive(Debug, Clone, Copy, PartialEq, Eq, Structural)]
pub enum Stage {
    /// The start of a turn: the stop flag, the time, what the host grants.
    Turn,
    /// What a short wait for an access unit gave.
    Pull,
    /// The freeze gate's arm count and the decoder's order, just before decoding.
    Stamp,
    /// What decoding gave.
    Decode,
    /// What the picture's own recovery point did to the freeze.
    Recover,
    /// The freeze gate's verdict on the picture.
    Gate,
    /// What a wait for the hardware's decode gave.
    Fence,
    /// What the presenter asked of the decoder.
    Demote,
    /// What the decoder asks for.
    Request,
    /// The freeze gate's verdict on the losses so far.
    Poll,
    /// The figures of the report.
    Report,
    /// The session is over.
    Over,
}

/// A change of what the host grants, as values.
#[verifier::ext_equal]
pub struct AccessState {
    pub grants: u32,
    pub mic: bool,
    pub notice: Option<Seq<char>>,
}

/// A change of what the host grants.
#[derive(Debug)]
pub struct AccessUpdate {
    pub grants: u32,
    /// The microphone is among them.
    pub mic: bool,
    /// What the user is told of it.
    pub notice: Option<String>,
}

impl View for AccessUpdate {
    type V = AccessState;

    open spec fn view(&self) -> AccessState {
        AccessState { grants: self.grants, mic: self.mic, notice: opt_view(self.notice) }
    }
}

/// The view of a change that may not have come.
pub open spec fn access_view(a: Option<AccessUpdate>) -> Option<AccessState> {
    match a {
        Some(u) => Some(u@),
        None => None,
    }
}

/// What the presenter asked of the decoder, as values.
pub enum DemotionState {
    NotAsked,
    Done,
    Failed(Seq<char>),
}

/// What the presenter asked of the decoder.
#[derive(Debug)]
pub enum Demotion {
    NotAsked,
    /// Frames come from the CPU from now on.
    Done,
    /// The CPU decoder could not be built.
    Failed(String),
}

impl View for Demotion {
    type V = DemotionState;

    open spec fn view(&self) -> DemotionState {
        match *self {
            Demotion::NotAsked => DemotionState::NotAsked,
            Demotion::Done => DemotionState::Done,
            Demotion::Failed(e) => DemotionState::Failed(e@),
        }
    }
}

/// Something the loop hears, as values.
pub enum HeardState {
    Turn { stop: bool, elapsed: u64, access: Option<AccessState> },
    Unit { index: u32, complete: bool, stamp_ns: u64, pulled_ns: u64, now: u64 },
    NoUnit,
    Closed { reject: Option<Seq<char>>, reason: EndReason },
    Broken,
    Stamped { arms: u64, decode_order: u64 },
    Picture { order: Option<u64>, path: Seq<char>, has_fence: bool },
    NoPicture { tripped: bool, now: u64 },
    Exhausted(RungLoss),
    Recovered { lifted: bool },
    Gated { was_holding: bool, present: bool, by_marks: bool, now: u64, decoded_ns: u64 },
    Fenced { decoded: bool, now_ns: u64 },
    Demoted(DemotionState),
    Requested { requested: bool, holding: bool, now: u64 },
    Polled { tripped: bool, now: u64 },
    Reported {
        now: u64,
        pin_kbps: u32,
        launch: Option<u32>,
        launch_line: Option<Seq<char>>,
        grid: LatchGrid,
        health: Option<DecodeHealth>,
    },
}

/// Something the loop hears.
#[derive(Debug)]
pub enum Heard {
    /// A turn begins. `elapsed` is nanoseconds since the session began.
    Turn { stop: bool, elapsed: u64, access: Option<AccessUpdate> },
    /// An access unit, with the transport's arrival stamp and the moment it was pulled.
    Unit { index: u32, complete: bool, stamp_ns: u64, pulled_ns: u64, now: u64 },
    /// The wait ran out.
    NoUnit,
    Closed { reject: Option<String>, reason: EndReason },
    Broken,
    Stamped { arms: u64, decode_order: u64 },
    /// A picture. `has_fence`: the hardware is still decoding it.
    Picture { order: Option<u64>, path: &'static str, has_fence: bool },
    /// Nothing came out, or an error the decoder survives. `tripped`: the streak is too long.
    NoPicture { tripped: bool, now: u64 },
    /// The codec has no decoder left.
    Exhausted(RungLoss),
    Recovered { lifted: bool },
    Gated { was_holding: bool, present: bool, by_marks: bool, now: u64, decoded_ns: u64 },
    Fenced { decoded: bool, now_ns: u64 },
    Demoted(Demotion),
    Requested { requested: bool, holding: bool, now: u64 },
    Polled { tripped: bool, now: u64 },
    /// Figures for the report. `launch` identifies a verdict, `launch_line` is what it says.
    Reported {
        now: u64,
        pin_kbps: u32,
        launch: Option<u32>,
        launch_line: Option<String>,
        grid: LatchGrid,
        health: Option<DecodeHealth>,
    },
}

impl View for Heard {
    type V = HeardState;

    open spec fn view(&self) -> HeardState {
        match *self {
            Heard::Turn { stop, elapsed, access } => HeardState::Turn {
                stop,
                elapsed,
                access: access_view(access),
            },
            Heard::Unit { index, complete, stamp_ns, pulled_ns, now } => HeardState::Unit {
                index,
                complete,
                stamp_ns,
                pulled_ns,
                now,
            },
            Heard::NoUnit => HeardState::NoUnit,
            Heard::Closed { reject, reason } => HeardState::Closed {
                reject: opt_view(reject),
                reason,
            },
            Heard::Broken => HeardState::Broken,
            Heard::Stamped { arms, decode_order } => HeardState::Stamped { arms, decode_order },
            Heard::Picture { order, path, has_fence } => HeardState::Picture {
                order,
                path: path@,
                has_fence,
            },
            Heard::NoPicture { tripped, now } => HeardState::NoPicture { tripped, now },
            Heard::Exhausted(loss) => HeardState::Exhausted(loss),
            Heard::Recovered { lifted } => HeardState::Recovered { lifted },
            Heard::Gated { was_holding, present, by_marks, now, decoded_ns } => HeardState::Gated {
                was_holding,
                present,
                by_marks,
                now,
                decoded_ns,
            },
            Heard::Fenced { decoded, now_ns } => HeardState::Fenced { decoded, now_ns },
            Heard::Demoted(d) => HeardState::Demoted(d@),
            Heard::Requested { requested, holding, now } => HeardState::Requested {
                requested,
                holding,
                now,
            },
            Heard::Polled { tripped, now } => HeardState::Polled { tripped, now },
            Heard::Reported { now, pin_kbps, launch, launch_line, grid, health } =>
                HeardState::Reported {
                now,
                pin_kbps,
                launch,
                launch_line: opt_view(launch_line),
                grid,
                health,
            },
        }
    }
}

/// Something the application does, as values.
pub enum DeedState {
    RequestMode(Mode),
    StopMic,
    StartMic,
    Tell(EventState),
    ExpectDrops(u32),
    Ask(Ask),
    OfferRecovery { own: bool },
    Forgive,
    Ship,
    Hold,
    NoteDecode { us: int, fence: bool },
    ReportDecode(u32),
    Arm,
    Phase { grid: LatchGrid, leads: Seq<int> },
    End(StopState),
}

/// Something the application does.
#[derive(Debug)]
pub enum Deed {
    /// Ask the host for another mode.
    RequestMode(Mode),
    StopMic,
    /// Start the microphone, and say how that went.
    StartMic,
    Tell(SessionEvent),
    /// Arm the freeze: this many frames will be counted as dropped.
    ExpectDrops(u32),
    Ask(Ask),
    /// Offer the freeze gate the picture's own recovery point, or none.
    OfferRecovery { own: bool },
    /// Drop the decoder's damaged-chain marks.
    Forgive,
    /// Hand the picture to the presenter; the newest wins.
    Ship,
    /// Keep the last good picture on the screen.
    Hold,
    /// A sample of the time decoding took, in microseconds.
    NoteDecode { us: u64, fence: bool },
    /// The same, for bitrate control.
    ReportDecode(u32),
    /// Arm the freeze.
    Arm,
    /// Fold these leads on this grid and report the phase.
    Phase { grid: LatchGrid, leads: Vec<u64> },
    End(PumpStop),
}

/// Leads as numbers.
pub open spec fn ints(v: Seq<u64>) -> Seq<int> {
    v.map_values(|x: u64| x as int)
}

impl View for Deed {
    type V = DeedState;

    open spec fn view(&self) -> DeedState {
        match *self {
            Deed::RequestMode(m) => DeedState::RequestMode(m),
            Deed::StopMic => DeedState::StopMic,
            Deed::StartMic => DeedState::StartMic,
            Deed::Tell(e) => DeedState::Tell(e@),
            Deed::ExpectDrops(n) => DeedState::ExpectDrops(n),
            Deed::Ask(a) => DeedState::Ask(a),
            Deed::OfferRecovery { own } => DeedState::OfferRecovery { own },
            Deed::Forgive => DeedState::Forgive,
            Deed::Ship => DeedState::Ship,
            Deed::Hold => DeedState::Hold,
            Deed::NoteDecode { us, fence } => DeedState::NoteDecode { us: us as int, fence },
            Deed::ReportDecode(us) => DeedState::ReportDecode(us),
            Deed::Arm => DeedState::Arm,
            Deed::Phase { grid, leads } => DeedState::Phase { grid, leads: ints(leads@) },
            Deed::End(stop) => DeedState::End(stop@),
        }
    }
}

/// The views of a list of deeds.
pub open spec fn deeds_of(v: Seq<Deed>) -> Seq<DeedState> {
    v.map_values(|d: Deed| d@)
}

fn put(out: &mut Vec<Deed>, d: Deed)
    ensures
        deeds_of(final(out)@) == deeds_of(old(out)@).push(d@),
{
    out.push(d);
    assert(deeds_of(out@) =~= deeds_of(old(out)@).push(d@));
}

/// A list with one more deed, where it is called for.
pub open spec fn also(deeds: Seq<DeedState>, called_for: bool, d: DeedState) -> Seq<DeedState> {
    if called_for {
        deeds.push(d)
    } else {
        deeds
    }
}

/// The loop, as values.
#[verifier::ext_equal]
pub struct LoopState {
    pub stage: Stage,
    pub pump: Pump,
    pub window: WindowState,
    pub reconfigure: Option<(Mode, u64)>,
    pub phase_lock: bool,
    pub wants_decode: bool,
    pub mic_enabled: bool,
    pub mic_running: bool,
    pub path: Seq<char>,
    pub has_fence: bool,
    pub received_ns: u64,
    pub decoded_ns: u64,
}

/// The loop between two things it hears.
pub struct SessionLoop {
    pub stage: Stage,
    pub pump: Pump,
    pub window: Window,
    /// A mode to switch to, and after how many seconds.
    pub reconfigure: Option<(Mode, u64)>,
    /// The host's capture is lined up with this panel.
    pub phase_lock: bool,
    /// Bitrate control wants to know how long decoding takes.
    pub wants_decode: bool,
    pub mic_enabled: bool,
    pub mic_running: bool,
    /// The path of the last picture.
    pub path: &'static str,
    /// The picture in hand is still being decoded by the hardware.
    pub has_fence: bool,
    /// When the unit in hand arrived.
    pub received_ns: u64,
    /// When the picture in hand came out.
    pub decoded_ns: u64,
}

impl View for SessionLoop {
    type V = LoopState;

    open spec fn view(&self) -> LoopState {
        LoopState {
            stage: self.stage,
            pump: self.pump,
            window: self.window@,
            reconfigure: self.reconfigure,
            phase_lock: self.phase_lock,
            wants_decode: self.wants_decode,
            mic_enabled: self.mic_enabled,
            mic_running: self.mic_running,
            path: self.path@,
            has_fence: self.has_fence,
            received_ns: self.received_ns,
            decoded_ns: self.decoded_ns,
        }
    }
}

/// What a change of grants does to the microphone.
pub open spec fn mic_step(enabled: bool, granted: bool, running: bool) -> MicStep {
    if (enabled && granted) == running {
        MicStep::Keep
    } else if running {
        MicStep::Stop
    } else {
        MicStep::Start
    }
}

impl LoopState {
    /// The session ends.
    pub open spec fn ends(self, stop: StopState) -> (LoopState, Seq<DeedState>) {
        (LoopState { stage: Stage::Over, ..self }, seq![DeedState::End(stop)])
    }

    /// A turn begins: a stop ends the session; otherwise a switch of mode whose time has come
    /// is made, and the microphone follows its grant before the client hears of it.
    pub open spec fn turned(self, stop: bool, elapsed: u64, access: Option<AccessState>) -> (
        LoopState,
        Seq<DeedState>,
    ) {
        if stop {
            self.ends(StopState::Asked)
        } else {
            let due = self.reconfigure matches Some(r) && elapsed >= r.1 * 1_000_000_000;
            let mic = match access {
                Some(a) => mic_step(self.mic_enabled, a.mic, self.mic_running),
                None => MicStep::Keep,
            };
            let d0 = Seq::<DeedState>::empty();
            let d1 = also(d0, due, DeedState::RequestMode(self.reconfigure->Some_0.0));
            let d2 = also(d1, mic == MicStep::Stop, DeedState::StopMic);
            let d3 = also(d2, mic == MicStep::Start, DeedState::StartMic);
            (
                LoopState {
                    stage: Stage::Pull,
                    reconfigure: if due {
                        None
                    } else {
                        self.reconfigure
                    },
                    mic_running: self.mic_running && mic != MicStep::Stop,
                    ..self
                },
                match access {
                    Some(a) => d3.push(
                        DeedState::Tell(EventState::Access { grants: a.grants, notice: a.notice }),
                    ),
                    None => d3,
                },
            )
        }
    }

    /// An access unit arrived. One that goes no further ends the turn.
    pub open spec fn pulled(
        self,
        index: u32,
        complete: bool,
        stamp_ns: u64,
        pulled_ns: u64,
        now: u64,
    ) -> (LoopState, Seq<DeedState>) {
        let received_ns = if stamp_ns > 0 {
            stamp_ns
        } else {
            pulled_ns
        };
        let (pump, step) = self.pump.framed(index, complete, now);
        let d0 = Seq::<DeedState>::empty();
        let d1 = also(d0, step.lost is Some, DeedState::ExpectDrops(step.lost->Some_0));
        let d2 = also(d1, step.ask != Ask::Nothing, DeedState::Ask(step.ask));
        (
            LoopState {
                stage: if step.decode {
                    Stage::Stamp
                } else {
                    Stage::Turn
                },
                pump,
                window: self.window.with_arrival(self.phase_lock, received_ns),
                received_ns,
                ..self
            },
            d2,
        )
    }

    /// The decoder is about to run.
    pub open spec fn stamped(self, arms: u64, decode_order: u64) -> LoopState {
        LoopState {
            stage: Stage::Decode,
            pump: if arms != self.pump.arms {
                Pump { arms, arm_order: decode_order, ..self.pump }
            } else {
                self.pump
            },
            ..self
        }
    }

    /// A picture came out. One decoded before the loss cannot lift the freeze that followed it.
    pub open spec fn pictured(self, decode_order: Option<u64>, path: Seq<char>, has_fence: bool) -> (
        LoopState,
        Seq<DeedState>,
    ) {
        let own = !(decode_order is Some && decode_order->Some_0 <= self.pump.arm_order);
        (
            LoopState { stage: Stage::Recover, path, has_fence, ..self },
            seq![DeedState::OfferRecovery { own }],
        )
    }

    /// No picture came out.
    pub open spec fn unpictured(self, tripped: bool, now: u64) -> (LoopState, Seq<DeedState>) {
        let (recovery, ask) = self.pump.recovery.keyed(tripped, now);
        (
            LoopState { stage: Stage::Demote, pump: Pump { recovery, ..self.pump }, ..self },
            also(Seq::empty(), ask, DeedState::Ask(Ask::Keyframe)),
        )
    }

    /// The decode time for bitrate control, where it wants one.
    pub open spec fn with_report(self, deeds: Seq<DeedState>, decoded_ns: u64) -> Seq<DeedState> {
        let us = elapsed_us(self.received_ns, decoded_ns);
        also(
            deeds,
            self.wants_decode,
            DeedState::ReportDecode(
                (if us > u32::MAX {
                    u32::MAX as int
                } else {
                    us
                }) as u32,
            ),
        )
    }

    /// The freeze gate judged the picture: it is shown or held, and its decode is timed, at
    /// once or, once per window, when the hardware is done.
    pub open spec fn gated(
        self,
        was_holding: bool,
        present: bool,
        by_marks: bool,
        now: u64,
        decoded_ns: u64,
    ) -> (LoopState, Seq<DeedState>) {
        let (recovery, ask) = self.pump.recovery.keyed(!present && !was_holding, now);
        let waits = self.has_fence && !self.window.fence_sampled;
        let d0 = Seq::<DeedState>::empty();
        let d1 = also(d0, was_holding && present && by_marks, DeedState::Forgive);
        let d2 = also(d1, ask, DeedState::Ask(Ask::Keyframe));
        let d3 = d2.push(
            if present {
                DeedState::Ship
            } else {
                DeedState::Hold
            },
        );
        let d4 = also(
            d3,
            !self.has_fence,
            DeedState::NoteDecode { us: elapsed_us(self.received_ns, decoded_ns), fence: false },
        );
        (
            LoopState {
                stage: if waits {
                    Stage::Fence
                } else {
                    Stage::Demote
                },
                pump: Pump { recovery, ..self.pump },
                decoded_ns,
                ..self
            },
            if waits {
                d4
            } else {
                self.with_report(d4, decoded_ns)
            },
        )
    }

    /// The wait for the hardware ended.
    pub open spec fn fenced(self, decoded: bool, now_ns: u64) -> (LoopState, Seq<DeedState>) {
        let d = also(
            Seq::empty(),
            decoded,
            DeedState::NoteDecode { us: elapsed_us(self.received_ns, now_ns), fence: true },
        );
        (
            LoopState {
                stage: Stage::Demote,
                window: WindowState {
                    fence_sampled: self.window.fence_sampled || decoded,
                    ..self.window
                },
                ..self
            },
            self.with_report(d, self.decoded_ns),
        )
    }

    /// The decoder said whether it wants a keyframe.
    pub open spec fn requested(self, requested: bool, holding: bool, now: u64) -> (
        LoopState,
        Seq<DeedState>,
    ) {
        let (recovery, ask) = self.pump.recovery.keyed(requested, now);
        let d = also(Seq::empty(), requested && !holding, DeedState::Arm);
        (
            LoopState { stage: Stage::Poll, pump: Pump { recovery, ..self.pump }, ..self },
            also(d, ask, DeedState::Ask(Ask::Keyframe)),
        )
    }

    /// The freeze gate looked at the losses so far.
    pub open spec fn polled(self, tripped: bool, now: u64) -> (LoopState, Seq<DeedState>) {
        let (pump, ask) = self.pump.polled(tripped, now);
        (
            LoopState { stage: Stage::Report, pump, ..self },
            also(Seq::empty(), ask != Ask::Nothing, DeedState::Ask(ask)),
        )
    }

    /// The leads of a window's arrivals, where it reports a phase.
    pub open spec fn leads(self, grid: LatchGrid) -> Option<Seq<int>> {
        if self.phase_lock && grid.period_ns > 0 && grid.anchor_ns > 0 && self.window.arrivals.len()
            >= crate::pump::MIN_ARRIVALS {
            Some(self.window.arrivals.map_values(|a: u64| lead_us(grid, a)))
        } else {
            None
        }
    }

    /// A window that is a second old is told: what the user has not heard yet, the phase and
    /// what the decoder is at. Then the next begins.
    pub open spec fn reported(
        self,
        now: u64,
        pin_kbps: u32,
        launch: Option<u32>,
        launch_line: Option<Seq<char>>,
        grid: LatchGrid,
        health: Option<DecodeHealth>,
    ) -> (LoopState, Seq<DeedState>) {
        if now - self.window.start < WINDOW_NS {
            (LoopState { stage: Stage::Turn, ..self }, Seq::empty())
        } else {
            let d1 = also(
                Seq::empty(),
                pin_kbps != 0 && !self.window.pin_noticed,
                DeedState::Tell(EventState::Notice(pin_line(pin_kbps))),
            );
            let d2 = also(
                d1,
                launch is Some && launch != self.window.launch_told && launch_line is Some,
                DeedState::Tell(EventState::Notice(launch_line->Some_0)),
            );
            let d3 = also(
                d2,
                self.leads(grid) is Some,
                DeedState::Phase { grid, leads: self.leads(grid)->Some_0 },
            );
            (
                LoopState {
                    stage: Stage::Turn,
                    window: WindowState {
                        start: now,
                        fence_sampled: false,
                        pin_noticed: self.window.pin_noticed || pin_kbps != 0,
                        launch_told: if launch is Some {
                            launch
                        } else {
                            self.window.launch_told
                        },
                        arrivals: Seq::empty(),
                    },
                    ..self
                },
                d3.push(DeedState::Tell(EventState::DecodeFacts { decoder: self.path, health })),
            )
        }
    }
}

/// Whether a stage waits for this.
pub open spec fn awaits(stage: Stage, e: HeardState) -> bool {
    match e {
        HeardState::Turn { .. } => stage == Stage::Turn,
        HeardState::Unit { .. } => stage == Stage::Pull,
        HeardState::NoUnit => stage == Stage::Pull,
        HeardState::Closed { .. } => stage == Stage::Pull,
        HeardState::Broken => stage == Stage::Pull,
        HeardState::Stamped { .. } => stage == Stage::Stamp,
        HeardState::Picture { .. } => stage == Stage::Decode,
        HeardState::NoPicture { .. } => stage == Stage::Decode,
        HeardState::Exhausted(_) => stage == Stage::Decode,
        HeardState::Recovered { .. } => stage == Stage::Recover,
        HeardState::Gated { .. } => stage == Stage::Gate,
        HeardState::Fenced { .. } => stage == Stage::Fence,
        HeardState::Demoted(_) => stage == Stage::Demote,
        HeardState::Requested { .. } => stage == Stage::Request,
        HeardState::Polled { .. } => stage == Stage::Poll,
        HeardState::Reported { .. } => stage == Stage::Report,
    }
}

/// The loop after something it heard, and what is done about it. What the stage does not wait
/// for changes nothing.
pub open spec fn heard(s: LoopState, e: HeardState) -> (LoopState, Seq<DeedState>) {
    if !awaits(s.stage, e) {
        (s, Seq::empty())
    } else {
        match e {
            HeardState::Turn { stop, elapsed, access } => s.turned(stop, elapsed, access),
            HeardState::Unit { index, complete, stamp_ns, pulled_ns, now } => s.pulled(
                index,
                complete,
                stamp_ns,
                pulled_ns,
                now,
            ),
            HeardState::NoUnit => (LoopState { stage: Stage::Poll, ..s }, Seq::empty()),
            HeardState::Closed { reject, reason } => s.ends(StopState::Closed { reject, reason }),
            HeardState::Broken => s.ends(StopState::Broken),
            HeardState::Stamped { arms, decode_order } => (
                s.stamped(arms, decode_order),
                Seq::empty(),
            ),
            HeardState::Picture { order, path, has_fence } => s.pictured(
                order,
                path,
                has_fence,
            ),
            HeardState::NoPicture { tripped, now } => s.unpictured(tripped, now),
            HeardState::Exhausted(loss) => s.ends(StopState::Exhausted(loss)),
            HeardState::Recovered { lifted } => (
                LoopState { stage: Stage::Gate, ..s },
                also(Seq::empty(), lifted, DeedState::Forgive),
            ),
            HeardState::Gated { was_holding, present, by_marks, now, decoded_ns } => s.gated(
                was_holding,
                present,
                by_marks,
                now,
                decoded_ns,
            ),
            HeardState::Fenced { decoded, now_ns } => s.fenced(decoded, now_ns),
            HeardState::Demoted(d) => match d {
                DemotionState::Failed(e) => s.ends(StopState::Rebuild(e)),
                _ => (LoopState { stage: Stage::Request, ..s }, Seq::empty()),
            },
            HeardState::Requested { requested, holding, now } => s.requested(
                requested,
                holding,
                now,
            ),
            HeardState::Polled { tripped, now } => s.polled(tripped, now),
            HeardState::Reported { now, pin_kbps, launch, launch_line, grid, health } => s.reported(
                now,
                pin_kbps,
                launch,
                launch_line,
                grid,
                health,
            ),
        }
    }
}

impl SessionLoop {
    /// A loop at the start of a session; `arms` is the freeze gate's count at that moment.
    pub fn new(
        all_intra: bool,
        arms: u64,
        max_range: u32,
        now: u64,
        reconfigure: Option<(Mode, u64)>,
        phase_lock: bool,
        wants_decode: bool,
        mic_enabled: bool,
        mic_running: bool,
    ) -> (l: SessionLoop)
        ensures
            l@ == (LoopState {
                stage: Stage::Turn,
                pump: Pump {
                    recovery: Recovery { pending: None, last_ask: None, max_range },
                    next_expected: None,
                    newest: None,
                    all_intra,
                    arms,
                    arm_order: 0,
                },
                window: WindowState {
                    start: now,
                    fence_sampled: false,
                    pin_noticed: false,
                    launch_told: None,
                    arrivals: Seq::empty(),
                },
                reconfigure,
                phase_lock,
                wants_decode,
                mic_enabled,
                mic_running,
                path: ""@,
                has_fence: false,
                received_ns: 0,
                decoded_ns: 0,
            }),
    {
        SessionLoop {
            stage: Stage::Turn,
            pump: Pump::new(all_intra, arms, max_range),
            window: Window::new(now),
            reconfigure,
            phase_lock,
            wants_decode,
            mic_enabled,
            mic_running,
            path: "",
            has_fence: false,
            received_ns: 0,
            decoded_ns: 0,
        }
    }

    /// How starting the microphone went.
    pub fn mic_started(&mut self, running: bool)
        ensures
            final(self)@ == (LoopState { mic_running: running, ..old(self)@ }),
    {
        self.mic_running = running;
    }

    fn end(&mut self, stop: PumpStop) -> (out: Vec<Deed>)
        ensures
            (final(self)@, deeds_of(out@)) == old(self)@.ends(stop@),
    {
        self.stage = Stage::Over;
        let mut out: Vec<Deed> = Vec::new();
        let ghost d = stop@;
        put(&mut out, Deed::End(stop));
        assert(deeds_of(out@) =~= seq![DeedState::End(d)]);
        out
    }

    fn on_turn(&mut self, stop: bool, elapsed: u64, access: Option<AccessUpdate>) -> (out: Vec<Deed>)
        ensures
            (final(self)@, deeds_of(out@)) == old(self)@.turned(stop, elapsed, access_view(access)),
    {
        if stop {
            return self.end(PumpStop::Asked);
        }
        let mut out: Vec<Deed> = Vec::new();
        assert(deeds_of(out@) =~= Seq::<DeedState>::empty());
        let mut pending: Option<(Mode, u64)> = self.reconfigure;
        match take_reconfigure(&mut pending, elapsed) {
            Some(mode) => {
                put(&mut out, Deed::RequestMode(mode));
            },
            None => {},
        }
        self.reconfigure = pending;
        self.stage = Stage::Pull;
        match access {
            Some(a) => {
                match mic_on_access(self.mic_enabled, a.mic, self.mic_running) {
                    MicStep::Stop => {
                        self.mic_running = false;
                        put(&mut out, Deed::StopMic);
                    },
                    MicStep::Start => {
                        put(&mut out, Deed::StartMic);
                    },
                    MicStep::Keep => {},
                }
                put(
                    &mut out,
                    Deed::Tell(SessionEvent::Access { grants: a.grants, notice: a.notice }),
                );
            },
            None => {},
        }
        out
    }

    fn on_unit(
        &mut self,
        index: u32,
        complete: bool,
        stamp_ns: u64,
        pulled_ns: u64,
        now: u64,
    ) -> (out: Vec<Deed>)
        ensures
            (final(self)@, deeds_of(out@)) == old(self)@.pulled(
                index,
                complete,
                stamp_ns,
                pulled_ns,
                now,
            ),
    {
        let mut out: Vec<Deed> = Vec::new();
        assert(deeds_of(out@) =~= Seq::<DeedState>::empty());
        let received_ns: u64 = received_stamp(stamp_ns, pulled_ns);
        self.received_ns = received_ns;
        self.window.note_arrival(self.phase_lock, received_ns);
        let mut pump: Pump = self.pump;
        let step: FrameStep = pump.on_frame(index, complete, now);
        self.pump = pump;
        match step.lost {
            Some(n) => {
                put(&mut out, Deed::ExpectDrops(n));
            },
            None => {},
        }
        if step.ask != Ask::Nothing {
            put(&mut out, Deed::Ask(step.ask));
        }
        self.stage = if step.decode {
            Stage::Stamp
        } else {
            Stage::Turn
        };
        out
    }

    fn on_picture(&mut self, decode_order: Option<u64>, path: &'static str, has_fence: bool) -> (out:
        Vec<Deed>)
        ensures
            (final(self)@, deeds_of(out@)) == old(self)@.pictured(decode_order, path@, has_fence),
    {
        let mut out: Vec<Deed> = Vec::new();
        let own: bool = self.pump.local_recovery_counts(decode_order);
        put(&mut out, Deed::OfferRecovery { own });
        assert(deeds_of(out@) =~= seq![DeedState::OfferRecovery { own }]);
        self.path = path;
        self.has_fence = has_fence;
        self.stage = Stage::Recover;
        out
    }

    fn on_no_picture(&mut self, tripped: bool, now: u64) -> (out: Vec<Deed>)
        ensures
            (final(self)@, deeds_of(out@)) == old(self)@.unpictured(tripped, now),
    {
        let mut out: Vec<Deed> = Vec::new();
        assert(deeds_of(out@) =~= Seq::<DeedState>::empty());
        let mut pump: Pump = self.pump;
        if pump.on_no_output(tripped, now) {
            put(&mut out, Deed::Ask(Ask::Keyframe));
        }
        self.pump = pump;
        self.stage = Stage::Demote;
        out
    }

    fn report_decode(&self, out: &mut Vec<Deed>, decoded_ns: u64)
        ensures
            deeds_of(final(out)@) == self@.with_report(deeds_of(old(out)@), decoded_ns),
    {
        if self.wants_decode {
            let us: u32 = reported_decode_us(self.received_ns, decoded_ns);
            put(out, Deed::ReportDecode(us));
        }
    }

    fn on_gated(
        &mut self,
        was_holding: bool,
        present: bool,
        by_marks: bool,
        now: u64,
        decoded_ns: u64,
    ) -> (out: Vec<Deed>)
        ensures
            (final(self)@, deeds_of(out@)) == old(self)@.gated(
                was_holding,
                present,
                by_marks,
                now,
                decoded_ns,
            ),
    {
        let mut out: Vec<Deed> = Vec::new();
        assert(deeds_of(out@) =~= Seq::<DeedState>::empty());
        let mut pump: Pump = self.pump;
        let step: GateStep = pump.on_gate(was_holding, present, by_marks, now);
        self.pump = pump;
        self.decoded_ns = decoded_ns;
        if step.forgive {
            put(&mut out, Deed::Forgive);
        }
        if step.ask_keyframe {
            put(&mut out, Deed::Ask(Ask::Keyframe));
        }
        if present {
            put(&mut out, Deed::Ship);
        } else {
            put(&mut out, Deed::Hold);
        }
        if !self.has_fence {
            let us: u64 = stage_us(self.received_ns, decoded_ns);
            put(&mut out, Deed::NoteDecode { us, fence: false });
        }
        if self.has_fence && self.window.wants_fence_sample() {
            self.stage = Stage::Fence;
        } else {
            self.stage = Stage::Demote;
            self.report_decode(&mut out, decoded_ns);
        }
        out
    }

    fn on_fenced(&mut self, decoded: bool, now_ns: u64) -> (out: Vec<Deed>)
        ensures
            (final(self)@, deeds_of(out@)) == old(self)@.fenced(decoded, now_ns),
    {
        let mut out: Vec<Deed> = Vec::new();
        assert(deeds_of(out@) =~= Seq::<DeedState>::empty());
        self.window.note_fence_wait(decoded);
        if decoded {
            let us: u64 = stage_us(self.received_ns, now_ns);
            put(&mut out, Deed::NoteDecode { us, fence: true });
        }
        self.stage = Stage::Demote;
        self.report_decode(&mut out, self.decoded_ns);
        out
    }

    fn on_requested(&mut self, requested: bool, holding: bool, now: u64) -> (out: Vec<Deed>)
        ensures
            (final(self)@, deeds_of(out@)) == old(self)@.requested(requested, holding, now),
    {
        let mut out: Vec<Deed> = Vec::new();
        assert(deeds_of(out@) =~= Seq::<DeedState>::empty());
        let mut pump: Pump = self.pump;
        let step: RequestStep = pump.on_decoder_request(requested, holding, now);
        self.pump = pump;
        self.stage = Stage::Poll;
        if step.arm {
            put(&mut out, Deed::Arm);
        }
        if step.ask_keyframe {
            put(&mut out, Deed::Ask(Ask::Keyframe));
        }
        out
    }

    fn on_polled(&mut self, tripped: bool, now: u64) -> (out: Vec<Deed>)
        ensures
            (final(self)@, deeds_of(out@)) == old(self)@.polled(tripped, now),
    {
        let mut out: Vec<Deed> = Vec::new();
        assert(deeds_of(out@) =~= Seq::<DeedState>::empty());
        let mut pump: Pump = self.pump;
        let ask: Ask = pump.on_poll(tripped, now);
        self.pump = pump;
        self.stage = Stage::Report;
        if ask != Ask::Nothing {
            put(&mut out, Deed::Ask(ask));
        }
        out
    }

    fn on_reported(
        &mut self,
        now: u64,
        pin_kbps: u32,
        launch: Option<u32>,
        launch_line: Option<String>,
        grid: LatchGrid,
        health: Option<DecodeHealth>,
    ) -> (out: Vec<Deed>)
        ensures
            (final(self)@, deeds_of(out@)) == old(self)@.reported(
                now,
                pin_kbps,
                launch,
                opt_view(launch_line),
                grid,
                health,
            ),
    {
        let ghost was = self@;
        let mut out: Vec<Deed> = Vec::new();
        assert(deeds_of(out@) =~= Seq::<DeedState>::empty());
        self.stage = Stage::Turn;
        if !self.window.due(now) {
            return out;
        }
        match self.window.pin_notice(pin_kbps) {
            Some(line) => {
                put(&mut out, Deed::Tell(SessionEvent::Notice(line)));
            },
            None => {},
        }
        match self.window.launch_notice(launch, launch_line) {
            Some(line) => {
                put(&mut out, Deed::Tell(SessionEvent::Notice(line)));
            },
            None => {},
        }
        if self.phase_lock {
            match self.window.leads(grid) {
                Some(leads) => {
                    assert(ints(leads@) =~= was.leads(grid)->Some_0);
                    put(&mut out, Deed::Phase { grid, leads });
                },
                None => {},
            }
        }
        put(
            &mut out,
            Deed::Tell(SessionEvent::DecodeFacts(DecodeFacts { decoder: self.path, health })),
        );
        self.window.restart(now);
        out
    }

    /// The loop hears something: what the application does about it, in order.
    pub fn hear(&mut self, e: Heard) -> (out: Vec<Deed>)
        ensures
            (final(self)@, deeds_of(out@)) == heard(old(self)@, e@),
    {
        let nothing: Vec<Deed> = Vec::new();
        assert(deeds_of(nothing@) =~= Seq::<DeedState>::empty());
        match (self.stage, e) {
            (Stage::Turn, Heard::Turn { stop, elapsed, access }) => self.on_turn(
                stop,
                elapsed,
                access,
            ),
            (Stage::Pull, Heard::Unit { index, complete, stamp_ns, pulled_ns, now }) =>
                self.on_unit(index, complete, stamp_ns, pulled_ns, now),
            (Stage::Pull, Heard::NoUnit) => {
                self.stage = Stage::Poll;
                nothing
            },
            (Stage::Pull, Heard::Closed { reject, reason }) => self.end(
                PumpStop::Closed { reject, reason },
            ),
            (Stage::Pull, Heard::Broken) => self.end(PumpStop::Broken),
            (Stage::Stamp, Heard::Stamped { arms, decode_order }) => {
                let mut pump: Pump = self.pump;
                pump.note_arms(arms, decode_order);
                self.pump = pump;
                self.stage = Stage::Decode;
                nothing
            },
            (Stage::Decode, Heard::Picture { order, path, has_fence }) => self.on_picture(
                order,
                path,
                has_fence,
            ),
            (Stage::Decode, Heard::NoPicture { tripped, now }) => self.on_no_picture(tripped, now),
            (Stage::Decode, Heard::Exhausted(loss)) => self.end(PumpStop::Exhausted(loss)),
            (Stage::Recover, Heard::Recovered { lifted }) => {
                let mut out: Vec<Deed> = nothing;
                if lifted {
                    put(&mut out, Deed::Forgive);
                }
                self.stage = Stage::Gate;
                out
            },
            (Stage::Gate, Heard::Gated { was_holding, present, by_marks, now, decoded_ns }) =>
                self.on_gated(was_holding, present, by_marks, now, decoded_ns),
            (Stage::Fence, Heard::Fenced { decoded, now_ns }) => self.on_fenced(decoded, now_ns),
            (Stage::Demote, Heard::Demoted(Demotion::Failed(e))) => self.end(PumpStop::Rebuild(e)),
            (Stage::Demote, Heard::Demoted(_)) => {
                self.stage = Stage::Request;
                nothing
            },
            (Stage::Request, Heard::Requested { requested, holding, now }) => self.on_requested(
                requested,
                holding,
                now,
            ),
            (Stage::Poll, Heard::Polled { tripped, now }) => self.on_polled(tripped, now),
            (
                Stage::Report,
                Heard::Reported { now, pin_kbps, launch, launch_line, grid, health },
            ) => self.on_reported(now, pin_kbps, launch, launch_line, grid, health),
            _ => nothing,
        }
    }
}

/// How many asks a list of deeds holds.
pub open spec fn asks_in(deeds: Seq<DeedState>) -> nat
    decreases deeds.len(),
{
    if deeds.len() == 0 {
        0
    } else {
        asks_in(deeds.drop_last()) + (if deeds.last() is Ask {
            1nat
        } else {
            0
        })
    }
}

/// When something was heard, where asking the host may come of it.
pub open spec fn heard_at(e: HeardState) -> u64 {
    match e {
        HeardState::Unit { now, .. } => now,
        HeardState::NoPicture { now, .. } => now,
        HeardState::Gated { now, .. } => now,
        HeardState::Requested { now, .. } => now,
        HeardState::Polled { now, .. } => now,
        _ => 0,
    }
}

/// The times of the asks a session sends.
pub open spec fn session_asks(s: LoopState, run: Seq<HeardState>) -> Seq<u64>
    decreases run.len(),
{
    if run.len() == 0 {
        Seq::empty()
    } else {
        let (t, deeds) = heard(s, run[0]);
        let rest = session_asks(t, run.skip(1));
        if asks_in(deeds) > 0 {
            seq![heard_at(run[0])] + rest
        } else {
            rest
        }
    }
}

proof fn pushing_counts(deeds: Seq<DeedState>, d: DeedState)
    ensures
        asks_in(deeds.push(d)) == asks_in(deeds) + (if d is Ask {
            1nat
        } else {
            0
        }),
{
    assert(deeds.push(d).drop_last() =~= deeds);
}

/// Whatever is heard, at most one ask goes out, only where the throttle is open, and it closes
/// it; nothing else does.
#[verifier::spinoff_prover]
#[verifier::rlimit(40)]
pub proof fn an_ask_spends_the_throttle(s: LoopState, e: HeardState)
    ensures
        asks_in(heard(s, e).1) <= 1,
        asks_in(heard(s, e).1) == 1 ==> s.pump.recovery.open(heard_at(e))
            && heard(s, e).0.pump.recovery.last_ask == Some(heard_at(e)),
        asks_in(heard(s, e).1) == 0 ==> heard(s, e).0.pump.recovery.last_ask
            == s.pump.recovery.last_ask,
{
    assert forall|deeds: Seq<DeedState>, d: DeedState|
        #[trigger] asks_in(deeds.push(d)) == asks_in(deeds) + (if d is Ask {
            1nat
        } else {
            0
        }) by {
        pushing_counts(deeds, d);
    }
    assert forall|d: DeedState| #[trigger] seq![d] == Seq::<DeedState>::empty().push(d) by {
        assert(seq![d] =~= Seq::<DeedState>::empty().push(d));
    }
}

/// Whatever a session hears, no two asks, for a keyframe or a range, are closer than the
/// spacing.
pub proof fn a_session_spaces_its_asks(s: LoopState, run: Seq<HeardState>)
    ensures
        forall|i: int|
            0 < i < session_asks(s, run).len() ==> (#[trigger] session_asks(s, run)[i])
                - session_asks(s, run)[i - 1] >= ASK_SPACING_NS,
        session_asks(s, run).len() > 0 ==> (match s.pump.recovery.last_ask {
            Some(t) => session_asks(s, run)[0] - t >= ASK_SPACING_NS,
            None => true,
        }),
    decreases run.len(),
{
    if run.len() > 0 {
        let (t, deeds) = heard(s, run[0]);
        let rest = session_asks(t, run.skip(1));
        an_ask_spends_the_throttle(s, run[0]);
        a_session_spaces_its_asks(t, run.skip(1));
        let all = session_asks(s, run);
        if asks_in(deeds) > 0 {
            assert forall|i: int| 0 < i < all.len() implies (#[trigger] all[i]) - all[i - 1]
                >= ASK_SPACING_NS by {
                assert(all[i] == rest[i - 1]);
                if i > 1 {
                    assert(all[i - 1] == rest[i - 2]);
                }
            }
        } else {
            assert(all == rest);
        }
    }
}

/// A session ends once: the end is the last thing done, it leaves the loop over, and a loop
/// that is over does nothing whatever it hears.
pub proof fn a_session_ends_once(s: LoopState, e: HeardState)
    ensures
        ({
            let (t, deeds) = heard(s, e);
            &&& s.stage == Stage::Over ==> t == s && deeds.len() == 0
            &&& s.stage != Stage::Over && t.stage == Stage::Over ==> deeds.len() == 1 && deeds[0]
                is End
            &&& t.stage != Stage::Over ==> forall|i: int|
                0 <= i < deeds.len() ==> !((#[trigger] deeds[i]) is End)
        }),
{
}

/// Only what the freeze gate lets through is shown, and every picture is either shown or held.
pub proof fn only_an_open_gate_shows(s: LoopState, e: HeardState)
    ensures
        ({
            let deeds = heard(s, e).1;
            let judged = awaits(s.stage, e) && e is Gated;
            &&& deeds.contains(DeedState::Ship) == (judged && e->present)
            &&& deeds.contains(DeedState::Hold) == (judged && !e->present)
        }),
{
    let deeds = heard(s, e).1;
    if awaits(s.stage, e) && e is Gated {
        let (recovery, ask) = s.pump.recovery.keyed(!e->present && !e->was_holding, e->Gated_now);
        let d1 = also(
            Seq::<DeedState>::empty(),
            e->was_holding && e->present && e->by_marks,
            DeedState::Forgive,
        );
        let d2 = also(d1, ask, DeedState::Ask(Ask::Keyframe));
        if e->present {
            assert(deeds[d2.len() as int] == DeedState::Ship);
        } else {
            assert(deeds[d2.len() as int] == DeedState::Hold);
        }
    }
}

/// How far into a turn a stage is.
pub open spec fn place(stage: Stage) -> int {
    match stage {
        Stage::Turn => 0,
        Stage::Pull => 1,
        Stage::Stamp => 2,
        Stage::Decode => 3,
        Stage::Recover => 4,
        Stage::Gate => 5,
        Stage::Fence => 6,
        Stage::Demote => 7,
        Stage::Request => 8,
        Stage::Poll => 9,
        Stage::Report => 10,
        Stage::Over => 11,
    }
}

/// A turn comes to its end: whatever a stage waited for leads to a later one or to the next
/// turn, and a unit that goes no further begins that at once, unpolled and untold.
#[verifier::spinoff_prover]
#[verifier::rlimit(40)]
pub proof fn a_turn_comes_to_its_end(s: LoopState, e: HeardState)
    requires
        awaits(s.stage, e),
    ensures
        heard(s, e).0.stage == Stage::Turn || place(heard(s, e).0.stage) > place(s.stage),
        e matches HeardState::Unit { index, complete, now, .. } ==> (heard(s, e).0.stage
            == Stage::Turn) == !s.pump.framed(index, complete, now).1.decode,
{
}

} // verus!
