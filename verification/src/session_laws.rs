//! What holds of a session's loop: what each thing it hears leads to, said over what it was told.

use vstd::prelude::*;
use crate::pump::{
    ahead, gap_of, next_index, prev_index, Ask, Pump, Recovery,
};
use crate::session::{EndReason, EventState, StopState};
use crate::session_loop::{
    heard, AccessState, DeedState, DemotionState, HeardState, LoopState, Stage,
};
use crate::video::RungLoss;
use crate::video_types::DecodeHealth;
use crate::window::{LatchGrid, WindowState};

verus! {

/// One deed where it is called for, else none.
pub open spec fn when(called_for: bool, d: DeedState) -> Seq<DeedState> {
    if called_for {
        seq![d]
    } else {
        Seq::empty()
    }
}

/// Whether an ask may go out: none went yet, or the last is a tenth of a second old.
pub open spec fn may_ask(r: Recovery, now: u64) -> bool {
    r.last_ask is None || now - r.last_ask->Some_0 >= 100_000_000
}

/// Indices run on a circle of 32 bits. A frame is missing where the one that arrives is ahead of
/// the one due by no more than half the circle, and then as many are missing as it is ahead.
pub proof fn indices_run_on_a_circle(due: u32, got: u32)
    ensures
        ahead(got, due) == (got - due) % 0x1_0000_0000,
        next_index(got) == (got + 1) % 0x1_0000_0000,
        prev_index(got) == (got - 1) % 0x1_0000_0000,
        prev_index(next_index(got)) == got,
        (gap_of(due, got) is Some) == (0 < (got - due) % 0x1_0000_0000 <= 0x7fff_ffff),
        gap_of(due, got) is Some ==> gap_of(due, got)->Some_0 == (got - due) % 0x1_0000_0000,
{
}

/// A lost range is asked for as it is, from the first lost frame to the one before the arrival,
/// and as a keyframe where it is longer than the encoder's history. While the throttle is shut
/// it is remembered, and what was remembered already stays its start.
pub proof fn a_loss_is_asked_for_whole(p: Pump, index: u32, complete: bool, now: u64)
    requires
        p.next_expected is Some,
        0 < (index - p.next_expected->Some_0) % 0x1_0000_0000 <= 0x7fff_ffff,
    ensures
        ({
            let due = p.next_expected->Some_0;
            let missing = (index - due) % 0x1_0000_0000;
            let first = match p.recovery.pending {
                Some((first, _)) => first,
                None => due,
            };
            let last = ((index - 1) % 0x1_0000_0000) as u32;
            let len = ((last - first) % 0x1_0000_0000) + 1;
            let (q, step) = p.framed(index, complete, now);
            &&& step.lost is Some && step.lost->Some_0 == missing
            &&& q.next_expected is Some && q.next_expected->Some_0 == (index + 1) % 0x1_0000_0000
            &&& may_ask(p.recovery, now) && len <= p.recovery.max_range ==> step.ask == (Ask::Rfi {
                first,
                last,
            })
            &&& may_ask(p.recovery, now) && p.recovery.max_range < len < 0x1_0000_0000 ==> step.ask
                == Ask::Keyframe
            &&& may_ask(p.recovery, now) && len == 0x1_0000_0000 ==> step.ask == (Ask::Rfi {
                first,
                last,
            })
            &&& may_ask(p.recovery, now) ==> q.recovery.pending is None && q.recovery.last_ask
                == Some(now)
            &&& !may_ask(p.recovery, now) ==> step.ask == Ask::Nothing && q.recovery.pending
                == Some((first, last)) && q.recovery.last_ask == p.recovery.last_ask
            &&& q.recovery.max_range == p.recovery.max_range && q.all_intra == p.all_intra && q.arms
                == p.arms && q.arm_order == p.arm_order
        }),
{
}

/// What reaches the decoder: the frame that is due, one ahead of it and the first of all, unless
/// a partial stands behind one already decoded; a straggler only where every unit decodes on its
/// own. None but a loss is asked for or counted.
pub proof fn what_reaches_the_decoder(p: Pump, index: u32, complete: bool, now: u64)
    ensures
        ({
            let (q, step) = p.framed(index, complete, now);
            let ahead_by = (index - p.next_expected->Some_0) % 0x1_0000_0000;
            let straggler = p.next_expected is Some && ahead_by > 0x7fff_ffff;
            let beaten = p.newest is Some && (p.newest->Some_0 - index) % 0x1_0000_0000
                <= 0x7fff_ffff;
            &&& step.decode <==> !(straggler && !p.all_intra) && (complete || !beaten)
            &&& (p.next_expected is None || ahead_by == 0 || straggler) ==> step.lost is None
                && step.ask == Ask::Nothing && q.recovery == p.recovery
            &&& p.next_expected is None || ahead_by == 0 ==> q.next_expected is Some
                && q.next_expected->Some_0 == (index + 1) % 0x1_0000_0000
            &&& straggler ==> q.next_expected == p.next_expected
            &&& !step.decode ==> q.newest == p.newest
            &&& step.decode && p.newest is None ==> q.newest == Some(index)
            &&& step.decode && p.newest is Some && (index - p.newest->Some_0) % 0x1_0000_0000
                <= 0x7fff_ffff ==> q.newest == Some(index)
            &&& step.decode && p.newest is Some && (index - p.newest->Some_0) % 0x1_0000_0000
                > 0x7fff_ffff ==> q.newest == p.newest
        }),
{
}

/// A reason for a keyframe asks for one where the throttle is open, and closes it; otherwise
/// nothing changes. A remembered range goes out alone where the throttle is open, and is
/// forgotten then. The freeze's own alarm asks for a keyframe, which covers that range too.
pub proof fn an_ask_needs_a_reason_and_an_open_throttle(p: Pump, wanted: bool, now: u64)
    ensures
        ({
            let (r, asked) = p.recovery.keyed(wanted, now);
            &&& asked == (wanted && may_ask(p.recovery, now))
            &&& asked ==> r.last_ask == Some(now) && r.pending == p.recovery.pending && r.max_range
                == p.recovery.max_range
            &&& !asked ==> r == p.recovery
        }),
        ({
            let (q, ask) = p.polled(wanted, now);
            &&& wanted && may_ask(p.recovery, now) ==> ask == Ask::Keyframe && q.recovery.pending
                is None && q.recovery.last_ask == Some(now)
            &&& !may_ask(p.recovery, now) ==> ask == Ask::Nothing && q == p
            &&& !wanted && p.recovery.pending is None ==> ask == Ask::Nothing && q == p
            &&& !wanted && may_ask(p.recovery, now) ==> (p.recovery.pending matches Some((
                first,
                last,
            )) ==> q.recovery.pending is None && q.recovery.last_ask == Some(now) && ((last - first)
                % 0x1_0000_0000 + 1 <= p.recovery.max_range ==> ask == (Ask::Rfi { first, last }))
                && (p.recovery.max_range < (last - first) % 0x1_0000_0000 + 1 < 0x1_0000_0000
                ==> ask == Ask::Keyframe) && ((last - first) % 0x1_0000_0000 == 0xffff_ffff ==> ask
                == (Ask::Rfi { first, last })))
            &&& q.next_expected == p.next_expected && q.newest == p.newest && q.all_intra
                == p.all_intra && q.arms == p.arms && q.arm_order == p.arm_order
                && q.recovery.max_range == p.recovery.max_range
        }),
{
}

/// A turn: a stop ends the session. Otherwise a mode switch whose seconds have passed is asked
/// for, once; the microphone stops where its grant or its switch is gone and starts where both
/// are there; a change of grants is told; and a unit is waited for.
pub proof fn a_turn_does_what_is_due(s: LoopState, stop: bool, elapsed: u64, access: Option<AccessState>)
    requires
        s.stage == Stage::Turn,
    ensures
        ({
            let (t, deeds) = heard(s, HeardState::Turn { stop, elapsed, access });
            let due = s.reconfigure is Some && elapsed >= s.reconfigure->Some_0.1 * 1_000_000_000;
            let a = access->Some_0;
            let mic_ends = access is Some && s.mic_running && !(s.mic_enabled && a.mic);
            let mic_starts = access is Some && !s.mic_running && s.mic_enabled && a.mic;
            &&& stop ==> t.stage == Stage::Over && deeds == seq![DeedState::End(StopState::Asked)]
            &&& !stop ==> {
                &&& t.stage == Stage::Pull
                &&& t.reconfigure == (if due {
                    None
                } else {
                    s.reconfigure
                })
                &&& t.mic_running == (s.mic_running && !mic_ends)
                &&& deeds == when(due, DeedState::RequestMode(s.reconfigure->Some_0.0)) + when(
                    mic_ends,
                    DeedState::StopMic,
                ) + when(mic_starts, DeedState::StartMic) + when(
                    access is Some,
                    DeedState::Tell(EventState::Access { grants: a.grants, notice: a.notice }),
                )
                &&& t.pump == s.pump && t.window == s.window && t.path == s.path
            }
        }),
{
    let (t, deeds) = heard(s, HeardState::Turn { stop, elapsed, access });
    let due = s.reconfigure is Some && elapsed >= s.reconfigure->Some_0.1 * 1_000_000_000;
    let a = access->Some_0;
    let mic_ends = access is Some && s.mic_running && !(s.mic_enabled && a.mic);
    let mic_starts = access is Some && !s.mic_running && s.mic_enabled && a.mic;
    if !stop {
        assert(deeds =~= when(due, DeedState::RequestMode(s.reconfigure->Some_0.0)) + when(
            mic_ends,
            DeedState::StopMic,
        ) + when(mic_starts, DeedState::StartMic) + when(
            access is Some,
            DeedState::Tell(EventState::Access { grants: a.grants, notice: a.notice }),
        ));
    }
}

/// A unit that arrives is stamped with its own arrival, or with the moment it was pulled where
/// it has none; the stamp is kept for the phase report where one is made, up to 256 a window;
/// a loss arms the freeze for as many late drops as frames are missing before anything is asked.
pub proof fn an_arrival_is_stamped_and_its_loss_told(
    s: LoopState,
    index: u32,
    complete: bool,
    stamp_ns: u64,
    pulled_ns: u64,
    now: u64,
)
    requires
        s.stage == Stage::Pull,
    ensures
        ({
            let (t, deeds) = heard(
                s,
                HeardState::Unit { index, complete, stamp_ns, pulled_ns, now },
            );
            let (q, step) = s.pump.framed(index, complete, now);
            &&& stamp_ns != 0 ==> t.received_ns == stamp_ns
            &&& stamp_ns == 0 ==> t.received_ns == pulled_ns
            &&& s.phase_lock && s.window.arrivals.len() < 256 ==> t.window.arrivals
                == s.window.arrivals.push(t.received_ns)
            &&& !s.phase_lock || s.window.arrivals.len() >= 256 ==> t.window == s.window
            &&& t.window.start == s.window.start && t.window.fence_sampled
                == s.window.fence_sampled
            &&& t.pump == q
            &&& step.decode ==> t.stage == Stage::Stamp
            &&& !step.decode ==> t.stage == Stage::Turn
            &&& deeds == when(step.lost is Some, DeedState::ExpectDrops(step.lost->Some_0)) + when(
                step.ask != Ask::Nothing,
                DeedState::Ask(step.ask),
            )
        }),
{
    let (t, deeds) = heard(s, HeardState::Unit { index, complete, stamp_ns, pulled_ns, now });
    let (q, step) = s.pump.framed(index, complete, now);
    assert(deeds =~= when(step.lost is Some, DeedState::ExpectDrops(step.lost->Some_0)) + when(
        step.ask != Ask::Nothing,
        DeedState::Ask(step.ask),
    ));
}

/// A quiet wait goes on to the losses; a closed connection and a broken one end the session,
/// each with its own reason.
pub proof fn a_connection_that_ends_ends_the_session(
    s: LoopState,
    reject: Option<Seq<char>>,
    reason: EndReason,
    loss: RungLoss,
)
    ensures
        s.stage == Stage::Pull ==> {
            &&& heard(s, HeardState::NoUnit) == (
                LoopState { stage: Stage::Poll, ..s },
                Seq::<DeedState>::empty(),
            )
            &&& heard(s, HeardState::Closed { reject, reason }).1 == seq![
                DeedState::End(StopState::Closed { reject, reason }),
            ]
            &&& heard(s, HeardState::Broken).1 == seq![DeedState::End(StopState::Broken)]
        },
        s.stage == Stage::Decode ==> heard(s, HeardState::Exhausted(loss)).1 == seq![
            DeedState::End(StopState::Exhausted(loss)),
        ],
{
}

/// The decode order of the newest picture is noted where the freeze was armed since the last
/// unit, and stays where it was not.
pub proof fn an_arm_is_stamped_once(s: LoopState, arms: u64, decode_order: u64)
    requires
        s.stage == Stage::Stamp,
    ensures
        ({
            let (t, deeds) = heard(s, HeardState::Stamped { arms, decode_order });
            &&& t.stage == Stage::Decode && deeds.len() == 0
            &&& arms != s.pump.arms ==> t.pump.arm_order == decode_order && t.pump.arms == arms
            &&& arms == s.pump.arms ==> t.pump.arm_order == s.pump.arm_order
            &&& t.pump.recovery == s.pump.recovery && t.pump.newest == s.pump.newest
                && t.pump.next_expected == s.pump.next_expected
        }),
{
}

/// A picture's own recovery point is offered to the freeze where the picture was decoded after
/// the order stamped at the last arm, or has no order at all, and withheld where it was decoded
/// by then.
pub proof fn only_a_later_picture_heals(
    s: LoopState,
    arms: u64,
    stamp: u64,
    order: Option<u64>,
    path: Seq<char>,
    has_fence: bool,
)
    requires
        s.stage == Stage::Stamp,
        arms != s.pump.arms,
    ensures
        ({
            let armed = heard(s, HeardState::Stamped { arms, decode_order: stamp }).0;
            let (t, deeds) = heard(armed, HeardState::Picture { order, path, has_fence });
            &&& order is Some && order->Some_0 > stamp ==> deeds == seq![
                DeedState::OfferRecovery { own: true },
            ]
            &&& order is Some && order->Some_0 <= stamp ==> deeds == seq![
                DeedState::OfferRecovery { own: false },
            ]
            &&& order is None ==> deeds == seq![DeedState::OfferRecovery { own: true }]
            &&& t.stage == Stage::Recover && t.path == path && t.has_fence == has_fence && t.pump
                == armed.pump
        }),
{
}

/// The same over the stamp that stands, whenever it was made.
pub proof fn the_standing_stamp_decides(
    s: LoopState,
    order: u64,
    path: Seq<char>,
    has_fence: bool,
)
    requires
        s.stage == Stage::Decode,
    ensures
        ({
            let deeds = heard(s, HeardState::Picture { order: Some(order), path, has_fence }).1;
            &&& deeds.len() == 1
            &&& deeds[0] == (DeedState::OfferRecovery { own: true }) <==> order > s.pump.arm_order
            &&& deeds[0] == (DeedState::OfferRecovery { own: false }) <==> order
                <= s.pump.arm_order
        }),
{
}

/// A unit without a picture asks for a keyframe where the streak tripped and the throttle is
/// open; a freeze that the picture's own recovery point lifted makes the decoder forget its
/// damaged chain.
pub proof fn no_picture_asks_and_a_lift_forgives(s: LoopState, flag: bool, now: u64)
    ensures
        s.stage == Stage::Decode ==> {
            let (t, deeds) = heard(s, HeardState::NoPicture { tripped: flag, now });
            &&& t.stage == Stage::Demote
            &&& deeds == when(
                flag && may_ask(s.pump.recovery, now),
                DeedState::Ask(Ask::Keyframe),
            )
            &&& t.pump.recovery.last_ask == (if flag && may_ask(s.pump.recovery, now) {
                Some(now)
            } else {
                s.pump.recovery.last_ask
            })
        },
        s.stage == Stage::Recover ==> {
            let (t, deeds) = heard(s, HeardState::Recovered { lifted: flag });
            &&& t == (LoopState { stage: Stage::Gate, ..s })
            &&& deeds == when(flag, DeedState::Forgive)
        },
{
    if s.stage == Stage::Decode {
        assert(heard(s, HeardState::NoPicture { tripped: flag, now }).1 =~= when(
            flag && may_ask(s.pump.recovery, now),
            DeedState::Ask(Ask::Keyframe),
        ));
    }
    if s.stage == Stage::Recover {
        assert(heard(s, HeardState::Recovered { lifted: flag }).1 =~= when(
            flag,
            DeedState::Forgive,
        ));
    }
}

/// Microseconds a stage took; none where the clock stepped back.
pub open spec fn took(from_ns: u64, to_ns: u64) -> int {
    if to_ns > from_ns {
        (to_ns - from_ns) / 1000
    } else {
        0
    }
}

/// A picture the freeze judged: it is forgiven where intra refresh lifted the freeze; one held
/// where nothing was held asks for a keyframe; it is shown or held; and its decode is timed at
/// once, or once a window when the hardware is done. Bitrate control hears of every picture.
pub proof fn a_judged_picture_goes_on(
    s: LoopState,
    was_holding: bool,
    present: bool,
    by_marks: bool,
    now: u64,
    decoded_ns: u64,
)
    requires
        s.stage == Stage::Gate,
    ensures
        ({
            let e = HeardState::Gated { was_holding, present, by_marks, now, decoded_ns };
            let (t, deeds) = heard(s, e);
            let asks = !present && !was_holding && may_ask(s.pump.recovery, now);
            let waits = s.has_fence && !s.window.fence_sampled;
            let us = took(s.received_ns, decoded_ns);
            &&& deeds == when(was_holding && present && by_marks, DeedState::Forgive) + when(
                asks,
                DeedState::Ask(Ask::Keyframe),
            ) + when(present, DeedState::Ship) + when(!present, DeedState::Hold) + when(
                !s.has_fence,
                DeedState::NoteDecode { us, fence: false },
            ) + when(
                s.wants_decode && !waits,
                DeedState::ReportDecode(
                    (if us > 0xffff_ffff {
                        0xffff_ffff
                    } else {
                        us
                    }) as u32,
                ),
            )
            &&& t.stage == (if waits {
                Stage::Fence
            } else {
                Stage::Demote
            })
            &&& t.decoded_ns == decoded_ns && t.received_ns == s.received_ns && t.window
                == s.window
            &&& t.pump.recovery.last_ask == (if asks {
                Some(now)
            } else {
                s.pump.recovery.last_ask
            })
        }),
{
    let e = HeardState::Gated { was_holding, present, by_marks, now, decoded_ns };
    let (t, deeds) = heard(s, e);
    let asks = !present && !was_holding && may_ask(s.pump.recovery, now);
    let waits = s.has_fence && !s.window.fence_sampled;
    let us = took(s.received_ns, decoded_ns);
    assert(us == crate::window::elapsed_us(s.received_ns, decoded_ns));
    assert(deeds =~= when(was_holding && present && by_marks, DeedState::Forgive) + when(
        asks,
        DeedState::Ask(Ask::Keyframe),
    ) + when(present, DeedState::Ship) + when(!present, DeedState::Hold) + when(
        !s.has_fence,
        DeedState::NoteDecode { us, fence: false },
    ) + when(
        s.wants_decode && !waits,
        DeedState::ReportDecode(
            (if us > 0xffff_ffff {
                0xffff_ffff
            } else {
                us
            }) as u32,
        ),
    ));
}

/// A wait for the hardware gives one sample a window, timed to the end of the wait; bitrate
/// control still hears the time to submission.
pub proof fn a_wait_gives_one_sample(s: LoopState, decoded: bool, now_ns: u64)
    requires
        s.stage == Stage::Fence,
    ensures
        ({
            let (t, deeds) = heard(s, HeardState::Fenced { decoded, now_ns });
            let us = took(s.received_ns, s.decoded_ns);
            &&& t.stage == Stage::Demote
            &&& t.window == (WindowState {
                fence_sampled: s.window.fence_sampled || decoded,
                ..s.window
            })
            &&& deeds == when(
                decoded,
                DeedState::NoteDecode { us: took(s.received_ns, now_ns), fence: true },
            ) + when(
                s.wants_decode,
                DeedState::ReportDecode(
                    (if us > 0xffff_ffff {
                        0xffff_ffff
                    } else {
                        us
                    }) as u32,
                ),
            )
        }),
{
    let (t, deeds) = heard(s, HeardState::Fenced { decoded, now_ns });
    let us = took(s.received_ns, s.decoded_ns);
    assert(us == crate::window::elapsed_us(s.received_ns, s.decoded_ns));
    assert(took(s.received_ns, now_ns) == crate::window::elapsed_us(s.received_ns, now_ns));
    assert(deeds =~= when(
        decoded,
        DeedState::NoteDecode { us: took(s.received_ns, now_ns), fence: true },
    ) + when(
        s.wants_decode,
        DeedState::ReportDecode(
            (if us > 0xffff_ffff {
                0xffff_ffff
            } else {
                us
            }) as u32,
        ),
    ));
}

/// A decoder that cannot be rebuilt ends the session. One that wants a keyframe arms the freeze
/// unless it holds already, and asks where the throttle is open. The freeze's look at the losses
/// sends what is owed.
pub proof fn a_decoder_in_need_is_heard(
    s: LoopState,
    why: Seq<char>,
    requested: bool,
    holding: bool,
    now: u64,
)
    ensures
        s.stage == Stage::Demote ==> {
            &&& heard(s, HeardState::Demoted(DemotionState::Failed(why))).1 == seq![
                DeedState::End(StopState::Rebuild(why)),
            ]
            &&& heard(s, HeardState::Demoted(DemotionState::Done)) == (
                LoopState { stage: Stage::Request, ..s },
                Seq::<DeedState>::empty(),
            )
            &&& heard(s, HeardState::Demoted(DemotionState::NotAsked)) == (
                LoopState { stage: Stage::Request, ..s },
                Seq::<DeedState>::empty(),
            )
        },
        s.stage == Stage::Request ==> {
            let (t, deeds) = heard(s, HeardState::Requested { requested, holding, now });
            let asks = requested && may_ask(s.pump.recovery, now);
            &&& t.stage == Stage::Poll
            &&& deeds == when(requested && !holding, DeedState::Arm) + when(
                asks,
                DeedState::Ask(Ask::Keyframe),
            )
            &&& t.pump.recovery.last_ask == (if asks {
                Some(now)
            } else {
                s.pump.recovery.last_ask
            })
        },
        s.stage == Stage::Poll ==> {
            let (t, deeds) = heard(s, HeardState::Polled { tripped: requested, now });
            let (q, ask) = s.pump.polled(requested, now);
            &&& t == (LoopState { stage: Stage::Report, pump: q, ..s })
            &&& deeds == when(ask != Ask::Nothing, DeedState::Ask(ask))
        },
{
    if s.stage == Stage::Request {
        assert(heard(s, HeardState::Requested { requested, holding, now }).1 =~= when(
            requested && !holding,
            DeedState::Arm,
        ) + when(requested && may_ask(s.pump.recovery, now), DeedState::Ask(Ask::Keyframe)));
    }
    if s.stage == Stage::Poll {
        let (q, ask) = s.pump.polled(requested, now);
        assert(heard(s, HeardState::Polled { tripped: requested, now }).1 =~= when(
            ask != Ask::Nothing,
            DeedState::Ask(ask),
        ));
    }
}

/// Once a second the window is told and begins anew: the pinned bitrate that cannot be kept,
/// once a session; a launch verdict, once each; the phase, where it is locked, the grid known
/// and at least eight units arrived; and always the path of the last picture with its counters.
pub proof fn a_window_is_told_once_a_second(
    s: LoopState,
    now: u64,
    pin_kbps: u32,
    launch: Option<u32>,
    launch_line: Option<Seq<char>>,
    grid: LatchGrid,
    health: Option<DecodeHealth>,
)
    requires
        s.stage == Stage::Report,
    ensures
        ({
            let e = HeardState::Reported { now, pin_kbps, launch, launch_line, grid, health };
            let (t, deeds) = heard(s, e);
            let pin_new = pin_kbps != 0 && !s.window.pin_noticed;
            let launch_new = launch is Some && launch != s.window.launch_told && launch_line is Some;
            let phase = s.phase_lock && grid.period_ns > 0 && grid.anchor_ns > 0
                && s.window.arrivals.len() >= 8;
            &&& t.stage == Stage::Turn && t.pump == s.pump
            &&& now - s.window.start < 1_000_000_000 ==> deeds.len() == 0 && t.window == s.window
            &&& now - s.window.start >= 1_000_000_000 ==> {
                &&& t.window.start == now && !t.window.fence_sampled && t.window.arrivals.len() == 0
                &&& t.window.pin_noticed == (s.window.pin_noticed || pin_kbps != 0)
                &&& t.window.launch_told == (if launch is Some {
                    launch
                } else {
                    s.window.launch_told
                })
                &&& deeds.len() == 1 + (if pin_new {
                    1int
                } else {
                    0
                }) + (if launch_new {
                    1int
                } else {
                    0
                }) + (if phase {
                    1int
                } else {
                    0
                })
                &&& deeds.last() == DeedState::Tell(
                    EventState::DecodeFacts { decoder: s.path, health },
                )
                &&& pin_new ==> deeds[0] is Tell && deeds[0]->Tell_0 is Notice
                &&& launch_new ==> deeds.contains(
                    DeedState::Tell(EventState::Notice(launch_line->Some_0)),
                )
                &&& phase ==> deeds[deeds.len() - 2] is Phase && deeds[deeds.len()
                    - 2]->Phase_grid == grid && deeds[deeds.len() - 2]->leads.len()
                    == s.window.arrivals.len() && forall|i: int|
                    0 <= i < s.window.arrivals.len() ==> (#[trigger] deeds[deeds.len()
                        - 2]->leads[i]) == ((grid.anchor_ns - s.window.arrivals[i]) % (
                    grid.period_ns as int)) / 1000
            }
        }),
{
    let e = HeardState::Reported { now, pin_kbps, launch, launch_line, grid, health };
    let (t, deeds) = heard(s, e);
    let pin_new = pin_kbps != 0 && !s.window.pin_noticed;
    let launch_new = launch is Some && launch != s.window.launch_told && launch_line is Some;
    if now - s.window.start >= 1_000_000_000 && launch_new {
        let i = if pin_new {
            1int
        } else {
            0
        };
        assert(deeds[i] == DeedState::Tell(EventState::Notice(launch_line->Some_0)));
    }
}

} // verus!
