//! The session loop, turn by turn.

use pf_client_core::pump::{Ask, ASK_SPACING_NS, WINDOW_NS};
use pf_client_core::session::{EndReason, Mode, PumpStop, SessionEvent};
use pf_client_core::session_loop::{AccessUpdate, Deed, Demotion, Heard, SessionLoop, Stage};
use pf_client_core::video::RungLoss;
use pf_client_core::window::LatchGrid;

fn begin(phase_lock: bool) -> SessionLoop {
    let mode = Mode {
        width: 1280,
        height: 720,
        refresh_hz: 60,
    };
    SessionLoop::new(false, 0, 16, 0, Some((mode, 3)), phase_lock, true, true, false)
}

fn turn(l: &mut SessionLoop) {
    let deeds = l.hear(Heard::Turn {
        stop: false,
        elapsed: 0,
        access: None,
    });
    assert!(deeds.is_empty());
    assert_eq!(l.stage, Stage::Pull);
}

fn unit(index: u32, now: u64) -> Heard {
    Heard::Unit {
        index,
        complete: true,
        stamp_ns: 0,
        pulled_ns: 1_000_000,
        now,
    }
}

fn report(l: &mut SessionLoop, now: u64) -> Vec<Deed> {
    l.hear(Heard::Reported {
        now,
        pin_kbps: 50_000,
        launch: Some(7),
        launch_line: Some("It started".into()),
        grid: LatchGrid {
            anchor_ns: 10_000_000,
            period_ns: 8_000_000,
        },
        health: None,
    })
}

/// A unit that decodes to a picture, up to the freeze's verdict.
fn picture(l: &mut SessionLoop, index: u32, now: u64, has_fence: bool, present: bool) -> Vec<Deed> {
    turn(l);
    assert!(l.hear(unit(index, now)).is_empty());
    assert!(l
        .hear(Heard::Stamped {
            arms: 0,
            decode_order: 0
        })
        .is_empty());
    let offered = l.hear(Heard::Picture {
        order: None,
        path: "native-vulkan",
        has_fence,
    });
    assert!(matches!(offered[..], [Deed::OfferRecovery { own: true }]));
    assert!(l.hear(Heard::Recovered { lifted: false }).is_empty());
    l.hear(Heard::Gated {
        was_holding: false,
        present,
        by_marks: false,
        now,
        decoded_ns: 3_000_000,
    })
}

fn finish(l: &mut SessionLoop, now: u64) -> Vec<Deed> {
    assert!(l.hear(Heard::Demoted(Demotion::NotAsked)).is_empty());
    assert!(l
        .hear(Heard::Requested {
            requested: false,
            holding: false,
            now
        })
        .is_empty());
    l.hear(Heard::Polled {
        tripped: false,
        now,
    })
}

#[test]
fn a_picture_is_shown_timed_and_reported() {
    let mut l = begin(false);
    let deeds = picture(&mut l, 1, 5, false, true);
    assert!(matches!(
        deeds[..],
        [
            Deed::Ship,
            Deed::NoteDecode {
                us: 2_000,
                fence: false
            },
            Deed::ReportDecode(2_000)
        ]
    ));
    assert!(finish(&mut l, 5).is_empty());
    assert!(report(&mut l, 6).is_empty(), "the window is young");
    assert_eq!(l.stage, Stage::Turn);
}

#[test]
fn hardware_is_waited_for_once_a_window() {
    let mut l = begin(false);
    let deeds = picture(&mut l, 1, 5, true, true);
    assert!(matches!(deeds[..], [Deed::Ship]));
    assert_eq!(l.stage, Stage::Fence);
    let deeds = l.hear(Heard::Fenced {
        decoded: true,
        now_ns: 6_000_000,
    });
    assert!(matches!(
        deeds[..],
        [
            Deed::NoteDecode {
                us: 5_000,
                fence: true
            },
            Deed::ReportDecode(2_000)
        ]
    ));
    finish(&mut l, 5);
    report(&mut l, 6);
    let deeds = picture(&mut l, 2, 7, true, true);
    assert!(matches!(deeds[..], [Deed::Ship, Deed::ReportDecode(2_000)]));
    assert_eq!(l.stage, Stage::Demote);
}

#[test]
fn a_picture_the_gate_holds_back_asks_for_a_keyframe_at_once() {
    let mut l = begin(false);
    let deeds = picture(&mut l, 1, 5, false, false);
    assert!(matches!(deeds[0], Deed::Ask(Ask::Keyframe)));
    assert!(matches!(deeds[1], Deed::Hold));
    // The throttle is spent: the decoder's own request arms, and asks nothing.
    l.hear(Heard::Demoted(Demotion::Done));
    let deeds = l.hear(Heard::Requested {
        requested: true,
        holding: false,
        now: 6,
    });
    assert!(matches!(deeds[..], [Deed::Arm]));
    let deeds = l.hear(Heard::Polled {
        tripped: true,
        now: 5 + ASK_SPACING_NS,
    });
    assert!(matches!(deeds[..], [Deed::Ask(Ask::Keyframe)]));
}

#[test]
fn a_gap_arms_the_freeze_and_asks_for_the_range() {
    let mut l = begin(false);
    picture(&mut l, 1, 5, false, true);
    finish(&mut l, 5);
    report(&mut l, 5);
    turn(&mut l);
    let deeds = l.hear(unit(4, 9));
    assert!(matches!(
        deeds[..],
        [
            Deed::ExpectDrops(2),
            Deed::Ask(Ask::Rfi { first: 2, last: 3 })
        ]
    ));
    assert_eq!(l.stage, Stage::Stamp);
    // A picture decoded before the freeze cannot lift it.
    l.hear(Heard::Stamped {
        arms: 1,
        decode_order: 40,
    });
    let offered = l.hear(Heard::Picture {
        order: Some(40),
        path: "native-vulkan",
        has_fence: false,
    });
    assert!(matches!(offered[..], [Deed::OfferRecovery { own: false }]));
    let deeds = l.hear(Heard::Recovered { lifted: true });
    assert!(matches!(deeds[..], [Deed::Forgive]));
    let deeds = l.hear(Heard::Gated {
        was_holding: true,
        present: true,
        by_marks: true,
        now: 10,
        decoded_ns: 0,
    });
    assert!(matches!(deeds[..2], [Deed::Forgive, Deed::Ship]));
    finish(&mut l, 10);
    report(&mut l, 10);
    // A straggler ends the turn at once.
    turn(&mut l);
    assert!(l.hear(unit(2, 11)).is_empty());
    assert_eq!(l.stage, Stage::Turn);
}

#[test]
fn a_silent_decoder_asks_only_when_its_streak_is_long() {
    let mut l = begin(false);
    for (tripped, asks) in [(false, 0), (true, 1)] {
        turn(&mut l);
        l.hear(unit(1 + u32::from(tripped), 5));
        l.hear(Heard::Stamped {
            arms: 0,
            decode_order: 0,
        });
        let deeds = l.hear(Heard::NoPicture { tripped, now: 5 });
        assert_eq!(deeds.len(), asks);
        finish(&mut l, 5);
        report(&mut l, 5);
    }
}

#[test]
fn the_microphone_follows_its_grant_before_the_client_hears_of_it() {
    let mut l = begin(false);
    let access = |mic: bool| {
        Some(AccessUpdate {
            grants: 3,
            mic,
            notice: None,
        })
    };
    let deeds = l.hear(Heard::Turn {
        stop: false,
        elapsed: 0,
        access: access(true),
    });
    assert!(matches!(
        deeds[..],
        [
            Deed::StartMic,
            Deed::Tell(SessionEvent::Access { grants: 3, .. })
        ]
    ));
    l.mic_started(true);
    l.hear(Heard::NoUnit);
    l.hear(Heard::Polled {
        tripped: false,
        now: 0,
    });
    report(&mut l, 0);
    let deeds = l.hear(Heard::Turn {
        stop: false,
        elapsed: 3_000_000_000,
        access: access(false),
    });
    assert!(matches!(
        deeds[..],
        [Deed::RequestMode(_), Deed::StopMic, Deed::Tell(_)]
    ));
    assert!(!l.mic_running);
    assert!(l.reconfigure.is_none(), "a switch is made once");
}

#[test]
fn a_window_says_what_was_not_said_yet() {
    let mut l = begin(true);
    for i in 0..8 {
        picture(&mut l, i, 5, false, true);
        finish(&mut l, 5);
        report(&mut l, 5);
    }
    turn(&mut l);
    l.hear(Heard::NoUnit);
    l.hear(Heard::Polled {
        tripped: false,
        now: 6,
    });
    let deeds = report(&mut l, WINDOW_NS);
    let [Deed::Tell(SessionEvent::Notice(pin)), Deed::Tell(SessionEvent::Notice(launch)), Deed::Phase { leads, .. }, Deed::Tell(SessionEvent::DecodeFacts(facts))] =
        &deeds[..]
    else {
        panic!("{deeds:?}");
    };
    assert!(pin.contains("pinned 50 Mbps"));
    assert_eq!(launch, "It started");
    assert_eq!(leads, &[1_000; 8]);
    assert_eq!(facts.decoder, "native-vulkan");
    turn(&mut l);
    l.hear(Heard::NoUnit);
    l.hear(Heard::Polled {
        tripped: false,
        now: 6,
    });
    assert_eq!(report(&mut l, 2 * WINDOW_NS).len(), 1, "only the decoder's facts");
}

#[test]
fn a_session_ends_once_and_says_why() {
    let mut l = begin(false);
    let deeds = l.hear(Heard::Turn {
        stop: true,
        elapsed: 0,
        access: None,
    });
    assert!(matches!(deeds[..], [Deed::End(PumpStop::Asked)]));
    assert_eq!(l.stage, Stage::Over);
    assert!(l.hear(Heard::NoUnit).is_empty());

    let mut l = begin(false);
    turn(&mut l);
    let deeds = l.hear(Heard::Closed {
        reject: None,
        reason: EndReason::Lost,
    });
    assert!(matches!(
        deeds[..],
        [Deed::End(PumpStop::Closed {
            reason: EndReason::Lost,
            ..
        })]
    ));

    let mut l = begin(false);
    turn(&mut l);
    assert!(matches!(l.hear(Heard::Broken)[..], [Deed::End(PumpStop::Broken)]));

    let mut l = begin(false);
    turn(&mut l);
    l.hear(unit(1, 5));
    l.hear(Heard::Stamped {
        arms: 0,
        decode_order: 0,
    });
    let deeds = l.hear(Heard::Exhausted(RungLoss::Codec));
    assert!(matches!(
        deeds[..],
        [Deed::End(PumpStop::Exhausted(RungLoss::Codec))]
    ));

    let mut l = begin(false);
    picture(&mut l, 1, 5, false, true);
    let deeds = l.hear(Heard::Demoted(Demotion::Failed("no".into())));
    assert!(matches!(&deeds[..], [Deed::End(PumpStop::Rebuild(e))] if e == "no"));
}
