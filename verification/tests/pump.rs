//! The video pump and its once-a-second window.

use pf_client_core::pump::{
    index_gap, Arrival, Ask, FrameStep, GateStep, Pump, Recovery, RequestStep, ASK_SPACING_NS,
    WINDOW_NS,
};
use pf_client_core::window::{
    phase_report, received_stamp, reported_decode_us, stage_us, LatchGrid, PhaseReport, Window,
};

const S: u64 = 1_000_000_000;

fn fed(pump: &mut Pump, index: u32, now: u64) -> FrameStep {
    pump.on_frame(index, true, now)
}

#[test]
fn a_gap_is_counted_over_the_wrap_and_a_straggler_is_none() {
    assert_eq!(index_gap(5, 8), Some(3));
    assert_eq!(index_gap(5, 5), None);
    assert_eq!(index_gap(5, 4), None);
    assert_eq!(index_gap(u32::MAX, 1), Some(2));
    assert_eq!(index_gap(0, 0x7fff_ffff), Some(0x7fff_ffff));
    assert_eq!(index_gap(0, 0x8000_0000), None);
}

#[test]
fn an_unbroken_stream_asks_for_nothing() {
    let mut p = Pump::new(false, 0, 64);
    for i in [u32::MAX - 1, u32::MAX, 0, 1] {
        assert_eq!(
            fed(&mut p, i, S),
            FrameStep {
                lost: None,
                ask: Ask::Nothing,
                decode: true
            }
        );
    }
    assert_eq!(p.newest, Some(1));
}

#[test]
fn a_lost_frame_is_asked_for_and_a_second_loss_waits_for_the_throttle() {
    let mut p = Pump::new(false, 0, 64);
    fed(&mut p, 10, S);
    assert_eq!(
        fed(&mut p, 13, S),
        FrameStep {
            lost: Some(2),
            ask: Ask::Rfi {
                first: 11,
                last: 12
            },
            decode: true
        }
    );
    // Inside the throttle: remembered, not sent.
    assert_eq!(
        fed(&mut p, 15, S + 10),
        FrameStep {
            lost: Some(1),
            ask: Ask::Nothing,
            decode: true
        }
    );
    assert_eq!(
        fed(&mut p, 18, S + 20),
        FrameStep {
            lost: Some(2),
            ask: Ask::Nothing,
            decode: true
        }
    );
    // One ask covers the burst from its oldest loss on.
    assert_eq!(p.on_poll(false, S + ASK_SPACING_NS - 1), Ask::Nothing);
    assert_eq!(
        p.on_poll(false, S + ASK_SPACING_NS),
        Ask::Rfi {
            first: 14,
            last: 17
        }
    );
    assert_eq!(p.on_poll(false, S + 3 * ASK_SPACING_NS), Ask::Nothing);
}

#[test]
fn a_loss_wider_than_the_history_is_a_keyframe() {
    let mut p = Pump::new(false, 0, 4);
    fed(&mut p, 0, S);
    assert_eq!(
        fed(&mut p, 5, S).ask,
        Ask::Rfi { first: 1, last: 4 },
        "four frames still fit"
    );
    let mut p = Pump::new(false, 0, 4);
    fed(&mut p, 0, S);
    assert_eq!(fed(&mut p, 6, S).ask, Ask::Keyframe);
}

#[test]
fn a_straggler_is_skipped_unless_every_unit_stands_alone() {
    let mut p = Pump::new(false, 0, 64);
    fed(&mut p, 10, S);
    assert_eq!(p.on_arrival(9, S), Arrival::Skip);
    assert_eq!(p.next_expected, Some(11), "the real gap still shows");
    let mut q = Pump::new(true, 0, 64);
    fed(&mut q, 10, S);
    assert_eq!(q.on_arrival(9, S), Arrival::Decode);
}

#[test]
fn a_late_partial_loses_to_a_newer_frame() {
    let mut p = Pump::new(true, 0, 64);
    assert!(p.on_frame(10, false, S).decode, "the first of all");
    assert!(p.on_frame(11, true, S).decode);
    assert!(!p.on_frame(11, false, S).decode);
    assert!(!p.on_frame(9, false, S).decode);
    assert!(p.on_frame(9, true, S).decode, "complete ones pass");
    assert_eq!(p.newest, Some(11), "and do not move the bar back");
}

#[test]
fn every_ask_shares_one_throttle() {
    let mut p = Pump::new(false, 0, 64);
    assert!(p.on_no_output(true, S));
    assert!(!p.on_no_output(true, S + 1));
    assert_eq!(
        p.on_decoder_request(true, false, S + 2),
        RequestStep {
            arm: true,
            ask_keyframe: false
        }
    );
    assert_eq!(
        p.on_gate(false, false, false, S + ASK_SPACING_NS),
        GateStep {
            forgive: false,
            ask_keyframe: true
        }
    );
    assert_eq!(p.on_poll(true, S + ASK_SPACING_NS + 1), Ask::Nothing);
    assert_eq!(p.on_poll(true, S + 2 * ASK_SPACING_NS), Ask::Keyframe);
}

#[test]
fn a_keyframe_repairs_what_a_range_would_have_named() {
    let mut p = Pump::new(false, 0, 64);
    fed(&mut p, 1, S);
    p.recovery.last_ask = Some(S);
    fed(&mut p, 4, S + 1);
    assert_eq!(p.recovery.pending, Some((2, 3)));
    assert_eq!(p.on_poll(true, S + ASK_SPACING_NS), Ask::Keyframe);
    assert_eq!(p.recovery.pending, None);
}

#[test]
fn marks_are_forgiven_only_when_they_lifted_a_freeze() {
    let mut p = Pump::new(false, 0, 64);
    assert!(p.on_gate(true, true, true, S).forgive);
    assert!(!p.on_gate(true, true, false, S).forgive);
    assert!(!p.on_gate(false, true, true, S).forgive);
    assert!(!p.on_gate(true, false, true, S).ask_keyframe, "already held");
    assert!(!p.on_decoder_request(true, true, S).arm, "already held");
}

#[test]
fn a_recovery_from_before_the_loss_does_not_count() {
    let mut p = Pump::new(false, 3, 64);
    p.note_arms(3, 50);
    assert!(p.local_recovery_counts(Some(1)));
    p.note_arms(4, 50);
    assert!(!p.local_recovery_counts(Some(50)));
    assert!(p.local_recovery_counts(Some(51)));
    assert!(p.local_recovery_counts(None));
}

#[test]
fn the_throttle_opens_after_its_spacing() {
    let mut r = Recovery {
        pending: Some((1, 1)),
        last_ask: Some(S),
        max_range: 8,
    };
    assert!(!r.is_open(S + ASK_SPACING_NS - 1));
    assert!(r.is_open(S + ASK_SPACING_NS));
    assert!(!r.is_open(S - 1), "a clock that stepped back keeps it shut");
    assert_eq!(r.flush(S + ASK_SPACING_NS), Ask::Rfi { first: 1, last: 1 });
    assert!(!r.ask_keyframe(false, 9 * S));
}

#[test]
fn stamps_become_whole_microseconds() {
    assert_eq!(received_stamp(0, 7), 7);
    assert_eq!(received_stamp(5, 7), 5);
    assert_eq!(stage_us(1_000, 4_999), 3);
    assert_eq!(stage_us(5_000, 4_000), 0);
    assert_eq!(reported_decode_us(0, u64::MAX), u32::MAX);
    assert_eq!(reported_decode_us(0, 2_000_000), 2_000);
}

#[test]
fn a_window_samples_one_decode_and_speaks_once() {
    let mut w = Window::new(S);
    assert!(!w.due(S + WINDOW_NS - 1));
    assert!(w.due(S + WINDOW_NS));
    assert!(w.wants_fence_sample());
    w.note_fence_wait(false);
    assert!(w.wants_fence_sample(), "a timeout leaves the sample owed");
    w.note_fence_wait(true);
    assert!(!w.wants_fence_sample());

    assert_eq!(w.pin_notice(0), None);
    assert_eq!(
        w.pin_notice(80_500).as_deref(),
        Some(
            "This device can't keep up with the pinned 80 Mbps. Set the bitrate to Automatic or \
             lower it."
        )
    );
    assert_eq!(w.pin_notice(80_500), None);

    assert_eq!(w.launch_notice(None, Some("x".into())), None);
    assert_eq!(w.launch_notice(Some(1), Some("x".into())).as_deref(), Some("x"));
    assert_eq!(w.launch_notice(Some(1), Some("x".into())), None);
    assert_eq!(w.launch_notice(Some(2), None), None);
    assert_eq!(w.launch_notice(Some(1), Some("x".into())).as_deref(), Some("x"));

    w.restart(3 * S);
    assert!(w.wants_fence_sample());
    assert_eq!(w.pin_notice(80_500), None, "once a session, not once a window");
}

#[test]
fn a_window_reports_a_phase_only_with_a_grid_and_enough_arrivals() {
    let grid = LatchGrid {
        anchor_ns: 10_000_000,
        period_ns: 8_000_000,
    };
    let mut w = Window::new(0);
    for i in 0..7u64 {
        w.note_arrival(true, 9_000_000 + i * 8_000_000);
    }
    w.note_arrival(false, 1);
    assert_eq!(w.leads(grid), None, "seven are too few");
    w.note_arrival(true, 11_000_000);
    let leads = w.leads(grid).unwrap();
    assert_eq!(leads.len(), 8);
    assert!(leads[..7].iter().all(|&us| us == 1_000));
    assert_eq!(leads[7], 7_000, "after the anchor: the next latch counts");
    assert_eq!(w.leads(LatchGrid::default()), None);
    for i in 0..400 {
        w.note_arrival(true, i);
    }
    assert_eq!(w.arrivals.len(), 256);
}

#[test]
fn the_next_latch_is_told_on_the_hosts_clock() {
    let grid = LatchGrid {
        anchor_ns: 1_000,
        period_ns: 300,
    };
    assert_eq!(
        phase_report(grid, 1_950, -50, 77),
        PhaseReport {
            latch_ns: 2_150,
            period_ns: 300,
            uncertainty_ns: 1_000_000,
            lead_ns: 77
        }
    );
    assert_eq!(phase_report(grid, 1_900, 0, 0).latch_ns, 1_900, "a latch now is now");
    assert_eq!(phase_report(grid, 5, 0, 0).latch_ns, 1_000, "an anchor ahead stands");
    assert_eq!(phase_report(grid, 5, -5_000, 0).latch_ns, 0);
    assert_eq!(phase_report(grid, 5, 0, u64::MAX).lead_ns, u32::MAX);
}
