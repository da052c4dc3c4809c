//! Hold Select for Guide, and the chords that Select makes.

use pf_client_core::buttons::{BTN_A, BTN_B, BTN_BACK, BTN_GUIDE, BTN_LB, BTN_X, BTN_Y};
use pf_client_core::gesture::{
    select_chord, SelectChord, SelectGesture, GUIDE_HOLD_NS, TAP_PRESS_NS,
};

const MS: u64 = 1_000_000;

#[test]
fn a_while_select_is_pending_swallows_both() {
    let mut g = SelectGesture::default();
    let mut out = Vec::new();
    let t = 5_000_000_000u64;
    assert!(g.on_select_down(t, true, &mut out));
    g.swallow_for_ring();
    assert!(out.is_empty(), "the pending press stays swallowed: {out:?}");
    assert!(
        g.on_select_up(t, &mut out),
        "the release is owned, not forwarded"
    );
    assert!(out.is_empty(), "…and emits nothing: {out:?}");
}

#[test]
fn select_then_a_or_x_is_a_chord_without_the_guide_gesture() {
    let held = |b: u32| select_chord(&[BTN_BACK], b, false);
    assert_eq!(held(BTN_A), Some(SelectChord::Ring));
    assert_eq!(held(BTN_X), Some(SelectChord::Stats));
    // Every other face button is the game's, held Select or not.
    assert_eq!(held(BTN_B), None);
    assert_eq!(held(BTN_Y), None);
    assert_eq!(
        select_chord(&[BTN_LB, BTN_BACK], BTN_A, false),
        Some(SelectChord::Ring),
        "other buttons held alongside do not disqualify it"
    );
    assert_eq!(select_chord(&[], BTN_A, false), None, "A alone");
    assert_eq!(
        select_chord(&[BTN_A], BTN_BACK, false),
        None,
        "A first"
    );
    assert_eq!(
        select_chord(&[BTN_BACK], BTN_X, true),
        None,
        "Select became Guide"
    );
}

#[test]
fn tap_delivers_press_then_scheduled_release() {
    let mut g = SelectGesture::default();
    let t = 5_000_000_000u64;
    let mut out = Vec::new();
    assert!(g.on_select_down(t, true, &mut out), "not held back");
    assert!(out.is_empty(), "a held-back press sends nothing yet");
    let up = t + 120 * MS;
    assert!(g.on_select_up(up, &mut out));
    assert_eq!(out, vec![(BTN_BACK, true)]);
    out.clear();
    g.poll(up + TAP_PRESS_NS - 1 * MS, &mut out);
    assert!(out.is_empty(), "release went out early");
    g.poll(up + TAP_PRESS_NS, &mut out);
    assert_eq!(out, vec![(BTN_BACK, false)]);
}

#[test]
fn hold_becomes_guide_down_until_release() {
    let mut g = SelectGesture::default();
    let t = 5_000_000_000u64;
    let mut out = Vec::new();
    assert!(g.on_select_down(t, true, &mut out));
    g.poll(t + GUIDE_HOLD_NS - 1 * MS, &mut out);
    assert!(out.is_empty(), "guide fired inside the threshold");
    g.poll(t + GUIDE_HOLD_NS, &mut out);
    assert_eq!(out, vec![(BTN_GUIDE, true)]);
    out.clear();
    g.poll(t + GUIDE_HOLD_NS * 4, &mut out);
    assert!(out.is_empty());
    assert!(g.on_select_up(t + GUIDE_HOLD_NS * 5, &mut out));
    assert_eq!(out, vec![(BTN_GUIDE, false)]);
}

#[test]
fn second_button_makes_pending_select_real() {
    let mut g = SelectGesture::default();
    let t = 5_000_000_000u64;
    let mut out = Vec::new();
    assert!(g.on_select_down(t, true, &mut out));
    g.on_other_down(&mut out);
    assert_eq!(out, vec![(BTN_BACK, true)]);
    out.clear();
    assert!(!g.on_select_up(t + 200 * MS, &mut out));
    assert!(out.is_empty());
    g.poll(t + GUIDE_HOLD_NS * 2, &mut out);
    assert!(out.is_empty());
}

#[test]
fn select_inside_a_combo_passes_through() {
    let mut g = SelectGesture::default();
    let mut out = Vec::new();
    assert!(!g.on_select_down(5_000_000_000u64, false, &mut out));
    assert!(out.is_empty());
}

#[test]
fn quick_repress_lifts_owed_release_first() {
    let mut g = SelectGesture::default();
    let t = 5_000_000_000u64;
    let mut out = Vec::new();
    assert!(g.on_select_down(t, true, &mut out));
    assert!(g.on_select_up(t + 80 * MS, &mut out));
    out.clear();
    assert!(g.on_select_down(t + 100 * MS, true, &mut out));
    assert_eq!(out, vec![(BTN_BACK, false)]);
}

#[test]
fn flush_lifts_synthetic_guide_and_owed_release() {
    let mut g = SelectGesture::default();
    let t = 5_000_000_000u64;
    let mut out = Vec::new();
    assert!(g.on_select_down(t, true, &mut out));
    g.poll(t + GUIDE_HOLD_NS, &mut out);
    out.clear();
    g.flush(&mut out);
    assert_eq!(out, vec![(BTN_GUIDE, false)]);
    out.clear();
    assert!(g.on_select_down(t, true, &mut out));
    assert!(g.on_select_up(t + 80 * MS, &mut out));
    out.clear();
    g.flush(&mut out);
    assert_eq!(out, vec![(BTN_BACK, false)]);
    out.clear();
    assert!(g.on_select_down(t, true, &mut out));
    g.flush(&mut out);
    assert!(out.is_empty(), "a never-sent pending Select ghosted a send");
}
