//! What each thing that happens to a forwarded controller sends, and what it leaves alone.

use vstd::prelude::*;
use crate::buttons::{BTN_A, BTN_BACK, BTN_GUIDE, BTN_MISC1, BTN_X};
use crate::gesture::{SelectChord, SelectGesture};
use crate::pad_slot::{
    adopted, axis_lifts, axis_news, touch_lifts, without, Act, Contact, GamepadPref, Routing,
    SlotState, Surface, Triple,
};

verus! {

/// One act, or none.
pub open spec fn one_if(cond: bool, act: Act) -> Seq<Act> {
    if cond {
        seq![act]
    } else {
        Seq::empty()
    }
}

/// A button of this pad going down, or up.
pub open spec fn button(s: SlotState, bit: u32, down: bool) -> Act {
    Act::Button { pad: s.index, bit, down }
}

/// A Select held alone for 350 ms is Guide from then on, and a tap's release goes out when it is
/// due; until then nothing goes out and nothing changes.
pub proof fn a_hold_takes_its_time(s: SelectGesture, now: u64)
    ensures
        ({
            let (g, edges) = s.polled(now);
            let held = s.pending_since is Some && now >= s.pending_since->Some_0 + 350_000_000;
            let due = s.release_due is Some && now >= s.release_due->Some_0;
            &&& g.swallowed == s.swallowed
            &&& held ==> g.pending_since is None && g.as_guide
            &&& !held ==> g.pending_since == s.pending_since && g.as_guide == s.as_guide
            &&& due ==> g.release_due is None
            &&& !due ==> g.release_due == s.release_due
            &&& !held && !due ==> edges.len() == 0
            &&& held && !due ==> edges == seq![(BTN_GUIDE, true)]
            &&& !held && due ==> edges == seq![(BTN_BACK, false)]
            &&& held && due ==> edges == seq![(BTN_GUIDE, true), (BTN_BACK, false)]
        }),
{
    let (g, edges) = s.polled(now);
    let held = s.pending_since is Some && now >= s.pending_since->Some_0 + 350_000_000;
    let due = s.release_due is Some && now >= s.release_due->Some_0;
    if held && due {
        assert(edges =~= seq![(BTN_GUIDE, true), (BTN_BACK, false)]);
    } else if held {
        assert(edges =~= seq![(BTN_GUIDE, true)]);
    } else if due {
        assert(edges =~= seq![(BTN_BACK, false)]);
    }
}

/// Select on its own waits from the moment it went down, and with other buttons it is an ordinary
/// press; either way a tap that is still down is lifted first.
pub proof fn select_alone_waits(s: SelectGesture, now: u64, alone: bool)
    ensures
        ({
            let (g, edges, held_back) = s.select_down(now, alone);
            &&& held_back == alone
            &&& alone ==> g.pending_since == Some(now)
            &&& !alone ==> g.pending_since == s.pending_since
            &&& g.release_due is None && g.as_guide == s.as_guide && g.swallowed == s.swallowed
            &&& s.release_due is Some ==> edges == seq![(BTN_BACK, false)]
            &&& s.release_due is None ==> edges.len() == 0
        }),
{
}

/// A waiting Select goes out before the button pressed with it, and waits no longer.
pub proof fn another_button_makes_select_real(s: SelectGesture)
    ensures
        ({
            let (g, edges) = s.other_down();
            &&& g.pending_since is None && g.release_due == s.release_due && g.as_guide
                == s.as_guide && g.swallowed == s.swallowed
            &&& s.pending_since is Some ==> edges == seq![(BTN_BACK, true)]
            &&& s.pending_since is None ==> edges.len() == 0
        }),
{
}

/// A Select let go: one a chord took says nothing; Guide is lifted; a waiting one is pressed now
/// and lifted 50 ms on; any other release is the caller's to send.
pub proof fn select_let_go(s: SelectGesture, now: u64)
    ensures
        ({
            let (g, edges, owned) = s.select_up(now);
            &&& owned == (s.swallowed || s.as_guide || s.pending_since is Some)
            &&& s.swallowed ==> edges.len() == 0 && g == (SelectGesture { swallowed: false, ..s })
            &&& !s.swallowed && s.as_guide ==> edges == seq![(BTN_GUIDE, false)] && g == (
            SelectGesture { as_guide: false, ..s })
            &&& !s.swallowed && !s.as_guide && s.pending_since is Some ==> {
                &&& edges == seq![(BTN_BACK, true)]
                &&& g.pending_since is None && !g.as_guide && !g.swallowed
                &&& g.release_due is Some
                &&& now + 50_000_000 <= u64::MAX ==> g.release_due->Some_0 == now + 50_000_000
                &&& now + 50_000_000 > u64::MAX ==> g.release_due->Some_0 == u64::MAX
            }
            &&& !owned ==> edges.len() == 0 && g == s
        }),
{
}

/// A chord takes a waiting Select, and only a waiting one, so that it never goes out.
pub proof fn a_chord_takes_the_wait(s: SelectGesture)
    ensures
        s.swallow().pending_since is None,
        s.swallow().swallowed == (s.swallowed || s.pending_since is Some),
        s.swallow().as_guide == s.as_guide,
        s.swallow().release_due == s.release_due,
{
}

/// What a press does. A system button that stays local does nothing. Select and A, Select first,
/// raise the dial and keep A from the host; Select and X raise the statistics besides the press.
/// With the gesture on, Select alone waits in place of going out, and a waiting Select goes out
/// before any other button. Everything else goes out as it is; and only what is held, what a
/// chord took and the gesture change.
pub proof fn what_a_press_sends(s: SlotState, bit: u32, r: Routing, now: u64)
    ensures
        ({
            let (t, acts) = s.pressed(bit, r, now);
            let local = !r.system_forward && (bit == BTN_GUIDE || bit == BTN_MISC1);
            let armed = r.chords_live && s.held.contains(BTN_BACK) && !s.gesture.as_guide;
            let ring = Act::Chord { pad: s.index, chord: SelectChord::Ring };
            let stats = Act::Chord { pad: s.index, chord: SelectChord::Stats };
            let raised = one_if(armed && bit == BTN_X, stats);
            let select = bit == BTN_BACK;
            &&& local ==> t == s && acts.len() == 0
            &&& !local ==> {
                &&& t.held == s.held.push(bit)
                &&& t == (SlotState { held: t.held, gesture: t.gesture, swallow: t.swallow, ..s })
                &&& armed && bit == BTN_A ==> acts == seq![ring] && t.swallow == Some(BTN_A)
                    && t.gesture == s.gesture.swallow()
                &&& !(armed && bit == BTN_A) ==> t.swallow == s.swallow
                &&& !(armed && bit == BTN_A) && !r.guide_gesture ==> t.gesture == s.gesture && acts
                    == raised + seq![button(s, bit, true)]
                &&& !(armed && bit == BTN_A) && r.guide_gesture && select ==> acts == raised + one_if(
                    s.gesture.release_due is Some,
                    button(s, BTN_BACK, false),
                ) + one_if(s.held.len() > 0, button(s, BTN_BACK, true)) && t.gesture
                    == s.gesture.select_down(now, s.held.len() == 0).0
                &&& !(armed && bit == BTN_A) && r.guide_gesture && !select ==> acts == raised + one_if(
                    s.gesture.pending_since is Some,
                    button(s, BTN_BACK, true),
                ) + seq![button(s, bit, true)] && t.gesture == s.gesture.other_down().0
            }
        }),
{
    let (t, acts) = s.pressed(bit, r, now);
    let armed = r.chords_live && s.held.contains(BTN_BACK) && !s.gesture.as_guide;
    let raised = one_if(armed && bit == BTN_X, Act::Chord { pad: s.index, chord: SelectChord::Stats });
    let local = !r.system_forward && (bit == BTN_GUIDE || bit == BTN_MISC1);
    if !local && !(armed && bit == BTN_A) {
        if !r.guide_gesture {
            assert(acts =~= raised + seq![button(s, bit, true)]);
        } else if bit == BTN_BACK {
            assert(acts =~= raised + one_if(
                s.gesture.release_due is Some,
                button(s, BTN_BACK, false),
            ) + one_if(s.held.len() > 0, button(s, BTN_BACK, true)));
        } else {
            assert(acts =~= raised + one_if(
                s.gesture.pending_since is Some,
                button(s, BTN_BACK, true),
            ) + seq![button(s, bit, true)]);
        }
    }
}

/// What a release does. A system button that stays local does nothing. What a chord took is let
/// go in silence; a Select that the gesture kept comes out as the gesture has it; every other
/// release goes out as it is. The button is no longer held, and the others are.
pub proof fn what_a_release_sends(s: SlotState, bit: u32, r: Routing, now: u64, other: u32)
    ensures
        ({
            let (t, acts) = s.released(bit, r, now);
            let local = !r.system_forward && (bit == BTN_GUIDE || bit == BTN_MISC1);
            let taken = s.swallow == Some(bit);
            let g = s.gesture;
            let select = r.guide_gesture && bit == BTN_BACK;
            &&& local ==> t == s && acts.len() == 0
            &&& !local ==> {
                &&& t.held.contains(other) == (s.held.contains(other) && other != bit)
                &&& t == (SlotState { held: t.held, gesture: t.gesture, swallow: t.swallow, ..s })
                &&& taken ==> acts.len() == 0 && t.swallow is None && t.gesture == g
                &&& !taken ==> t.swallow == s.swallow
                &&& !taken && !select ==> acts == seq![button(s, bit, false)] && t.gesture == g
                &&& !taken && select ==> t.gesture == g.select_up(now).0
                &&& !taken && select && g.swallowed ==> acts.len() == 0
                &&& !taken && select && !g.swallowed && g.as_guide ==> acts == seq![
                    button(s, BTN_GUIDE, false),
                ]
                &&& !taken && select && !g.swallowed && !g.as_guide && g.pending_since is Some
                    ==> acts == seq![button(s, BTN_BACK, true)]
                &&& !taken && select && !g.swallowed && !g.as_guide && g.pending_since is None
                    ==> acts == seq![button(s, BTN_BACK, false)]
            }
        }),
{
    let (t, acts) = s.released(bit, r, now);
    let local = !r.system_forward && (bit == BTN_GUIDE || bit == BTN_MISC1);
    crate::pad_slot::without_holds_the_rest(s.held, bit, other);
    if !local && s.swallow != Some(bit) {
        let g = s.gesture;
        if !(r.guide_gesture && bit == BTN_BACK) {
            assert(acts =~= seq![button(s, bit, false)]);
        } else if g.swallowed {
        } else if g.as_guide {
            assert(acts =~= seq![button(s, BTN_GUIDE, false)]);
        } else if g.pending_since is Some {
            assert(acts =~= seq![button(s, BTN_BACK, true)]);
        } else {
            assert(acts =~= seq![button(s, BTN_BACK, false)]);
        }
    }
}

/// What stays after something is dropped stands in the order it had.
pub proof fn dropping_keeps_the_order<T>(s: Seq<T>, x: T)
    ensures
        !s.contains(x) ==> without(s, x) == s,
        forall|a: T| a != x ==> without(s.push(a), x) == without(s, x).push(a),
        without(s.push(x), x) == without(s, x),
    decreases s.len(),
{
    if s.len() > 0 {
        dropping_keeps_the_order(s.drop_last(), x);
        if !s.contains(x) {
            assert forall|i: int| 0 <= i < s.drop_last().len() implies s.drop_last()[i] != x by {
                assert(s[i] != x);
            }
            assert(s[s.len() - 1] != x);
            assert(s.drop_last().push(s.last()) =~= s);
        }
    }
    assert forall|a: T| a != x implies without(s.push(a), x) == without(s, x).push(a) by {
        assert(s.push(a).drop_last() =~= s);
    }
    assert(s.push(x).drop_last() =~= s);
}

/// An axis goes out exactly when its value is news, and only that axis changes.
pub proof fn an_axis_is_sent_when_it_moves(s: SlotState, axis: u32, value: i32)
    requires
        axis < s.axes.len(),
    ensures
        ({
            let (t, acts) = s.moved(axis, value);
            &&& t.axes[axis as int] == value
            &&& t == (SlotState { axes: s.axes.update(axis as int, value), ..s })
            &&& s.axes[axis as int] != value ==> acts == seq![
                Act::Axis { pad: s.index, axis, value },
            ]
            &&& s.axes[axis as int] == value ==> acts.len() == 0
        }),
{
    assert(s.axes.update(axis as int, s.axes[axis as int]) =~= s.axes);
    let t = s.moved(axis, value).0;
    assert(t =~= (SlotState { axes: s.axes.update(axis as int, value), ..s }));
}

/// A finger on a pad with one surface is sent from corner to corner under surface nought; on one
/// with two, round the centre under its own surface with that surface's click. A finger that is
/// there is remembered once, one that left not at all, and the other fingers stay.
pub proof fn what_a_touch_sends(
    s: SlotState,
    touchpad: u8,
    finger: u8,
    at: Contact,
    active: bool,
    other: (u8, u8),
)
    requires
        touchpad < 255,
        s.surfaces.len() == 2,
        s.clicks.len() == 2,
    ensures
        ({
            let (t, acts) = s.touched(touchpad, finger, at, active);
            let i = if touchpad == 0 {
                0int
            } else {
                1int
            };
            let surface = if s.multi {
                (touchpad + 1) as u8
            } else {
                0u8
            };
            &&& t == (SlotState { touches: t.touches, surfaces: t.surfaces, ..s })
            &&& s.multi ==> acts == seq![
                Act::TouchEx {
                    pad: s.index,
                    surface,
                    finger,
                    touch: active,
                    click: s.clicks[i],
                    x: at.sx,
                    y: at.sy,
                },
            ]
            &&& !s.multi ==> acts == seq![
                Act::Touch { pad: s.index, finger, active, ux: at.ux, uy: at.uy },
            ]
            &&& !s.multi ==> t.surfaces == s.surfaces
            &&& s.multi ==> t.surfaces[i] == (Surface { x: at.sx, y: at.sy, touching: active })
                && t.surfaces[1 - i] == s.surfaces[1 - i] && t.surfaces.len() == 2
            &&& t.touches.contains((surface, finger)) == active
            &&& other != (surface, finger) ==> t.touches.contains(other) == s.touches.contains(other)
        }),
{
    let (t, acts) = s.touched(touchpad, finger, at, active);
    let surface = if s.multi {
        (touchpad + 1) as u8
    } else {
        0u8
    };
    let left = without(s.touches, (surface, finger));
    crate::pad_slot::without_holds_the_rest(s.touches, (surface, finger), (surface, finger));
    crate::pad_slot::without_holds_the_rest(s.touches, (surface, finger), other);
    let more = left.push((surface, finger));
    assert(more[left.len() as int] == (surface, finger));
    if left.contains(other) {
        let k = choose|k: int| 0 <= k < left.len() && left[k] == other;
        assert(more[k] == other);
    }
}

/// A click goes out at its surface's last place, touching while it is down or a finger is there,
/// and is remembered for that surface alone.
pub proof fn what_a_click_sends(s: SlotState, surface: u8, down: bool)
    requires
        1 <= surface <= 2,
        s.surfaces.len() == 2,
        s.clicks.len() == 2,
    ensures
        ({
            let (t, acts) = s.clicked(surface, down);
            let i = surface - 1;
            &&& acts == seq![
                Act::TouchEx {
                    pad: s.index,
                    surface,
                    finger: 0,
                    touch: s.surfaces[i].touching || down,
                    click: down,
                    x: s.surfaces[i].x,
                    y: s.surfaces[i].y,
                },
            ]
            &&& t.clicks[i] == down && t.clicks[1 - i] == s.clicks[1 - i] && t.clicks.len() == 2
            &&& t == (SlotState { clicks: t.clicks, ..s })
        }),
{
}

/// A rotation goes out with the last acceleration where the host's controller has a gyro; where
/// it has none the user is told so once.
pub proof fn what_a_rotation_sends(s: SlotState, gyro: Triple, reaches: bool)
    ensures
        ({
            let (t, acts) = s.rotated(gyro, reaches);
            &&& reaches ==> acts == seq![Act::Motion { pad: s.index, gyro, accel: s.accel }] && t
                == (SlotState { sent_motion: true, ..s })
            &&& !reaches ==> acts == one_if(!s.motion_told, Act::MotionLost { pad: s.index }) && t
                == (SlotState { motion_told: true, ..s })
            &&& t.rotated(gyro, false).1.len() == 0 || reaches
        }),
{
}

/// Whether an act leaves something down, off centre, touched or turning.
pub open spec fn leaves_something(act: Act, pad: u8, accel: Triple) -> bool {
    match act {
        Act::Button { pad: p, down, .. } => down || p != pad,
        Act::Axis { pad: p, value, .. } => value != 0 || p != pad,
        Act::Touch { pad: p, active, .. } => active || p != pad,
        Act::TouchEx { pad: p, touch, click, .. } => touch || click || p != pad,
        Act::Motion { pad: p, gyro, accel: a } => gyro != (Triple { x: 0, y: 0, z: 0 }) || a != accel
            || p != pad,
        _ => true,
    }
}

/// A flush centres exactly the axes the host believes off centre, in order, and sends nothing
/// else for them.
pub proof fn axis_lifts_are_zeroes(pad: u8, axes: Seq<i32>, n: int, accel: Triple)
    requires
        0 <= n <= 6,
        axes.len() == 6,
    ensures
        forall|i: int|
            0 <= i < axis_lifts(pad, axes, n).len() ==> !leaves_something(
                #[trigger] axis_lifts(pad, axes, n)[i],
                pad,
                accel,
            ),
        forall|axis: u32|
            axis < n ==> (axes[axis as int] != 0 && axes[axis as int] != i32::MIN <==> axis_lifts(
                pad,
                axes,
                n,
            ).contains(#[trigger] crate::pad_laws::zeroed(pad, axis))),
        forall|axis: u32|
            axis >= n ==> !axis_lifts(pad, axes, n).contains(
                #[trigger] crate::pad_laws::zeroed(pad, axis),
            ),
        forall|i: int|
            0 <= i < axis_lifts(pad, axes, n).len() ==> (#[trigger] axis_lifts(pad, axes, n)[i])
                is Axis && axis_lifts(pad, axes, n)[i]->axis < n,
        forall|i: int, j: int|
            0 <= i < j < axis_lifts(pad, axes, n).len() ==> (#[trigger] axis_lifts(
                pad,
                axes,
                n,
            )[i])->axis < (#[trigger] axis_lifts(pad, axes, n)[j])->axis,
    decreases n,
{
    if n > 0 {
        axis_lifts_are_zeroes(pad, axes, n - 1, accel);
        let c = axis_lifts(pad, axes, n);
        let rest = axis_lifts(pad, axes, n - 1);
        let last = crate::pad_laws::zeroed(pad, (n - 1) as u32);
        assert forall|act: Act| #[trigger] rest.push(last).contains(act) == (rest.contains(act)
            || act == last) by {
            let p = rest.push(last);
            assert(p[rest.len() as int] == last);
            if rest.contains(act) {
                let i = choose|i: int| 0 <= i < rest.len() && rest[i] == act;
                assert(p[i] == act);
            }
        }
        assert forall|axis: u32|
            axis < n implies (axes[axis as int] != 0 && axes[axis as int] != i32::MIN <==> c.contains(
            #[trigger] crate::pad_laws::zeroed(pad, axis),
        )) by {
            assert(!rest.contains(last));
        }
        assert forall|axis: u32| axis >= n implies !c.contains(
            #[trigger] crate::pad_laws::zeroed(pad, axis),
        ) by {}
    }
}

/// A flush lifts each held button, each axis the host believes off centre, each click, each
/// contact and a motion that was sent; sends nothing that leaves anything behind; and forgets
/// what the host held, so that the next reading goes out whatever it is.
pub proof fn a_flush_lifts_everything(s: SlotState)
    requires
        s.axes.len() == 6,
        s.surfaces.len() == 2,
        s.clicks.len() == 2,
    ensures
        ({
            let (t, acts) = s.flushed();
            &&& forall|i: int|
                0 <= i < acts.len() ==> !leaves_something(#[trigger] acts[i], s.index, s.accel)
            &&& forall|i: int|
                0 <= i < s.held.len() ==> acts.contains(button(s, #[trigger] s.held[i], false))
            &&& forall|axis: u32|
                axis < 6 && s.axes[axis as int] != 0 && s.axes[axis as int] != i32::MIN
                    ==> acts.contains(#[trigger] crate::pad_laws::zeroed(s.index, axis))
            &&& forall|i: int|
                0 <= i < s.touches.len() && (#[trigger] s.touches[i]).0 == 0 ==> acts.contains(
                    Act::Touch { pad: s.index, finger: s.touches[i].1, active: false, ux: 0, uy: 0 },
                )
            &&& forall|i: int|
                0 <= i < s.touches.len() && (#[trigger] s.touches[i]).0 != 0 ==> acts.contains(
                    Act::TouchEx {
                        pad: s.index,
                        surface: s.touches[i].0,
                        finger: s.touches[i].1,
                        touch: false,
                        click: false,
                        x: 0,
                        y: 0,
                    },
                )
            &&& s.clicks[0] ==> acts.contains(
                Act::TouchEx {
                    pad: s.index,
                    surface: 1,
                    finger: 0,
                    touch: false,
                    click: false,
                    x: s.surfaces[0].x,
                    y: s.surfaces[0].y,
                },
            )
            &&& s.clicks[1] ==> acts.contains(
                Act::TouchEx {
                    pad: s.index,
                    surface: 2,
                    finger: 0,
                    touch: false,
                    click: false,
                    x: s.surfaces[1].x,
                    y: s.surfaces[1].y,
                },
            )
            &&& s.sent_motion ==> acts.len() > 0 && acts.last() == (Act::Motion {
                pad: s.index,
                gyro: Triple { x: 0, y: 0, z: 0 },
                accel: s.accel,
            })
            &&& !s.sent_motion ==> forall|i: int|
                0 <= i < acts.len() ==> !((#[trigger] acts[i]) is Motion)
            &&& acts.len() == one_if(s.gesture.as_guide, button(s, BTN_GUIDE, false)).len() + one_if(
                s.gesture.release_due is Some,
                button(s, BTN_BACK, false),
            ).len() + s.held.len() + axis_lifts(s.index, s.axes, 6).len() + (if s.clicks[0] {
                1int
            } else {
                0
            }) + (if s.clicks[1] {
                1int
            } else {
                0
            }) + s.touches.len() + (if s.sent_motion {
                1int
            } else {
                0
            })
            &&& t.held.len() == 0 && t.touches.len() == 0 && t.swallow is None && !t.sent_motion
            &&& forall|i: int| 0 <= i < 6 ==> #[trigger] t.axes[i] == i32::MIN
            &&& !t.clicks[0] && !t.clicks[1]
            &&& t.surfaces[0] == (Surface { x: 0, y: 0, touching: false }) && t.surfaces[1] == (
            Surface { x: 0, y: 0, touching: false })
            &&& t.gesture.pending_since is None && t.gesture.release_due is None
                && !t.gesture.as_guide && !t.gesture.swallowed
            &&& t == (SlotState {
                held: t.held,
                touches: t.touches,
                swallow: t.swallow,
                sent_motion: false,
                axes: t.axes,
                clicks: t.clicks,
                surfaces: t.surfaces,
                gesture: t.gesture,
                ..s
            })
        }),
{
    let pad = s.index;
    let (t, acts) = s.flushed();
    let a = crate::pad_slot::edge_acts(pad, s.gesture.flush_edges());
    let b = crate::pad_slot::lift_acts(pad, s.held);
    let c = axis_lifts(pad, s.axes, 6);
    let d = crate::pad_slot::click_lift(pad, s.clicks, s.surfaces, 0);
    let e = crate::pad_slot::click_lift(pad, s.clicks, s.surfaces, 1);
    let f = touch_lifts(pad, s.touches);
    let rest = Act::Motion { pad, gyro: Triple { x: 0, y: 0, z: 0 }, accel: s.accel };
    let m = one_if(s.sent_motion, rest);
    assert(acts =~= a + b + c + d + e + f + m);
    axis_lifts_are_zeroes(pad, s.axes, 6, s.accel);
    let ab = a.len() + b.len();
    let abc = ab + c.len();
    let abcd = abc + d.len();
    let abcde = abcd + e.len();
    assert forall|i: int| 0 <= i < acts.len() implies !leaves_something(
        #[trigger] acts[i],
        pad,
        s.accel,
    ) && (acts[i] is Motion ==> s.sent_motion) by {
        if i < a.len() {
            assert(acts[i] == a[i]);
        } else if i < ab {
            assert(acts[i] == b[i - a.len()]);
        } else if i < abc {
            assert(acts[i] == c[i - ab]);
            crate::pad_laws::axis_lifts_move_axes_only(pad, s.axes, 6);
        } else if i < abcd {
            assert(acts[i] == d[i - abc]);
        } else if i < abcde {
            assert(acts[i] == e[i - abcd]);
        } else if i < abcde + f.len() {
            assert(acts[i] == f[i - abcde]);
        } else {
            assert(acts[i] == m[i - abcde - f.len()]);
        }
    }
    assert forall|i: int| 0 <= i < s.held.len() implies acts.contains(
        button(s, #[trigger] s.held[i], false),
    ) by {
        assert(acts[a.len() + i] == b[i]);
    }
    assert forall|axis: u32|
        axis < 6 && s.axes[axis as int] != 0 && s.axes[axis as int] != i32::MIN implies acts.contains(
        #[trigger] crate::pad_laws::zeroed(pad, axis),
    ) by {
        let k = choose|k: int| 0 <= k < c.len() && c[k] == crate::pad_laws::zeroed(pad, axis);
        assert(acts[ab + k] == c[k]);
    }
    assert forall|i: int| 0 <= i < s.touches.len() implies acts.contains(
        crate::pad_slot::touch_lift(pad, #[trigger] s.touches[i]),
    ) by {
        assert(acts[abcde + i] == f[i]);
    }
    if s.clicks[0] {
        assert(acts[abc as int] == d[0]);
    }
    if s.clicks[1] {
        assert(acts[abcd as int] == e[0]);
    }
    if s.sent_motion {
        assert(acts[acts.len() - 1] == m[0]);
    }
}

/// Taking a pad over takes the buttons found down without a press, but for those that stay
/// local, and sends exactly the axes that changed, in order, where a session is there to hear.
pub proof fn what_taking_over_sends(
    s: SlotState,
    bits: Seq<u32>,
    axes: Seq<i32>,
    r: Routing,
    attached: bool,
    bit: u32,
    axis: u32,
    value: i32,
)
    requires
        axis < 6,
        axes.len() == 6,
        s.axes.len() == 6,
    ensures
        ({
            let (t, acts) = s.readopted(bits, axes, r, attached);
            let local = !r.system_forward && (bit == BTN_GUIDE || bit == BTN_MISC1);
            &&& t.held.contains(bit) == (bits.contains(bit) && !local)
            &&& r.system_forward ==> t.held == bits
            &&& attached ==> t.axes == axes
            &&& !attached ==> t.axes == s.axes && acts.len() == 0
            &&& attached ==> (acts.contains(Act::Axis { pad: s.index, axis, value }) <==> axes[axis as int]
                == value && s.axes[axis as int] != value)
            &&& forall|i: int|
                0 <= i < acts.len() ==> (#[trigger] acts[i]) is Axis && acts[i]->Axis_pad == s.index
                    && acts[i]->axis < 6
            &&& forall|i: int, j: int|
                0 <= i < j < acts.len() ==> (#[trigger] acts[i])->axis < (#[trigger] acts[j])->axis
            &&& t == (SlotState { held: t.held, axes: t.axes, ..s })
        }),
{
    adopted_holds(r, bits, bit);
    if attached {
        news_are_the_changes(s.index, s.axes, axes, 6, axis, value);
    }
}

proof fn adopted_holds(r: Routing, bits: Seq<u32>, bit: u32)
    ensures
        adopted(r, bits).contains(bit) == (bits.contains(bit) && !(!r.system_forward && (bit
            == BTN_GUIDE || bit == BTN_MISC1))),
        r.system_forward ==> adopted(r, bits) == bits,
    decreases bits.len(),
{
    if bits.len() > 0 {
        let rest = bits.drop_last();
        adopted_holds(r, rest, bit);
        let was = adopted(r, rest);
        let more = was.push(bits.last());
        assert(bits == rest.push(bits.last()));
        assert(bits[bits.len() - 1] == bits.last());
        assert(more[was.len() as int] == bits.last());
        if was.contains(bit) {
            let k = choose|k: int| 0 <= k < was.len() && was[k] == bit;
            assert(more[k] == bit);
        }
        if rest.contains(bit) {
            let k = choose|k: int| 0 <= k < rest.len() && rest[k] == bit;
            assert(bits[k] == bit);
        }
        if bits.contains(bit) && bit != bits.last() {
            let k = choose|k: int| 0 <= k < bits.len() && bits[k] == bit;
            assert(rest[k] == bit);
        }
    }
}

proof fn news_are_the_changes(
    pad: u8,
    was: Seq<i32>,
    now: Seq<i32>,
    n: int,
    axis: u32,
    value: i32,
)
    requires
        0 <= n <= 6,
        was.len() == 6,
        now.len() == 6,
    ensures
        ({
            let acts = axis_news(pad, was, now, n);
            &&& acts.contains(Act::Axis { pad, axis, value }) <==> axis < n && now[axis as int]
                == value && was[axis as int] != value
            &&& forall|i: int|
                0 <= i < acts.len() ==> (#[trigger] acts[i]) is Axis && acts[i]->Axis_pad == pad
                    && acts[i]->axis < n
            &&& forall|i: int, j: int|
                0 <= i < j < acts.len() ==> (#[trigger] acts[i])->axis < (#[trigger] acts[j])->axis
        }),
    decreases n,
{
    if n > 0 {
        news_are_the_changes(pad, was, now, n - 1, axis, value);
        let rest = axis_news(pad, was, now, n - 1);
        let last = Act::Axis { pad, axis: (n - 1) as u32, value: now[n - 1] };
        let act = Act::Axis { pad, axis, value };
        let more = rest.push(last);
        assert(more[rest.len() as int] == last);
        if rest.contains(act) {
            let k = choose|k: int| 0 <= k < rest.len() && rest[k] == act;
            assert(more[k] == act);
        }
    }
}

/// A pad's clock sends what its gesture has to say and changes the gesture alone; switching the
/// gesture lifts what it has down and starts it anew.
pub proof fn a_clock_moves_the_gesture_alone(s: SlotState, now: u64)
    ensures
        ({
            let (t, acts) = s.ticked(now);
            let g = s.gesture;
            let held = g.pending_since is Some && now >= g.pending_since->Some_0 + 350_000_000;
            let due = g.release_due is Some && now >= g.release_due->Some_0;
            &&& t == (SlotState { gesture: g.polled(now).0, ..s })
            &&& acts == one_if(held, button(s, BTN_GUIDE, true)) + one_if(
                due,
                button(s, BTN_BACK, false),
            )
        }),
        ({
            let (t, acts) = s.gesture_flushed();
            let idle = SelectGesture {
                pending_since: None,
                as_guide: false,
                release_due: None,
                swallowed: false,
            };
            &&& t == (SlotState { gesture: idle, ..s })
            &&& acts == one_if(s.gesture.as_guide, button(s, BTN_GUIDE, false)) + one_if(
                s.gesture.release_due is Some,
                button(s, BTN_BACK, false),
            )
        }),
{
    let g = s.gesture;
    let held = g.pending_since is Some && now >= g.pending_since->Some_0 + 350_000_000;
    let due = g.release_due is Some && now >= g.release_due->Some_0;
    assert(s.ticked(now).1 =~= one_if(held, button(s, BTN_GUIDE, true)) + one_if(
        due,
        button(s, BTN_BACK, false),
    ));
    assert(s.gesture_flushed().1 =~= one_if(g.as_guide, button(s, BTN_GUIDE, false)) + one_if(
        g.release_due is Some,
        button(s, BTN_BACK, false),
    ));
}

/// A slot just opened is the device it was opened for, holds nothing, and sends whatever it first
/// reads.
pub proof fn a_fresh_slot_holds_nothing(
    id: u32,
    index: u8,
    pref: GamepadPref,
    declared: GamepadPref,
    multi: bool,
    caps: u8,
    raw: bool,
    axis: u32,
    value: i32,
)
    requires
        axis < 6,
        value != i32::MIN,
    ensures
        ({
            let s = SlotState::fresh(id, index, pref, declared, multi, caps, raw);
            &&& s.id == id && s.index == index && s.pref == pref && s.declared == declared
            &&& s.multi == multi && s.audio_caps == caps && s.raw == raw
            &&& s.held.len() == 0 && s.touches.len() == 0 && s.swallow is None && !s.sent_motion
            &&& !s.motion_told && !s.rumble_told && !s.coils_muted && !s.raw_rumble
            &&& s.axes.len() == 6 && s.surfaces.len() == 2 && s.clicks.len() == 2
            &&& !s.clicks[0] && !s.clicks[1]
            &&& s.surfaces[0] == (Surface { x: 0, y: 0, touching: false }) && s.surfaces[1] == (
            Surface { x: 0, y: 0, touching: false })
            &&& s.accel == (Triple { x: 0, y: 0, z: 0 })
            &&& s.gesture.pending_since is None && s.gesture.release_due is None
                && !s.gesture.as_guide && !s.gesture.swallowed
            &&& s.moved(axis, value).1 == seq![Act::Axis { pad: index, axis, value }]
        }),
{
}

} // verus!
