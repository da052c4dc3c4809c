//! What the host can believe of a forwarded controller's buttons, whatever happens to it.

use vstd::prelude::*;
use crate::buttons::{BTN_A, BTN_BACK, BTN_GUIDE};
use crate::gesture::{edge_if, SelectGesture};
use crate::pad_slot::{
    axis_lifts, click_lift, edge_acts, lift_acts, touch_lifts, without_holds_the_rest, Act, Routing,
    SlotState, Triple,
};

verus! {

/// The buttons down after one send.
pub open spec fn apply(host: Set<u32>, act: Act) -> Set<u32> {
    match act {
        Act::Button { bit, down, .. } => if down {
            host.insert(bit)
        } else {
            host.remove(bit)
        },
        _ => host,
    }
}

/// The buttons a host that had `host` down believes down after these sends.
pub open spec fn host_after(host: Set<u32>, acts: Seq<Act>) -> Set<u32>
    decreases acts.len(),
{
    if acts.len() == 0 {
        host
    } else {
        apply(host_after(host, acts.drop_last()), acts.last())
    }
}

/// Whether the gesture keeps a physical Select from the host.
pub open spec fn keeps_select(g: SelectGesture) -> bool {
    g.pending_since is Some || g.swallowed || g.as_guide
}

/// The buttons a host may believe down on this slot's pad: those held, but for the one a chord
/// took and a Select the gesture keeps, and those the gesture itself has down.
pub open spec fn may_hold(s: SlotState, bit: u32) -> bool {
    ||| s.held.contains(bit) && s.swallow != Some(bit) && !(bit == BTN_BACK && keeps_select(
        s.gesture,
    ))
    ||| s.gesture.down(bit)
}

/// Every button the host believes down is one the slot may hold.
pub open spec fn covered(host: Set<u32>, s: SlotState) -> bool {
    forall|bit: u32| #[trigger] host.contains(bit) ==> may_hold(s, bit)
}

/// What every run of events keeps: a chord only ever takes A and A is then held; the gesture
/// keeps Select in one way at a time, with Select held and the gesture on.
pub open spec fn consistent(s: SlotState, routing: Routing) -> bool {
    &&& s.swallow is Some ==> s.swallow == Some(BTN_A) && s.held.contains(BTN_A)
    &&& keeps_select(s.gesture) ==> routing.guide_gesture && s.held.contains(BTN_BACK)
    &&& !(s.gesture.pending_since is Some && s.gesture.swallowed)
    &&& !(s.gesture.pending_since is Some && s.gesture.as_guide)
    &&& !(s.gesture.swallowed && s.gesture.as_guide)
}

proof fn after_concat(host: Set<u32>, a: Seq<Act>, b: Seq<Act>)
    ensures
        host_after(host, a + b) == host_after(host_after(host, a), b),
    decreases b.len(),
{
    if b.len() == 0 {
        assert(a + b =~= a);
    } else {
        after_concat(host, a, b.drop_last());
        assert((a + b).drop_last() =~= a + b.drop_last());
    }
}

proof fn only_presses_add(host: Set<u32>, acts: Seq<Act>, bit: u32)
    requires
        forall|i: int| 0 <= i < acts.len() ==> !presses(#[trigger] acts[i], bit),
    ensures
        host_after(host, acts).contains(bit) ==> host.contains(bit),
    decreases acts.len(),
{
    if acts.len() > 0 {
        let rest = acts.drop_last();
        assert forall|i: int| 0 <= i < rest.len() implies !presses(#[trigger] rest[i], bit) by {
            assert(rest[i] == acts[i]);
        }
        only_presses_add(host, rest, bit);
        assert(!presses(acts[acts.len() - 1], bit));
    }
}

proof fn a_lift_removes(host: Set<u32>, acts: Seq<Act>, bit: u32, at: int)
    requires
        0 <= at < acts.len(),
        acts[at] matches Act::Button { bit: b, down, .. } && b == bit && !down,
        forall|i: int| 0 <= i < acts.len() ==> !presses(#[trigger] acts[i], bit),
    ensures
        !host_after(host, acts).contains(bit),
    decreases acts.len(),
{
    let rest = acts.drop_last();
    if at < acts.len() - 1 {
        assert forall|i: int| 0 <= i < rest.len() implies !presses(#[trigger] rest[i], bit) by {
            assert(rest[i] == acts[i]);
        }
        assert(rest[at] == acts[at]);
        a_lift_removes(host, rest, bit, at);
        assert(!presses(acts[acts.len() - 1], bit));
    }
}

/// Centring a pad's axes sends axes and nothing else.
pub proof fn axis_lifts_move_axes_only(pad: u8, axes: Seq<i32>, n: int)
    ensures
        forall|i: int| 0 <= i < axis_lifts(pad, axes, n).len() ==> (#[trigger] axis_lifts(
            pad,
            axes,
            n,
        )[i]) is Axis,
    decreases n,
{
    if n > 0 {
        axis_lifts_move_axes_only(pad, axes, n - 1);
    }
}

/// Flushing a slot leaves the host with no button of that pad down, and every axis it believed
/// off centre sent back to zero.
pub proof fn a_flushed_pad_is_neutral(s: SlotState, host: Set<u32>)
    requires
        covered(host, s),
        s.axes.len() == 6,
    ensures
        forall|bit: u32| !(#[trigger] host_after(host, s.flushed().1).contains(bit)),
        forall|axis: u32|
            axis < 6 && s.axes[axis as int] != 0 && s.axes[axis as int] != i32::MIN ==> s.flushed().1.contains(
                #[trigger] zeroed(s.index, axis),
            ),
        s.flushed().0.held.len() == 0,
        s.flushed().0.touches.len() == 0,
{
    let pad = s.index;
    let a = edge_acts(pad, s.gesture.flush_edges());
    let b = lift_acts(pad, s.held);
    let c = axis_lifts(pad, s.axes, 6);
    let d = click_lift(pad, s.clicks, s.surfaces, 0) + click_lift(pad, s.clicks, s.surfaces, 1)
        + touch_lifts(pad, s.touches) + (if s.sent_motion {
        seq![
            Act::Motion { pad, gyro: Triple { x: 0, y: 0, z: 0 }, accel: s.accel },
        ]
    } else {
        Seq::<Act>::empty()
    });
    let acts = s.flushed().1;
    assert(acts =~= a + b + c + d);
    axis_lifts_move_axes_only(pad, s.axes, 6);
    assert forall|i: int| 0 <= i < d.len() implies !(#[trigger] d[i] is Button) by {}
    assert forall|bit: u32| !(#[trigger] host_after(host, acts).contains(bit)) by {
        assert forall|i: int| 0 <= i < acts.len() implies !presses(#[trigger] acts[i], bit) by {
            if i < a.len() {
                assert(acts[i] == a[i]);
            } else if i < a.len() + b.len() {
                assert(acts[i] == b[i - a.len()]);
            } else if i < a.len() + b.len() + c.len() {
                assert(acts[i] == c[i - a.len() - b.len()]);
            } else {
                assert(acts[i] == d[i - a.len() - b.len() - c.len()]);
            }
        }
        if host.contains(bit) {
            if s.gesture.down(bit) {
                let e = s.gesture.flush_edges();
                crate::gesture::a_flush_lifts_what_is_down(s.gesture, bit);
                let k = choose|k: int| 0 <= k < e.len() && e[k] == (bit, false);
                assert(acts[k] == a[k]);
                a_lift_removes(host, acts, bit, k);
            } else {
                let k = choose|k: int| 0 <= k < s.held.len() && s.held[k] == bit;
                assert(acts[a.len() + k] == b[k]);
                a_lift_removes(host, acts, bit, a.len() + k);
            }
        } else {
            only_presses_add(host, acts, bit);
        }
    }
    assert forall|axis: u32|
        axis < 6 && s.axes[axis as int] != 0 && s.axes[axis as int] != i32::MIN implies acts.contains(
        #[trigger] zeroed(pad, axis),
    ) by {
        axis_lift_is_there(pad, s.axes, 6, axis as int);
        let k = choose|k: int| 0 <= k < c.len() && c[k] == zeroed(pad, axis);
        assert(acts[a.len() + b.len() + k] == c[k]);
    }
}

/// Whether a send presses `bit`.
pub open spec fn presses(act: Act, bit: u32) -> bool {
    act matches Act::Button { bit: b, down, .. } && b == bit && down
}

/// An axis sent back to zero.
pub open spec fn zeroed(pad: u8, axis: u32) -> Act {
    Act::Axis { pad, axis, value: 0 }
}

proof fn axis_lift_is_there(pad: u8, axes: Seq<i32>, n: int, axis: int)
    requires
        0 <= axis < n <= 6,
        axes[axis] != 0,
        axes[axis] != i32::MIN,
    ensures
        axis_lifts(pad, axes, n).contains(zeroed(pad, axis as u32)),
    decreases n,
{
    let c = axis_lifts(pad, axes, n);
    let rest = axis_lifts(pad, axes, n - 1);
    if axis == n - 1 {
        assert(c[c.len() - 1] == zeroed(pad, axis as u32));
    } else {
        axis_lift_is_there(pad, axes, n - 1, axis);
        let k = choose|k: int| 0 <= k < rest.len() && rest[k] == zeroed(pad, axis as u32);
        assert(c[k] == rest[k]);
    }
}

proof fn push_contains(s: Seq<u32>, x: u32, y: u32)
    ensures
        s.push(x).contains(y) == (s.contains(y) || y == x),
{
    let p = s.push(x);
    assert(p[s.len() as int] == x);
    if s.contains(y) {
        let i = choose|i: int| 0 <= i < s.len() && s[i] == y;
        assert(p[i] == y);
    }
}

proof fn one_edge(host: Set<u32>, pad: u8, cond: bool, bit: u32, down: bool)
    ensures
        host_after(host, edge_acts(pad, edge_if(cond, bit, down))) == (if cond {
            apply(host, Act::Button { pad, bit, down })
        } else {
            host
        }),
{
    reveal_with_fuel(host_after, 2);
    let acts = edge_acts(pad, edge_if(cond, bit, down));
    if cond {
        assert(acts =~= seq![Act::Button { pad, bit, down }]);
        assert(acts.drop_last() =~= Seq::<Act>::empty());
    } else {
        assert(acts =~= Seq::<Act>::empty());
    }
}

proof fn one_act(host: Set<u32>, act: Act)
    ensures
        host_after(host, seq![act]) == apply(host, act),
{
    reveal_with_fuel(host_after, 2);
    assert(seq![act].drop_last() =~= Seq::<Act>::empty());
}

/// A button press keeps the host inside what the slot may hold. A controller never presses a
/// button that is already down.
pub proof fn a_press_stays_covered(s: SlotState, routing: Routing, host: Set<u32>, bit: u32, now: u64)
    requires
        consistent(s, routing),
        covered(host, s),
        !s.held.contains(bit),
    ensures
        consistent(s.pressed(bit, routing, now).0, routing),
        covered(host_after(host, s.pressed(bit, routing, now).1), s.pressed(bit, routing, now).0),
{
    let (t, acts) = s.pressed(bit, routing, now);
    let pad = s.index;
    if routing.withholds(bit) {
    } else {
        assert forall|y: u32| #[trigger] t.held.contains(y) == (s.held.contains(y) || y == bit) by {
            push_contains(s.held, bit, y);
        }
        let chord = s.chord(bit, routing);
        let raised = match chord {
            Some(chord) => seq![Act::Chord { pad, chord }],
            None => Seq::<Act>::empty(),
        };
        match chord {
            Some(c) => {
                one_act(host, Act::Chord { pad, chord: c });
            },
            None => {},
        }
        assert(host_after(host, raised) == host);
        if chord == Some(crate::gesture::SelectChord::Ring) {
            assert(bit == BTN_A);
            assert forall|y: u32| #[trigger] host.contains(y) implies may_hold(t, y) by {
                assert(may_hold(s, y));
                assert(t.held.contains(y) == (s.held.contains(y) || y == bit));
            }
            assert(t.held.contains(BTN_A));
            assert(t.held.contains(BTN_BACK) == (s.held.contains(BTN_BACK) || BTN_BACK == bit));
        } else {
            let (g, edges, held_back) = s.gesture_press(bit, routing, now);
            let sent = if held_back {
                Seq::<Act>::empty()
            } else {
                seq![Act::Button { pad, bit, down: true }]
            };
            after_concat(host, raised + edge_acts(pad, edges), sent);
            after_concat(host, raised, edge_acts(pad, edges));
            let mid = host_after(host, edge_acts(pad, edges));
            if !held_back {
                one_act(mid, Act::Button { pad, bit, down: true });
            }
            let end = host_after(host, acts);
            assert(s.swallow != Some(bit));
            assert(t.held.contains(BTN_A) == (s.held.contains(BTN_A) || BTN_A == bit));
            assert(t.held.contains(BTN_BACK) == (s.held.contains(BTN_BACK) || BTN_BACK == bit));
            if !routing.guide_gesture {
                assert(edge_acts(pad, edges) =~= Seq::<Act>::empty());
                assert(mid == host);
            } else if bit == BTN_BACK {
                one_edge(host, pad, s.gesture.release_due is Some, BTN_BACK, false);
            } else {
                one_edge(host, pad, s.gesture.pending_since is Some, BTN_BACK, true);
            }
            assert forall|y: u32| #[trigger] end.contains(y) implies may_hold(t, y) by {
                assert(t.held.contains(y) == (s.held.contains(y) || y == bit));
                if host.contains(y) {
                    assert(may_hold(s, y));
                }
            }
        }
    }
}

/// A button release keeps the host inside what the slot may hold.
pub proof fn a_release_stays_covered(
    s: SlotState,
    routing: Routing,
    host: Set<u32>,
    bit: u32,
    now: u64,
)
    requires
        consistent(s, routing),
        covered(host, s),
    ensures
        consistent(s.released(bit, routing, now).0, routing),
        covered(host_after(host, s.released(bit, routing, now).1), s.released(bit, routing, now).0),
{
    let (t, acts) = s.released(bit, routing, now);
    let pad = s.index;
    if !routing.withholds(bit) {
        assert forall|y: u32| #[trigger] t.held.contains(y) == (s.held.contains(y) && y != bit) by {
            without_holds_the_rest(s.held, bit, y);
        }
        assert(t.held.contains(BTN_A) == (s.held.contains(BTN_A) && BTN_A != bit));
        assert(t.held.contains(BTN_BACK) == (s.held.contains(BTN_BACK) && BTN_BACK != bit));
        if s.swallow == Some(bit) {
            assert forall|y: u32| #[trigger] host.contains(y) implies may_hold(t, y) by {
                assert(may_hold(s, y));
                assert(t.held.contains(y) == (s.held.contains(y) && y != bit));
            }
        } else {
            let (g, edges, owned) = s.gesture_release(bit, routing, now);
            let sent = if owned {
                Seq::<Act>::empty()
            } else {
                seq![Act::Button { pad, bit, down: false }]
            };
            let mid = host_after(host, edge_acts(pad, edges));
            after_concat(host, edge_acts(pad, edges), sent);
            if !owned {
                one_act(mid, Act::Button { pad, bit, down: false });
            }
            if routing.guide_gesture && bit == BTN_BACK {
                if s.gesture.swallowed {
                    assert(edge_acts(pad, edges) =~= Seq::<Act>::empty());
                } else if s.gesture.as_guide {
                    one_edge(host, pad, true, BTN_GUIDE, false);
                } else if s.gesture.pending_since is Some {
                    one_edge(host, pad, true, BTN_BACK, true);
                } else {
                    assert(edge_acts(pad, edges) =~= Seq::<Act>::empty());
                }
            } else {
                assert(edge_acts(pad, edges) =~= Seq::<Act>::empty());
            }
            let end = host_after(host, acts);
            assert forall|y: u32| #[trigger] end.contains(y) implies may_hold(t, y) by {
                assert(t.held.contains(y) == (s.held.contains(y) && y != bit));
                if host.contains(y) {
                    assert(may_hold(s, y));
                }
            }
        }
    }
}

/// The clock moving on keeps the host inside what the slot may hold.
pub proof fn a_tick_stays_covered(s: SlotState, routing: Routing, host: Set<u32>, now: u64)
    requires
        consistent(s, routing),
        covered(host, s),
    ensures
        consistent(s.ticked(now).0, routing),
        covered(host_after(host, s.ticked(now).1), s.ticked(now).0),
{
    let (t, acts) = s.ticked(now);
    let pad = s.index;
    let a = edge_if(s.gesture.hold_done(now), BTN_GUIDE, true);
    let b = edge_if(s.gesture.release_now(now), BTN_BACK, false);
    assert(acts =~= edge_acts(pad, a) + edge_acts(pad, b));
    after_concat(host, edge_acts(pad, a), edge_acts(pad, b));
    one_edge(host, pad, s.gesture.hold_done(now), BTN_GUIDE, true);
    one_edge(host_after(host, edge_acts(pad, a)), pad, s.gesture.release_now(now), BTN_BACK, false);
    let end = host_after(host, acts);
    assert forall|y: u32| #[trigger] end.contains(y) implies may_hold(t, y) by {
        if host.contains(y) {
            assert(may_hold(s, y));
        }
    }
}

/// Switching the gesture keeps the host inside what the slot may hold, whichever way it goes.
pub proof fn switching_the_gesture_stays_covered(
    s: SlotState,
    routing: Routing,
    host: Set<u32>,
    on: bool,
)
    requires
        consistent(s, routing),
        covered(host, s),
    ensures
        consistent(s.gesture_flushed().0, Routing { guide_gesture: on, ..routing }),
        covered(host_after(host, s.gesture_flushed().1), s.gesture_flushed().0),
{
    let (t, acts) = s.gesture_flushed();
    let pad = s.index;
    let a = edge_if(s.gesture.as_guide, BTN_GUIDE, false);
    let b = edge_if(s.gesture.release_due is Some, BTN_BACK, false);
    assert(acts =~= edge_acts(pad, a) + edge_acts(pad, b));
    after_concat(host, edge_acts(pad, a), edge_acts(pad, b));
    one_edge(host, pad, s.gesture.as_guide, BTN_GUIDE, false);
    one_edge(host_after(host, edge_acts(pad, a)), pad, s.gesture.release_due is Some, BTN_BACK, false);
    let end = host_after(host, acts);
    assert forall|y: u32| #[trigger] end.contains(y) implies may_hold(t, y) by {
        if host.contains(y) {
            assert(may_hold(s, y));
        }
    }
}

/// Taking a pad over again after an overlay presses nothing: the buttons found down stay the
/// overlay's until they are pressed anew.
pub proof fn taking_over_presses_nothing(
    s: SlotState,
    routing: Routing,
    host: Set<u32>,
    bits: Seq<u32>,
    axes: Seq<i32>,
    attached: bool,
    bit: u32,
)
    requires
        !host.contains(bit),
    ensures
        !host_after(host, s.readopted(bits, axes, routing, attached).1).contains(bit),
{
    let acts = s.readopted(bits, axes, routing, attached).1;
    if attached {
        axis_news_move_axes_only(s.index, s.axes, axes, 6);
    }
    only_presses_add(host, acts, bit);
}

proof fn axis_news_move_axes_only(pad: u8, was: Seq<i32>, now: Seq<i32>, n: int)
    ensures
        forall|i: int|
            0 <= i < crate::pad_slot::axis_news(pad, was, now, n).len() ==> (
            #[trigger] crate::pad_slot::axis_news(pad, was, now, n)[i]) is Axis,
    decreases n,
{
    if n > 0 {
        axis_news_move_axes_only(pad, was, now, n - 1);
    }
}

} // verus!
