//! What each plug, message, report and tick does to a client's controllers, and what it leaves
//! alone.

use vstd::prelude::*;
use crate::buttons::{
    bit_of_button, wire_axis, PadButton, BTN_A, BTN_BACK, BTN_GUIDE, BTN_LB, BTN_MISC1, BTN_RB,
    BTN_START,
};
use crate::pad_control::{
    due_ups, ids_of, menu_closing, menu_kept, openings, owed_ups, pads_without, pulse_shape,
    readopt_acts, Held, MenuPulse, WorkerState,
};
use crate::pad_slot::{Act, Routing, SlotState};
use crate::pad_table::{
    chord_held, close_acts, closing, kept, slot_at, sweep_acts, swept_slots, Sweep,
};
use crate::pad_worker::{
    active, all_ids, candidates, click_surface, counts_as_press, counts_as_release, newest_pin,
    real_ids, slot_input, EscapeLatch, PadInput, PadState,
};
use crate::slot_laws::one_if;

verus! {

/// A press that completes the chord fires once and starts the hold; a release that breaks it
/// lets go; and a hold of a second and a half that has not said so yet disconnects.
pub proof fn a_latch_counts_one_hold(l: EscapeLatch, held: bool, now: u64)
    ensures
        ({
            let (p, fires) = l.after_press(held, now);
            &&& fires == (held && !l.armed)
            &&& fires ==> p.armed && p.since == Some(now) && p.fired == l.fired
            &&& !fires ==> p == l
        }),
        l.armed && !held ==> !l.after_release(held).armed && l.after_release(held).since is None
            && !l.after_release(held).fired,
        !(l.armed && !held) ==> l.after_release(held) == l,
        l.disconnect_due(now) == (!l.fired && l.since is Some && now >= l.since->Some_0
            + 1_500_000_000),
{
}

/// The escape chord is both shoulders, Start and Select on one and the same pad.
pub proof fn the_chord_is_one_pads(slots: Seq<SlotState>)
    ensures
        chord_held(slots) <==> exists|i: int|
            0 <= i < slots.len() && (#[trigger] slots[i]).held.contains(BTN_LB)
                && slots[i].held.contains(BTN_RB) && slots[i].held.contains(BTN_START)
                && slots[i].held.contains(BTN_BACK),
{
}

/// A pin means the newest pad with its key.
pub proof fn a_pin_means_the_newest(order: Seq<PadState>, key: Seq<char>)
    ensures
        newest_pin(order, None) is None,
        newest_pin(order, Some(key)) matches Some(i) ==> 0 <= i < order.len() && order[i].key == key
            && forall|j: int| i < j < order.len() ==> (#[trigger] order[j]).key != key,
        newest_pin(order, Some(key)) is None ==> forall|j: int|
            0 <= j < order.len() ==> (#[trigger] order[j]).key != key,
    decreases order.len(),
{
    if order.len() > 0 {
        let rest = order.drop_last();
        a_pin_means_the_newest(rest, key);
        assert forall|j: int| 0 <= j < rest.len() implies (#[trigger] order[j]) == rest[j] by {}
        assert(order[order.len() - 1] == order.last());
    }
}

proof fn real_ids_hold(order: Seq<PadState>, id: u32)
    ensures
        real_ids(order).contains(id) <==> exists|i: int|
            0 <= i < order.len() && (#[trigger] order[i]).id == id && !order[i].steam_virtual,
        real_ids(order).len() > 0 <==> exists|i: int|
            0 <= i < order.len() && !(#[trigger] order[i]).steam_virtual,
        (forall|i: int| 0 <= i < order.len() ==> !(#[trigger] order[i]).steam_virtual) ==> real_ids(
            order,
        ) == all_ids(order),
    decreases order.len(),
{
    if order.len() > 0 {
        let rest = order.drop_last();
        let n = order.len() - 1;
        real_ids_hold(rest, id);
        assert forall|j: int| 0 <= j < n implies (#[trigger] order[j]) == rest[j] by {}
        assert(order[n] == order.last());
        let was = real_ids(rest);
        let more = was.push(order.last().id);
        assert(more[was.len() as int] == order.last().id);
        if was.contains(id) {
            let k = choose|k: int| 0 <= k < was.len() && was[k] == id;
            assert(more[k] == id);
            let i = choose|i: int|
                0 <= i < rest.len() && (#[trigger] rest[i]).id == id && !rest[i].steam_virtual;
            assert(order[i].id == id);
        }
        if was.len() > 0 {
            let i = choose|i: int| 0 <= i < rest.len() && !(#[trigger] rest[i]).steam_virtual;
            assert(!order[i].steam_virtual);
        }
        if forall|i: int| 0 <= i < order.len() ==> !(#[trigger] order[i]).steam_virtual {
            assert forall|i: int| 0 <= i < rest.len() implies !(#[trigger] rest[i]).steam_virtual by {
                assert(!order[i].steam_virtual);
            }
            assert(real_ids(order) =~= all_ids(order));
        }
    } else {
        assert(real_ids(order) =~= all_ids(order));
    }
}

/// The pads in use: a pinned one alone; else every real pad and no stand-in; else, where all are
/// stand-ins, every one of them. The active one is the last of them.
pub proof fn who_is_in_use(order: Seq<PadState>, pinned: Option<Seq<char>>, id: u32)
    ensures
        ({
            let c = candidates(order, pinned);
            let pin = newest_pin(order, pinned);
            let genuine = exists|i: int| 0 <= i < order.len() && !(#[trigger] order[i]).steam_virtual;
            &&& pin is Some ==> c == seq![order[pin->Some_0].id]
            &&& pin is None && genuine ==> (c.contains(id) <==> exists|i: int|
                0 <= i < order.len() && (#[trigger] order[i]).id == id && !order[i].steam_virtual)
            &&& pin is None && !genuine ==> c.len() == order.len() && forall|i: int|
                0 <= i < order.len() ==> c[i] == (#[trigger] order[i]).id
            &&& c.len() > 0 ==> active(order, pinned) == Some(c.last())
            &&& c.len() == 0 ==> active(order, pinned) is None
            &&& c.len() == 0 ==> order.len() == 0
        }),
{
    real_ids_hold(order, id);
    if order.len() > 0 {
        assert(order[0] == order[0]);
        if real_ids(order).len() == 0 {
            assert(all_ids(order).len() == order.len());
        }
    }
}

/// On a pad with two touch surfaces the touchpad button clicks the first and the second extra
/// button the second; nothing else clicks, and nothing does on any other pad.
pub proof fn which_button_clicks(multi: bool, button: PadButton)
    ensures
        multi && button == PadButton::Touchpad ==> click_surface(multi, button) == Some(1u8),
        multi && button == PadButton::Misc2 ==> click_surface(multi, button) == Some(2u8),
        !multi || button != PadButton::Touchpad && button != PadButton::Misc2 ==> click_surface(
            multi,
            button,
        ) is None,
{
}

/// Each report reaches its own part of the slot: a click its surface, a button its bit, an axis
/// the wire's axis, a finger, an acceleration and a rotation theirs.
pub proof fn a_report_reaches_its_part(s: SlotState, input: PadInput, r: Routing, now: u64)
    ensures
        ({
            let (t, acts) = slot_input(s, input, r, now);
            match input {
                PadInput::Down { button } => {
                    let pad_click = s.multi && button == PadButton::Touchpad;
                    let extra_click = s.multi && button == PadButton::Misc2;
                    let bit = bit_of_button(button);
                    &&& pad_click ==> (t, acts) == s.clicked(1, true)
                    &&& extra_click ==> (t, acts) == s.clicked(2, true)
                    &&& !pad_click && !extra_click && bit is Some ==> (t, acts) == s.pressed(
                        bit->Some_0,
                        r,
                        now,
                    )
                    &&& !pad_click && !extra_click && bit is None ==> t == s && acts.len() == 0
                },
                PadInput::Up { button } => {
                    let pad_click = s.multi && button == PadButton::Touchpad;
                    let extra_click = s.multi && button == PadButton::Misc2;
                    let bit = bit_of_button(button);
                    &&& pad_click ==> (t, acts) == s.clicked(1, false)
                    &&& extra_click ==> (t, acts) == s.clicked(2, false)
                    &&& !pad_click && !extra_click && bit is Some ==> (t, acts) == s.released(
                        bit->Some_0,
                        r,
                        now,
                    )
                    &&& !pad_click && !extra_click && bit is None ==> t == s && acts.len() == 0
                },
                PadInput::Axis { axis, value } => (t, acts) == s.moved(
                    wire_axis(axis, value).0,
                    wire_axis(axis, value).1 as i32,
                ),
                PadInput::Touch { touchpad, finger, at, active } => (t, acts) == s.touched(
                    touchpad,
                    finger,
                    at,
                    active,
                ),
                PadInput::Accel { accel } => t == (SlotState { accel, ..s }) && acts.len() == 0,
                PadInput::Gyro { gyro, reaches } => (t, acts) == s.rotated(gyro, reaches),
            }
        }),
{
}

/// A press counts for the escape chord where it reaches the host: no click, no button without a
/// bit, none that stays local, no A that the dial took. A release counts but for what a chord
/// took.
pub proof fn what_counts_for_the_chord(s: SlotState, button: PadButton, r: Routing)
    ensures
        ({
            let click = s.multi && (button == PadButton::Touchpad || button == PadButton::Misc2);
            let bit = bit_of_button(button);
            let local = !r.system_forward && (bit == Some(BTN_GUIDE) || bit == Some(BTN_MISC1));
            let dial = r.chords_live && s.held.contains(BTN_BACK) && !s.gesture.as_guide && bit
                == Some(BTN_A);
            let sent = !click && bit is Some && !local;
            &&& counts_as_press(s, PadInput::Down { button }, r) == (sent && !dial)
            &&& counts_as_release(s, PadInput::Up { button }, r) == (sent && s.swallow != bit)
            &&& !counts_as_press(s, PadInput::Up { button }, r)
            &&& !counts_as_release(s, PadInput::Down { button }, r)
        }),
{
}

/// A sweep does the same to each slot where it stands, and sends slot by slot.
pub proof fn a_sweep_goes_slot_by_slot(slots: Seq<SlotState>, s: SlotState, now: u64, i: int)
    ensures
        swept_slots(slots, Sweep::Flush).len() == slots.len(),
        swept_slots(slots, Sweep::FlushGesture).len() == slots.len(),
        swept_slots(slots, Sweep::Tick { now }).len() == slots.len(),
        0 <= i < slots.len() ==> {
            &&& swept_slots(slots, Sweep::Flush)[i] == slots[i].flushed().0
            &&& swept_slots(slots, Sweep::FlushGesture)[i] == slots[i].gesture_flushed().0
            &&& swept_slots(slots, Sweep::Tick { now })[i] == slots[i].ticked(now).0
        },
        forall|sweep: Sweep| #[trigger] sweep_acts(Seq::empty(), sweep) == Seq::<Act>::empty(),
        sweep_acts(slots.push(s), Sweep::Flush) == sweep_acts(slots, Sweep::Flush) + s.flushed().1,
        sweep_acts(slots.push(s), Sweep::FlushGesture) == sweep_acts(slots, Sweep::FlushGesture)
            + s.gesture_flushed().1,
        sweep_acts(slots.push(s), Sweep::Tick { now }) == sweep_acts(slots, Sweep::Tick { now })
            + s.ticked(now).1,
{
    assert(slots.push(s).drop_last() =~= slots);
}

/// Closing a slot puts its device to rest, lifts everything and takes the controller away where
/// a session is there, and ends its audio where it had any.
pub proof fn what_closing_does(s: SlotState, attached: bool)
    ensures
        close_acts(s, attached) == seq![Act::Neutral { id: s.id }] + (if attached {
            s.flushed().1 + seq![Act::Remove { pad: s.index }]
        } else {
            Seq::<Act>::empty()
        }) + one_if(s.audio_caps != 0, Act::UnregisterAudio { pad: s.index }),
{
    assert(s.flushed().1.push(Act::Remove { pad: s.index }) =~= s.flushed().1 + seq![
        Act::Remove { pad: s.index },
    ]);
}

/// Slots are kept and closed one by one in their order: a wanted one stays at the end of those
/// kept, and any other is closed after those before it.
pub proof fn slots_close_in_order(
    slots: Seq<SlotState>,
    s: SlotState,
    want: Seq<u32>,
    attached: bool,
)
    ensures
        kept(Seq::empty(), want) == Seq::<SlotState>::empty(),
        closing(Seq::empty(), want, attached) == Seq::<Act>::empty(),
        want.contains(s.id) ==> kept(slots.push(s), want) == kept(slots, want).push(s) && closing(
            slots.push(s),
            want,
            attached,
        ) == closing(slots, want, attached),
        !want.contains(s.id) ==> kept(slots.push(s), want) == kept(slots, want) && closing(
            slots.push(s),
            want,
            attached,
        ) == closing(slots, want, attached) + close_acts(s, attached),
{
    assert(slots.push(s).drop_last() =~= slots);
}

/// The device an opening asks for.
pub open spec fn asks_open(id: u32, menu: bool) -> Act {
    if menu {
        Act::OpenMenu { id }
    } else {
        Act::OpenSlot { id }
    }
}

/// What is asked open is exactly what is wanted and not open yet, in the order wanted; nothing
/// else is asked.
pub proof fn what_is_missing_is_opened(
    want: Seq<u32>,
    open: Seq<u32>,
    menu: bool,
    id: u32,
)
    ensures
        openings(want, open, menu).contains(asks_open(id, menu)) <==> want.contains(id)
            && !open.contains(id),
        !openings(want, open, menu).contains(asks_open(id, !menu)),
        openings(want, open, menu).len() <= want.len(),
        forall|k: int|
            0 <= k < openings(want, open, menu).len() ==> exists|j: int|
                0 <= j < want.len() && (#[trigger] openings(want, open, menu)[k]) == asks_open(
                    #[trigger] want[j],
                    menu,
                ),
    decreases want.len(),
{
    if want.len() > 0 {
        let rest = want.drop_last();
        let n = want.len() - 1;
        what_is_missing_is_opened(rest, open, menu, id);
        let was = openings(rest, open, menu);
        let now = openings(want, open, menu);
        let more = was.push(asks_open(want.last(), menu));
        assert(more[was.len() as int] == asks_open(want.last(), menu));
        assert(want[n] == want.last());
        if was.contains(asks_open(id, menu)) {
            let k = choose|k: int| 0 <= k < was.len() && was[k] == asks_open(id, menu);
            assert(more[k] == was[k]);
            let j = choose|j: int| 0 <= j < rest.len() && rest[j] == id;
            assert(want[j] == id);
        }
        if now.contains(asks_open(id, menu)) && !was.contains(asks_open(id, menu)) {
            let k = choose|k: int| 0 <= k < now.len() && now[k] == asks_open(id, menu);
            if k < was.len() {
                assert(was[k] == now[k]);
            }
            assert(want.last() == id);
        }
        if want.contains(id) && want.last() != id {
            let j = choose|j: int| 0 <= j < want.len() && want[j] == id;
            assert(rest[j] == id);
        }
        if now.contains(asks_open(id, !menu)) {
            let k = choose|k: int| 0 <= k < now.len() && now[k] == asks_open(id, !menu);
            if k < was.len() {
                assert(was[k] == now[k]);
            }
        }
        assert forall|k: int| 0 <= k < now.len() implies exists|j: int|
            0 <= j < want.len() && (#[trigger] now[k]) == asks_open(#[trigger] want[j], menu) by {
            if k < was.len() {
                assert(was[k] == now[k]);
                let j = choose|j: int|
                    0 <= j < rest.len() && was[k] == asks_open(#[trigger] rest[j], menu);
                assert(want[j] == rest[j]);
            } else {
                assert(want[n] == want.last());
            }
        }
    }
}

/// Menu pads stay open or are closed one by one in their order, by whether they are wanted.
pub proof fn menu_pads_close_in_order(open: Seq<u32>, id: u32, want: Seq<u32>)
    ensures
        menu_kept(Seq::empty(), want) == Seq::<u32>::empty(),
        menu_closing(Seq::empty(), want) == Seq::<Act>::empty(),
        want.contains(id) ==> menu_kept(open.push(id), want) == menu_kept(open, want).push(id)
            && menu_closing(open.push(id), want) == menu_closing(open, want),
        !want.contains(id) ==> menu_kept(open.push(id), want) == menu_kept(open, want)
            && menu_closing(open.push(id), want) == menu_closing(open, want).push(
            Act::CloseMenu { id },
        ),
{
    assert(open.push(id).drop_last() =~= open);
}

/// With a session the menu's pads close and the slots follow the forwarded pads; without one
/// every slot closes, the menu's pads follow the menu, and the menu starts over where one went.
/// Nothing else changes.
pub proof fn what_is_open_follows_what_is_wanted(w: WorkerState)
    ensures
        ({
            let (v, acts) = w.synced();
            let used = candidates(w.order, w.pinned);
            let none = Seq::<u32>::empty();
            let slots_want = if w.forwarding {
                used
            } else {
                none
            };
            let menu_want = if w.menu_mode {
                used
            } else {
                none
            };
            &&& w.attached ==> {
                &&& v == (WorkerState {
                    slots: kept(w.slots, slots_want),
                    menu_open: none,
                    menu_last: None,
                    ..w
                })
                &&& acts == menu_closing(w.menu_open, none) + closing(w.slots, slots_want, true)
                    + openings(slots_want, ids_of(v.slots), false)
            }
            &&& !w.attached ==> {
                &&& v == (WorkerState {
                    slots: Seq::empty(),
                    menu_open: menu_kept(w.menu_open, menu_want),
                    ..w
                })
                &&& acts == closing(w.slots, none, false) + menu_closing(w.menu_open, menu_want)
                    + openings(menu_want, v.menu_open, true) + one_if(
                    v.menu_open.len() != w.menu_open.len(),
                    Act::MenuReset,
                )
            }
        }),
{
}

/// A plug that is new is appended and a pad that is gone leaves, and either is told last; the
/// latch lets go where the chord went with the pad. A plug that is there, or an unplug of what is
/// not, changes nothing.
pub proof fn a_plug_is_counted_once(w: WorkerState, pad: PadState, id: u32)
    ensures
        ({
            let (v, acts) = w.added(pad);
            let there = exists|i: int| 0 <= i < w.order.len() && (#[trigger] w.order[i]).id == pad.id;
            let s = (WorkerState { order: w.order.push(pad), ..w }).synced();
            &&& there ==> v == w && acts.len() == 0
            &&& !there ==> acts == s.1.push(Act::Publish) && v == (WorkerState {
                latch: if s.0.latch.armed && !chord_held(s.0.slots) {
                    EscapeLatch { armed: false, since: None, fired: false }
                } else {
                    s.0.latch
                },
                ..s.0
            })
        }),
        ({
            let (v, acts) = w.removed(id);
            let there = exists|i: int| 0 <= i < w.order.len() && (#[trigger] w.order[i]).id == id;
            let s = (WorkerState { order: pads_without(w.order, id), ..w }).synced();
            &&& !there ==> v == w && acts.len() == 0
            &&& there ==> acts == s.1.push(Act::Publish) && v == (WorkerState {
                latch: if s.0.latch.armed && !chord_held(s.0.slots) {
                    EscapeLatch { armed: false, since: None, fired: false }
                } else {
                    s.0.latch
                },
                ..s.0
            })
        }),
{
}

/// Unplugging takes that pad out and leaves the others in their order.
pub proof fn an_unplug_takes_one_out(order: Seq<PadState>, p: PadState, id: u32)
    ensures
        pads_without(Seq::empty(), id) == Seq::<PadState>::empty(),
        p.id == id ==> pads_without(order.push(p), id) == pads_without(order, id),
        p.id != id ==> pads_without(order.push(p), id) == pads_without(order, id).push(p),
{
    assert(order.push(p).drop_last() =~= order);
}

/// A session that attaches opens its pads with the latch at rest, a Valve controller's drivers
/// first where pads are forwarded; one that ends closes every slot, lifting and removing what the
/// host holds, and gives the drivers back.
pub proof fn a_session_comes_and_goes(w: WorkerState)
    ensures
        ({
            let idle = EscapeLatch { armed: false, since: None, fired: false };
            let (v, acts) = w.attach();
            let s = (WorkerState { attached: true, latch: idle, ..w }).synced();
            &&& v == s.0
            &&& acts == one_if(w.forwarding, Act::Valve { on: true }) + s.1
        }),
        ({
            let idle = EscapeLatch { armed: false, since: None, fired: false };
            let (v, acts) = w.detach();
            let s = (WorkerState { slots: Seq::empty(), attached: false, latch: idle, ..w }).synced();
            &&& v == s.0 && !v.attached && v.slots.len() == 0
            &&& acts == closing(w.slots, Seq::empty(), w.attached) + s.1 + seq![
                Act::Valve { on: false },
            ] + one_if(w.menu_mode, Act::MenuReset)
        }),
{
}

/// Routing system buttons anew tells the raw reports, and lifts what the gesture has down where a
/// session is there and the gesture is switched; chords stay as they were.
pub proof fn routing_tells_the_raw_reports(w: WorkerState, forward_raw: bool, gesture: bool)
    ensures
        ({
            let (v, acts) = w.system_buttons(forward_raw, gesture);
            let gate = Act::RawGate { masked: w.masked, system_forward: forward_raw };
            let switched = w.routing.guide_gesture != gesture && w.attached;
            &&& v.routing.system_forward == forward_raw && v.routing.guide_gesture == gesture
                && v.routing.chords_live == w.routing.chords_live
            &&& switched ==> v.slots == swept_slots(w.slots, Sweep::FlushGesture) && acts == seq![
                gate,
            ] + sweep_acts(w.slots, Sweep::FlushGesture)
            &&& !switched ==> v.slots == w.slots && acts == seq![gate]
            &&& v == (WorkerState { routing: v.routing, slots: v.slots, ..w })
        }),
{
}

/// A tap presses the button on the first pad, or on pad nought where there is none, and owes its
/// release 50 ms on; without a session it does nothing.
pub proof fn a_tap_owes_its_release(w: WorkerState, bit: u32, now: u64)
    ensures
        ({
            let (v, acts) = w.tap(bit, now);
            let pad = if w.slots.len() > 0 {
                w.slots[0].index
            } else {
                0u8
            };
            &&& !w.attached ==> v == w && acts.len() == 0
            &&& w.attached ==> acts == seq![Act::Button { pad, bit, down: true }]
            &&& w.attached && now + 50_000_000 <= u64::MAX ==> v == (WorkerState {
                ups: w.ups.push((pad, bit, (now + 50_000_000) as u64)),
                ..w
            })
        }),
{
}

/// A release that is owed goes out once, when it is due, and stays owed until then.
pub proof fn what_is_owed_goes_out_when_due(ups: Seq<(u8, u32, u64)>, up: (u8, u32, u64), now: u64)
    ensures
        due_ups(Seq::empty(), now) == Seq::<Act>::empty(),
        owed_ups(Seq::empty(), now) == Seq::<(u8, u32, u64)>::empty(),
        now >= up.2 ==> due_ups(ups.push(up), now) == due_ups(ups, now).push(
            Act::Button { pad: up.0, bit: up.1, down: false },
        ) && owed_ups(ups.push(up), now) == owed_ups(ups, now),
        now < up.2 ==> due_ups(ups.push(up), now) == due_ups(ups, now) && owed_ups(
            ups.push(up),
            now,
        ) == owed_ups(ups, now).push(up),
{
    assert(ups.push(up).drop_last() =~= ups);
}

/// An overlay that takes the input tells the raw reports, lets the latch go and lifts everything
/// a session holds; taking it twice does nothing more.
pub proof fn an_overlay_takes_the_input_once(w: WorkerState)
    ensures
        ({
            let (v, acts) = w.mask();
            let gate = Act::RawGate { masked: true, system_forward: w.routing.system_forward };
            let idle = EscapeLatch { armed: false, since: None, fired: false };
            &&& v.masked
            &&& w.masked ==> v == w && acts.len() == 0
            &&& !w.masked && w.attached ==> acts == seq![gate] + sweep_acts(w.slots, Sweep::Flush)
                && v == (WorkerState {
                masked: true,
                latch: idle,
                slots: swept_slots(w.slots, Sweep::Flush),
                ..w
            })
            &&& !w.masked && !w.attached ==> acts == seq![gate] && v == (WorkerState {
                masked: true,
                latch: idle,
                ..w
            })
            &&& v.mask().1.len() == 0
        }),
{
}

/// An overlay that lets go tells the raw reports first and the menu last, and takes each pad
/// over as it is held, in slot order; where nothing was taken it does nothing.
pub proof fn an_overlay_lets_the_input_go(w: WorkerState, held: Seq<Held>, i: int)
    ensures
        ({
            let (v, acts) = w.unmask(held);
            let n = w.slots.len() as int;
            &&& !v.masked
            &&& !w.masked ==> v == w && acts.len() == 0
            &&& w.masked ==> {
                &&& acts == seq![
                    Act::RawGate { masked: false, system_forward: w.routing.system_forward },
                ] + readopt_acts(w.slots, held, w.routing, w.attached, n) + seq![Act::MenuReset]
                &&& v.slots.len() == n
                &&& 0 <= i < n ==> v.slots[i] == w.slots[i].readopted(
                    held[i].bits@,
                    held[i].axes@,
                    w.routing,
                    w.attached,
                ).0
                &&& w.latch.armed && !chord_held(v.slots) ==> !v.latch.armed && v.latch.since
                    is None && !v.latch.fired
                &&& !(w.latch.armed && !chord_held(v.slots)) ==> v.latch == w.latch
                &&& v == (WorkerState { masked: false, slots: v.slots, latch: v.latch, ..w })
            }
        }),
        readopt_acts(w.slots, held, w.routing, w.attached, 0) == Seq::<Act>::empty(),
        0 <= i < w.slots.len() ==> readopt_acts(w.slots, held, w.routing, w.attached, i + 1)
            == readopt_acts(w.slots, held, w.routing, w.attached, i) + w.slots[i].readopted(
            held[i].bits@,
            held[i].axes@,
            w.routing,
            w.attached,
        ).1,
{
}

/// Switching forwarding lets the latch go and opens or closes the slots; during a session a Valve
/// controller's drivers are taken before opening and given back after closing. Switching to what
/// it is does nothing.
pub proof fn forwarding_switches_the_slots(w: WorkerState, on: bool)
    ensures
        ({
            let (v, acts) = w.forward(on);
            let idle = EscapeLatch { armed: false, since: None, fired: false };
            let s = (WorkerState { forwarding: on, latch: idle, ..w }).synced();
            &&& w.forwarding == on ==> v == w && acts.len() == 0
            &&& w.forwarding != on ==> v == s.0
            &&& w.forwarding != on && !w.attached ==> acts == s.1
            &&& w.forwarding != on && w.attached && on ==> acts == seq![Act::Valve { on: true }]
                + s.1
            &&& w.forwarding != on && w.attached && !on ==> acts == s.1 + seq![
                Act::Valve { on: false },
            ]
        }),
{
    let idle = EscapeLatch { armed: false, since: None, fired: false };
    let s = (WorkerState { forwarding: on, latch: idle, ..w }).synced();
    assert(s.1.push(Act::Valve { on: false }) =~= s.1 + seq![Act::Valve { on: false }]);
}

/// Switching the menu opens or closes its pads, and starts navigation over where it goes on.
pub proof fn the_menu_opens_its_pads(w: WorkerState, on: bool)
    ensures
        ({
            let (v, acts) = w.menu(on);
            let s = (WorkerState { menu_mode: on, ..w }).synced();
            &&& v == s.0
            &&& acts == one_if(on, Act::MenuReset) + s.1
        }),
{
}

/// A report reaches its own slot while a session is there and no overlay has the input, and
/// nothing otherwise; a press that completes the chord raises the escape after what it sends, and
/// only presses and releases move the latch.
pub proof fn a_report_reaches_its_slot(w: WorkerState, id: u32, input: PadInput, now: u64)
    ensures
        ({
            let (v, acts) = w.input(id, input, now);
            let at = slot_at(w.slots, id);
            let heard = at is Some && w.attached && !w.masked;
            let was = w.slots[at->Some_0];
            let s = slot_input(was, input, w.routing, now);
            let slots = w.slots.update(at->Some_0, s.0);
            let press = counts_as_press(was, input, w.routing);
            let release = counts_as_release(was, input, w.routing);
            let escapes = press && !w.latch.armed && chord_held(slots);
            &&& !heard ==> v == w && acts.len() == 0
            &&& heard ==> {
                &&& v == (WorkerState { slots, latch: v.latch, ..w })
                &&& acts == s.1 + one_if(escapes, Act::Escape)
                &&& escapes ==> v.latch.armed && v.latch.since == Some(now) && v.latch.fired
                    == w.latch.fired
                &&& !press && release && w.latch.armed && !chord_held(slots) ==> !v.latch.armed
                    && v.latch.since is None && !v.latch.fired
                &&& !escapes && !(!press && release && w.latch.armed && !chord_held(slots))
                    ==> v.latch == w.latch
            }
        }),
{
    let at = slot_at(w.slots, id);
    let was = w.slots[at->Some_0];
    let s = slot_input(was, input, w.routing, now);
    assert(s.1.push(Act::Escape) =~= s.1 + seq![Act::Escape]);
    assert(s.1 + Seq::<Act>::empty() =~= s.1);
}

/// A tick of a session sends what is owed and due, then what the gestures have to say where the
/// gesture is on; without a session nothing is owed any longer.
pub proof fn what_a_tick_sends(w: WorkerState, now: u64)
    ensures
        ({
            let (v, acts) = w.polled(now);
            let tick = Sweep::Tick { now };
            &&& !w.attached ==> acts.len() == 0 && v == (WorkerState { ups: Seq::empty(), ..w })
            &&& w.attached && w.routing.guide_gesture ==> acts == due_ups(w.ups, now) + sweep_acts(
                w.slots,
                tick,
            ) && v == (WorkerState {
                ups: owed_ups(w.ups, now),
                slots: swept_slots(w.slots, tick),
                ..w
            })
            &&& w.attached && !w.routing.guide_gesture ==> acts == due_ups(w.ups, now) && v == (
            WorkerState { ups: owed_ups(w.ups, now), ..w })
        }),
{
}

/// A pulse goes to the menu pad that last acted while it is open, else to the first; never during
/// a session. The dial is driven by the slots, and the menu by its own pads while nothing else
/// has them.
pub proof fn who_drives_the_menu(w: WorkerState)
    ensures
        w.attached ==> w.pulsed() is None,
        w.menu_open.len() == 0 ==> w.pulsed() is None,
        !w.attached && w.menu_open.len() > 0 && w.menu_last is Some && w.menu_open.contains(
            w.menu_last->Some_0,
        ) ==> w.pulsed() == w.menu_last,
        !w.attached && w.menu_open.len() > 0 && !(w.menu_last is Some && w.menu_open.contains(
            w.menu_last->Some_0,
        )) ==> w.pulsed() == Some(w.menu_open[0]),
        w.ring_nav ==> w.menu_drivers() == w.slots.map_values(|s: SlotState| s.id),
        !w.ring_nav && w.menu_mode && !w.attached && !w.masked ==> w.menu_drivers() == w.menu_open,
        !w.ring_nav && !(w.menu_mode && !w.attached && !w.masked) ==> w.menu_drivers().len() == 0,
{
    if w.ring_nav {
        assert(w.menu_drivers() =~= w.slots.map_values(|s: SlotState| s.id));
    }
}

/// A move is a short tick of the high motor, a choice a pulse of both, an edge one of the low.
pub proof fn what_a_pulse_feels_like()
    ensures
        pulse_shape(MenuPulse::Move) == (0u16, 0x3000u16, 25u32),
        pulse_shape(MenuPulse::Confirm) == (0x5000u16, 0x5000u16, 60u32),
        pulse_shape(MenuPulse::Boundary) == (0x6000u16, 0u16, 60u32),
{
}

} // verus!
