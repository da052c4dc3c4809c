//! The controller worker: what each device event, control message and tick does to the slots,
//! the menu pads and the escape latch.

use vstd::prelude::*;

use crate::gesture::{holds, later, TAP_PRESS_NS};
use crate::pad_slot::{Act, GamepadPref, Routing, Slot, SlotState};
use crate::pad_table::{
    a_kept_table_is_ok, a_slot_is_found_by_its_id, apart, chord_held, chord_is_held, close_others,
    closing, find_slot, kept, nothing_wanted_keeps_nothing, slot_at, slots_of, sweep_acts,
    sweep_all, swept_slots, table_ok, Sweep,
};
use crate::pad_worker::{
    apply_input, candidate_ids, candidates, counts_as_press, counts_as_release, pads_of, slot_input,
    ChordStep, EscapeLatch, Pad, PadInput, PadState,
};
use crate::text::opt_view;

verus! {

/// What the worker holds, as values.
#[verifier::ext_equal]
pub struct WorkerState {
    pub slots: Seq<SlotState>,
    pub menu_open: Seq<u32>,
    pub menu_last: Option<u32>,
    pub order: Seq<PadState>,
    pub pinned: Option<Seq<char>>,
    pub forwarding: bool,
    pub routing: Routing,
    pub kind_override: GamepadPref,
    pub ups: Seq<(u8, u32, u64)>,
    pub audio_prefs: u8,
    pub attached: bool,
    pub latch: EscapeLatch,
    pub menu_mode: bool,
    pub masked: bool,
    pub ring_nav: bool,
}

/// The controllers of a client.
pub struct Worker {
    /// Open only while a session is attached; opening grabs hardware.
    pub slots: Vec<Slot>,
    /// Menu pads while menu mode is on and no session is attached.
    pub menu_open: Vec<u32>,
    /// The menu pad that last acted: a pulse belongs in those hands.
    pub menu_last: Option<u32>,
    /// Connected pads in connection order.
    pub order: Vec<Pad>,
    /// Stable key; one that matches nothing is kept and falls through to automatic.
    pub pinned: Option<String>,
    /// Off: a session opens no slot.
    pub forwarding: bool,
    pub routing: Routing,
    /// Applied at open to the kind told to the host.
    pub kind_override: GamepadPref,
    /// Releases owed for taps, `(pad, bit, due)`.
    pub ups: Vec<(u8, u32, u64)>,
    /// Bit 0 haptics, bit 1 speaker.
    pub audio_prefs: u8,
    pub attached: bool,
    pub latch: EscapeLatch,
    pub menu_mode: bool,
    /// An overlay owns the input: pads are held neutral, slots stay open.
    pub masked: bool,
    /// The dial is open: slots drive the menu even while masked.
    pub ring_nav: bool,
}

impl View for Worker {
    type V = WorkerState;

    open spec fn view(&self) -> WorkerState {
        WorkerState {
            slots: slots_of(self.slots@),
            menu_open: self.menu_open@,
            menu_last: self.menu_last,
            order: pads_of(self.order@),
            pinned: opt_view(self.pinned),
            forwarding: self.forwarding,
            routing: self.routing,
            kind_override: self.kind_override,
            ups: self.ups@,
            audio_prefs: self.audio_prefs,
            attached: self.attached,
            latch: self.latch,
            menu_mode: self.menu_mode,
            masked: self.masked,
            ring_nav: self.ring_nav,
        }
    }
}

/// What opening the wanted devices that are not open asks for.
pub open spec fn openings(want: Seq<u32>, open: Seq<u32>, menu: bool) -> Seq<Act>
    decreases want.len(),
{
    if want.len() == 0 {
        Seq::empty()
    } else if open.contains(want.last()) {
        openings(want.drop_last(), open, menu)
    } else {
        openings(want.drop_last(), open, menu).push(
            if menu {
                Act::OpenMenu { id: want.last() }
            } else {
                Act::OpenSlot { id: want.last() }
            },
        )
    }
}

/// The menu pads that stay open.
pub open spec fn menu_kept(open: Seq<u32>, want: Seq<u32>) -> Seq<u32>
    decreases open.len(),
{
    if open.len() == 0 {
        Seq::empty()
    } else if want.contains(open.last()) {
        menu_kept(open.drop_last(), want).push(open.last())
    } else {
        menu_kept(open.drop_last(), want)
    }
}

/// What closing the other menu pads asks for.
pub open spec fn menu_closing(open: Seq<u32>, want: Seq<u32>) -> Seq<Act>
    decreases open.len(),
{
    if open.len() == 0 {
        Seq::empty()
    } else if want.contains(open.last()) {
        menu_closing(open.drop_last(), want)
    } else {
        menu_closing(open.drop_last(), want).push(Act::CloseMenu { id: open.last() })
    }
}

/// The devices of a table, in slot order.
pub open spec fn ids_of(slots: Seq<SlotState>) -> Seq<u32> {
    slots.map_values(|s: SlotState| s.id)
}

fn open_missing(want: &Vec<u32>, open: &Vec<u32>, menu: bool, out: &mut Vec<Act>)
    ensures
        final(out)@ == old(out)@ + openings(want@, open@, menu),
{
    let ghost start = out@;
    let mut i: usize = 0;
    assert(out@ =~= start + openings(want@.take(0), open@, menu));
    while i < want.len()
        invariant
            i <= want@.len(),
            out@ == start + openings(want@.take(i as int), open@, menu),
        decreases want@.len() - i,
    {
        assert(want@.take(i + 1).drop_last() =~= want@.take(i as int));
        let id: u32 = want[i];
        if !holds(open.as_slice(), id) {
            if menu {
                out.push(Act::OpenMenu { id });
            } else {
                out.push(Act::OpenSlot { id });
            }
        }
        assert(out@ =~= start + openings(want@.take(i + 1), open@, menu));
        i = i + 1;
    }
    assert(want@.take(i as int) =~= want@);
}

fn retain_menu(open: &Vec<u32>, want: &Vec<u32>, out: &mut Vec<Act>) -> (r: Vec<u32>)
    ensures
        r@ == menu_kept(open@, want@),
        final(out)@ == old(out)@ + menu_closing(open@, want@),
{
    let ghost start = out@;
    let mut r: Vec<u32> = Vec::new();
    let mut i: usize = 0;
    assert(r@ =~= menu_kept(open@.take(0), want@));
    assert(out@ =~= start + menu_closing(open@.take(0), want@));
    while i < open.len()
        invariant
            i <= open@.len(),
            r@ == menu_kept(open@.take(i as int), want@),
            out@ == start + menu_closing(open@.take(i as int), want@),
        decreases open@.len() - i,
    {
        assert(open@.take(i + 1).drop_last() =~= open@.take(i as int));
        let id: u32 = open[i];
        if holds(want.as_slice(), id) {
            r.push(id);
        } else {
            out.push(Act::CloseMenu { id });
        }
        assert(out@ =~= start + menu_closing(open@.take(i + 1), want@));
        i = i + 1;
    }
    assert(open@.take(i as int) =~= open@);
    r
}

fn slot_ids(slots: &Vec<Slot>) -> (r: Vec<u32>)
    ensures
        r@ == ids_of(slots_of(slots@)),
{
    let mut r: Vec<u32> = Vec::new();
    let mut i: usize = 0;
    while i < slots.len()
        invariant
            i <= slots@.len(),
            r@.len() == i,
            forall|j: int| 0 <= j < i ==> r@[j] == slots@[j].id,
        decreases slots@.len() - i,
    {
        r.push(slots[i].id);
        i = i + 1;
    }
    assert(r@ =~= ids_of(slots_of(slots@)));
    r
}

impl WorkerState {
    /// The table holds.
    pub open spec fn wf(self) -> bool {
        table_ok(self.slots)
    }

    /// A worker with nothing connected.
    pub open spec fn fresh() -> WorkerState {
        WorkerState {
            slots: Seq::empty(),
            menu_open: Seq::empty(),
            menu_last: None,
            order: Seq::empty(),
            pinned: None,
            forwarding: true,
            routing: Routing { system_forward: true, guide_gesture: false, chords_live: false },
            kind_override: GamepadPref::Auto,
            ups: Seq::empty(),
            audio_prefs: 0,
            attached: false,
            latch: EscapeLatch::idle(),
            menu_mode: false,
            masked: false,
            ring_nav: false,
        }
    }

    /// The devices a session forwards.
    pub open spec fn forwarded(self) -> Seq<u32> {
        if self.forwarding {
            candidates(self.order, self.pinned)
        } else {
            Seq::empty()
        }
    }

    /// The devices the menu holds open. Navigation is local, so forwarding does not gate it.
    pub open spec fn menu_wanted(self) -> Seq<u32> {
        if self.menu_mode {
            candidates(self.order, self.pinned)
        } else {
            Seq::empty()
        }
    }

    /// The open devices follow what is wanted.
    pub open spec fn synced(self) -> (WorkerState, Seq<Act>) {
        if self.attached {
            let want = self.forwarded();
            let slots = kept(self.slots, want);
            (
                WorkerState { slots, menu_open: Seq::empty(), menu_last: None, ..self },
                menu_closing(self.menu_open, Seq::empty()) + closing(self.slots, want, true)
                    + openings(want, ids_of(slots), false),
            )
        } else {
            let want = self.menu_wanted();
            let menu = menu_kept(self.menu_open, want);
            (
                WorkerState { slots: Seq::empty(), menu_open: menu, ..self },
                closing(self.slots, Seq::empty(), false) + menu_closing(self.menu_open, want)
                    + openings(want, menu, true) + (if menu.len() != self.menu_open.len() {
                    seq![Act::MenuReset]
                } else {
                    Seq::<Act>::empty()
                }),
            )
        }
    }

    /// After a plug, an unplug or a new pin.
    pub open spec fn refreshed(self) -> (WorkerState, Seq<Act>) {
        let (w, acts) = self.synced();
        (
            WorkerState { latch: w.latch.after_release(chord_held(w.slots)), ..w },
            acts.push(Act::Publish),
        )
    }
}

impl Worker {
    /// The table holds.
    pub open spec fn wf(&self) -> bool {
        self@.wf()
    }

    /// A worker with nothing connected.
    pub fn new() -> (w: Worker)
        ensures
            w.wf(),
            w@ == WorkerState::fresh(),
    {
        let w = Worker {
            slots: Vec::new(),
            menu_open: Vec::new(),
            menu_last: None,
            order: Vec::new(),
            pinned: None,
            forwarding: true,
            routing: Routing { system_forward: true, guide_gesture: false, chords_live: false },
            kind_override: GamepadPref::Auto,
            ups: Vec::new(),
            audio_prefs: 0,
            attached: false,
            latch: EscapeLatch { armed: false, since: None, fired: false },
            menu_mode: false,
            masked: false,
            ring_nav: false,
        };
        assert(w@ =~= WorkerState::fresh());
        w
    }

    /// The devices a session forwards: the pinned one, else every real one, else every
    /// stand-in; none while forwarding is off.
    pub fn forwarded_ids(&self) -> (r: Vec<u32>)
        ensures
            r@ == self@.forwarded(),
    {
        if !self.forwarding {
            return Vec::new();
        }
        candidate_ids(&self.order, &self.pinned)
    }

    fn menu_ids(&self) -> (r: Vec<u32>)
        ensures
            r@ == self@.menu_wanted(),
    {
        if !self.menu_mode {
            return Vec::new();
        }
        candidate_ids(&self.order, &self.pinned)
    }

    /// Close what is no longer wanted and ask for what is. A session closes the menu pads;
    /// without one every slot closes.
    pub fn sync_open(&mut self, out: &mut Vec<Act>)
        requires
            old(self).wf(),
        ensures
            final(self).wf(),
            ({
                let (w, acts) = old(self)@.synced();
                &&& final(self)@ == w
                &&& final(out)@ == old(out)@ + acts
            }),
    {
        let ghost start = out@;
        let ghost was = self@;
        let none: Vec<u32> = Vec::new();
        assert(none@ =~= Seq::<u32>::empty());
        if self.attached {
            let want = self.forwarded_ids();
            let _ = retain_menu(&self.menu_open, &none, out);
            self.menu_open = Vec::new();
            self.menu_last = None;
            close_others(&mut self.slots, want.as_slice(), true, out);
            proof {
                a_kept_table_is_ok(was.slots, want@);
            }
            let open = slot_ids(&self.slots);
            open_missing(&want, &open, false, out);
        } else {
            let want = self.menu_ids();
            close_others(&mut self.slots, none.as_slice(), false, out);
            proof {
                nothing_wanted_keeps_nothing(was.slots);
            }
            let before: usize = self.menu_open.len();
            let menu = retain_menu(&self.menu_open, &want, out);
            open_missing(&want, &menu, true, out);
            if menu.len() != before {
                out.push(Act::MenuReset);
            }
            self.menu_open = menu;
        }
        assert(self@ =~= was.synced().0);
        assert(out@ =~= start + was.synced().1);
    }

    /// After a plug, an unplug or a new pin: a pad that held the escape chord may be gone.
    pub fn refresh_active(&mut self, out: &mut Vec<Act>)
        requires
            old(self).wf(),
        ensures
            final(self).wf(),
            ({
                let (w, acts) = old(self)@.refreshed();
                &&& final(self)@ == w
                &&& final(out)@ == old(out)@ + acts
            }),
    {
        let ghost start = out@;
        let ghost was = self@;
        self.sync_open(out);
        let held: bool = chord_is_held(&self.slots);
        self.latch.on_release(held);
        out.push(Act::Publish);
        assert(self@ =~= was.refreshed().0);
        assert(out@ =~= start + was.refreshed().1);
    }
}

/// The pads but one.
pub open spec fn pads_without(order: Seq<PadState>, id: u32) -> Seq<PadState>
    decreases order.len(),
{
    if order.len() == 0 {
        order
    } else if order.last().id == id {
        pads_without(order.drop_last(), id)
    } else {
        pads_without(order.drop_last(), id).push(order.last())
    }
}

/// Whether a pad is connected.
pub open spec fn connected(order: Seq<PadState>, id: u32) -> bool {
    exists|i: int| 0 <= i < order.len() && (#[trigger] order[i]).id == id
}

/// The owed releases that are due, as sends.
pub open spec fn due_ups(ups: Seq<(u8, u32, u64)>, now: u64) -> Seq<Act>
    decreases ups.len(),
{
    if ups.len() == 0 {
        Seq::empty()
    } else if now >= ups.last().2 {
        due_ups(ups.drop_last(), now).push(
            Act::Button { pad: ups.last().0, bit: ups.last().1, down: false },
        )
    } else {
        due_ups(ups.drop_last(), now)
    }
}

/// The owed releases that are not due yet.
pub open spec fn owed_ups(ups: Seq<(u8, u32, u64)>, now: u64) -> Seq<(u8, u32, u64)>
    decreases ups.len(),
{
    if ups.len() == 0 {
        Seq::empty()
    } else if now >= ups.last().2 {
        owed_ups(ups.drop_last(), now)
    } else {
        owed_ups(ups.drop_last(), now).push(ups.last())
    }
}

/// What a pad physically holds when an overlay lets go of it.
pub struct Held {
    /// Buttons down, as wire bits.
    pub bits: Vec<u32>,
    /// Wire values of the six axes.
    pub axes: [i32; 6],
}

/// The slots once an overlay lets go of them.
pub open spec fn readopted_slots(
    slots: Seq<SlotState>,
    held: Seq<Held>,
    routing: Routing,
    attached: bool,
) -> Seq<SlotState> {
    Seq::new(
        slots.len(),
        |i: int| slots[i].readopted(held[i].bits@, held[i].axes@, routing, attached).0,
    )
}

/// What the first `n` slots send then.
pub open spec fn readopt_acts(
    slots: Seq<SlotState>,
    held: Seq<Held>,
    routing: Routing,
    attached: bool,
    n: int,
) -> Seq<Act>
    decreases n,
{
    if n <= 0 {
        Seq::empty()
    } else {
        readopt_acts(slots, held, routing, attached, n - 1) + slots[n - 1].readopted(
            held[n - 1].bits@,
            held[n - 1].axes@,
            routing,
            attached,
        ).1
    }
}

/// The pulse a menu event asks for.
#[derive(Debug, Clone, Copy, PartialEq, Eq, Structural)]
pub enum MenuPulse {
    /// The cursor moved.
    Move,
    /// Something was chosen.
    Confirm,
    /// The cursor met an edge.
    Boundary,
}

/// Low motor, high motor and duration of a pulse.
pub open spec fn pulse_shape(pulse: MenuPulse) -> (u16, u16, u32) {
    match pulse {
        MenuPulse::Move => (0, 0x3000, 25),
        MenuPulse::Confirm => (0x5000, 0x5000, 60),
        MenuPulse::Boundary => (0x6000, 0, 60),
    }
}

impl WorkerState {
    /// A device was plugged in.
    pub open spec fn added(self, pad: PadState) -> (WorkerState, Seq<Act>) {
        if connected(self.order, pad.id) {
            (self, Seq::empty())
        } else {
            (WorkerState { order: self.order.push(pad), ..self }).refreshed()
        }
    }

    /// A device was unplugged.
    pub open spec fn removed(self, id: u32) -> (WorkerState, Seq<Act>) {
        if connected(self.order, id) {
            (WorkerState { order: pads_without(self.order, id), ..self }).refreshed()
        } else {
            (self, Seq::empty())
        }
    }

    /// A session attached.
    pub open spec fn attach(self) -> (WorkerState, Seq<Act>) {
        let (w, acts) = (WorkerState { attached: true, latch: EscapeLatch::idle(), ..self }).synced();
        (
            w,
            (if self.forwarding {
                seq![Act::Valve { on: true }]
            } else {
                Seq::empty()
            }) + acts,
        )
    }

    /// The session ended.
    pub open spec fn detach(self) -> (WorkerState, Seq<Act>) {
        let (w, acts) = (WorkerState {
            slots: Seq::empty(),
            attached: false,
            latch: EscapeLatch::idle(),
            ..self
        }).synced();
        (
            w,
            closing(self.slots, Seq::empty(), self.attached) + acts + seq![
                Act::Valve { on: false },
            ] + (if self.menu_mode {
                seq![Act::MenuReset]
            } else {
                Seq::<Act>::empty()
            }),
        )
    }

    /// System buttons were routed anew.
    pub open spec fn system_buttons(self, forward_raw: bool, gesture: bool) -> (
        WorkerState,
        Seq<Act>,
    ) {
        let routing = Routing {
            system_forward: forward_raw,
            guide_gesture: gesture,
            ..self.routing
        };
        let gate = seq![Act::RawGate { masked: self.masked, system_forward: forward_raw }];
        if self.routing.guide_gesture != gesture && self.attached {
            (
                WorkerState {
                    routing,
                    slots: swept_slots(self.slots, Sweep::FlushGesture),
                    ..self
                },
                gate + sweep_acts(self.slots, Sweep::FlushGesture),
            )
        } else {
            (WorkerState { routing, ..self }, gate)
        }
    }

    /// A button was tapped for the user.
    pub open spec fn tap(self, bit: u32, now: u64) -> (WorkerState, Seq<Act>) {
        if self.attached {
            let pad = if self.slots.len() > 0 {
                self.slots[0].index
            } else {
                0
            };
            (
                WorkerState { ups: self.ups.push((pad, bit, later(now, TAP_PRESS_NS))), ..self },
                seq![Act::Button { pad, bit, down: true }],
            )
        } else {
            (self, Seq::empty())
        }
    }

    /// An overlay took the input.
    pub open spec fn mask(self) -> (WorkerState, Seq<Act>) {
        if self.masked {
            (self, Seq::empty())
        } else {
            let gate = seq![
                Act::RawGate { masked: true, system_forward: self.routing.system_forward },
            ];
            let w = WorkerState { masked: true, latch: EscapeLatch::idle(), ..self };
            if self.attached {
                (
                    WorkerState { slots: swept_slots(self.slots, Sweep::Flush), ..w },
                    gate + sweep_acts(self.slots, Sweep::Flush),
                )
            } else {
                (w, gate)
            }
        }
    }

    /// The overlay let the input go.
    pub open spec fn unmask(self, held: Seq<Held>) -> (WorkerState, Seq<Act>) {
        if !self.masked {
            (self, Seq::empty())
        } else {
            let slots = readopted_slots(self.slots, held, self.routing, self.attached);
            (
                WorkerState {
                    masked: false,
                    slots,
                    latch: self.latch.after_release(chord_held(slots)),
                    ..self
                },
                seq![
                    Act::RawGate { masked: false, system_forward: self.routing.system_forward },
                ] + readopt_acts(
                    self.slots,
                    held,
                    self.routing,
                    self.attached,
                    self.slots.len() as int,
                ) + seq![Act::MenuReset],
            )
        }
    }

    /// Forwarding was switched.
    pub open spec fn forward(self, on: bool) -> (WorkerState, Seq<Act>) {
        if self.forwarding == on {
            (self, Seq::empty())
        } else {
            let (w, acts) = (WorkerState {
                forwarding: on,
                latch: EscapeLatch::idle(),
                ..self
            }).synced();
            (
                w,
                if !self.attached {
                    acts
                } else if on {
                    seq![Act::Valve { on: true }] + acts
                } else {
                    acts.push(Act::Valve { on: false })
                },
            )
        }
    }

    /// Menu mode was switched.
    pub open spec fn menu(self, on: bool) -> (WorkerState, Seq<Act>) {
        let (w, acts) = (WorkerState { menu_mode: on, ..self }).synced();
        (
            w,
            (if on {
                seq![Act::MenuReset]
            } else {
                Seq::empty()
            }) + acts,
        )
    }

    /// A controller reported something.
    pub open spec fn input(self, id: u32, input: PadInput, now: u64) -> (WorkerState, Seq<Act>) {
        match slot_at(self.slots, id) {
            Some(i) => if self.attached && !self.masked {
                let was = self.slots[i];
                let (s, acts) = slot_input(was, input, self.routing, now);
                let slots = self.slots.update(i, s);
                let held = chord_held(slots);
                if counts_as_press(was, input, self.routing) {
                    let (latch, fires) = self.latch.after_press(held, now);
                    (
                        WorkerState { slots, latch, ..self },
                        if fires {
                            acts.push(Act::Escape)
                        } else {
                            acts
                        },
                    )
                } else if counts_as_release(was, input, self.routing) {
                    (
                        WorkerState { slots, latch: self.latch.after_release(held), ..self },
                        acts,
                    )
                } else {
                    (WorkerState { slots, ..self }, acts)
                }
            } else {
                (self, Seq::empty())
            },
            None => (self, Seq::empty()),
        }
    }

    /// The clock moved on.
    pub open spec fn polled(self, now: u64) -> (WorkerState, Seq<Act>) {
        if !self.attached {
            (WorkerState { ups: Seq::empty(), ..self }, Seq::empty())
        } else {
            let w = WorkerState { ups: owed_ups(self.ups, now), ..self };
            let up = due_ups(self.ups, now);
            if self.routing.guide_gesture {
                let tick = Sweep::Tick { now };
                (
                    WorkerState { slots: swept_slots(self.slots, tick), ..w },
                    up + sweep_acts(self.slots, tick),
                )
            } else {
                (w, up)
            }
        }
    }

    /// The menu pad a pulse goes to.
    pub open spec fn pulsed(self) -> Option<u32> {
        if self.attached || self.menu_open.len() == 0 {
            None
        } else if self.menu_last is Some && self.menu_open.contains(self.menu_last->Some_0) {
            self.menu_last
        } else {
            Some(self.menu_open[0])
        }
    }

    /// The pads that drive the menu.
    pub open spec fn menu_drivers(self) -> Seq<u32> {
        if self.ring_nav {
            ids_of(self.slots)
        } else if !self.menu_mode || self.attached || self.masked {
            Seq::empty()
        } else {
            self.menu_open
        }
    }
}

/// A sweep changes neither devices nor indices.
pub proof fn a_sweep_keeps_the_table(slots: Seq<SlotState>, sweep: Sweep)
    requires
        table_ok(slots),
    ensures
        table_ok(swept_slots(slots, sweep)),
{
    let t = swept_slots(slots, sweep);
    assert forall|i: int, j: int| 0 <= i < j < t.len() implies #[trigger] apart(t[i], t[j]) by {
        assert(apart(slots[i], slots[j]));
    }
}

/// No input changes a slot's device or index.
pub proof fn an_input_keeps_the_slot(s: SlotState, input: PadInput, routing: Routing, now: u64)
    ensures
        slot_input(s, input, routing, now).0.id == s.id,
        slot_input(s, input, routing, now).0.index == s.index,
{
}

fn is_connected(order: &Vec<Pad>, id: u32) -> (r: bool)
    ensures
        r == connected(pads_of(order@), id),
{
    let ghost pads = pads_of(order@);
    let mut i: usize = 0;
    while i < order.len()
        invariant
            i <= order@.len(),
            pads == pads_of(order@),
            forall|j: int| 0 <= j < i ==> (#[trigger] pads[j]).id != id,
        decreases order@.len() - i,
    {
        assert(pads[i as int].id == order@[i as int].id);
        if order[i].id == id {
            return true;
        }
        i = i + 1;
    }
    false
}

fn unplug(order: &mut Vec<Pad>, id: u32)
    ensures
        pads_of(final(order)@) == pads_without(pads_of(old(order)@), id),
{
    let ghost was = pads_of(order@);
    let mut i: usize = 0;
    let ghost mut k: int = 0;
    assert(was.take(0) =~= Seq::<PadState>::empty());
    assert(pads_of(order@) =~= pads_without(was.take(0), id) + was.skip(0));
    while i < order.len()
        invariant
            i <= order@.len(),
            0 <= k <= was.len(),
            pads_without(was.take(k), id).len() == i,
            pads_of(order@) == pads_without(was.take(k), id) + was.skip(k),
        decreases order@.len() - i,
    {
        let ghost states = pads_of(order@);
        assert(states.len() == order@.len());
        assert(states[i as int] == was.skip(k)[0]);
        assert(order@[i as int]@ == was[k]);
        assert(was.take(k + 1).drop_last() =~= was.take(k));
        assert(was.take(k + 1).last() == was[k]);
        if order[i].id != id {
            proof {
                assert(states =~= pads_without(was.take(k + 1), id) + was.skip(k + 1));
                k = k + 1;
            }
            i = i + 1;
        } else {
            order.remove(i);
            proof {
                assert(pads_without(was.take(k + 1), id) == pads_without(was.take(k), id));
                let now = pads_of(order@);
                assert(now =~= states.remove(i as int));
                assert(now =~= pads_without(was.take(k + 1), id) + was.skip(k + 1));
                k = k + 1;
            }
        }
    }
    assert(k == was.len());
    assert(was.take(k) =~= was);
    assert(pads_of(order@) =~= pads_without(was, id));
}

fn send_due(ups: &Vec<(u8, u32, u64)>, now: u64, out: &mut Vec<Act>) -> (r: Vec<(u8, u32, u64)>)
    ensures
        r@ == owed_ups(ups@, now),
        final(out)@ == old(out)@ + due_ups(ups@, now),
{
    let ghost start = out@;
    let mut r: Vec<(u8, u32, u64)> = Vec::new();
    let mut i: usize = 0;
    assert(r@ =~= owed_ups(ups@.take(0), now));
    assert(out@ =~= start + due_ups(ups@.take(0), now));
    while i < ups.len()
        invariant
            i <= ups@.len(),
            r@ == owed_ups(ups@.take(i as int), now),
            out@ == start + due_ups(ups@.take(i as int), now),
        decreases ups@.len() - i,
    {
        assert(ups@.take(i + 1).drop_last() =~= ups@.take(i as int));
        let (pad, bit, due) = ups[i];
        if now >= due {
            out.push(Act::Button { pad, bit, down: false });
        } else {
            r.push((pad, bit, due));
        }
        assert(out@ =~= start + due_ups(ups@.take(i + 1), now));
        i = i + 1;
    }
    assert(ups@.take(i as int) =~= ups@);
    r
}

fn readopt_all(
    slots: &mut Vec<Slot>,
    held: &Vec<Held>,
    routing: Routing,
    attached: bool,
    out: &mut Vec<Act>,
)
    requires
        held@.len() == old(slots)@.len(),
    ensures
        slots_of(final(slots)@) == readopted_slots(slots_of(old(slots)@), held@, routing, attached),
        final(out)@ == old(out)@ + readopt_acts(
            slots_of(old(slots)@),
            held@,
            routing,
            attached,
            old(slots)@.len() as int,
        ),
{
    let ghost was = slots_of(slots@);
    let ghost start = out@;
    let n: usize = slots.len();
    let mut i: usize = 0;
    while i < n
        invariant
            i <= n,
            n == slots@.len(),
            n == held@.len(),
            was.len() == n,
            forall|j: int|
                0 <= j < i ==> (#[trigger] slots@[j])@ == was[j].readopted(
                    held@[j].bits@,
                    held@[j].axes@,
                    routing,
                    attached,
                ).0,
            forall|j: int| i <= j < n ==> (#[trigger] slots@[j])@ == was[j],
            out@ == start + readopt_acts(was, held@, routing, attached, i as int),
        decreases n - i,
    {
        slots[i].readopt(&held[i].bits, held[i].axes, routing, attached, out);
        assert(out@ =~= start + readopt_acts(was, held@, routing, attached, i + 1));
        i = i + 1;
    }
    assert(slots_of(slots@) =~= readopted_slots(was, held@, routing, attached));
}

impl Worker {
    /// A device was plugged in. One already known is nothing new.
    pub fn device_added(&mut self, pad: Pad, out: &mut Vec<Act>)
        requires
            old(self).wf(),
        ensures
            final(self).wf(),
            ({
                let (w, acts) = old(self)@.added(pad@);
                &&& final(self)@ == w
                &&& final(out)@ == old(out)@ + acts
            }),
    {
        let ghost start = out@;
        let ghost was = self@;
        if !is_connected(&self.order, pad.id) {
            self.order.push(pad);
            assert(pads_of(self.order@) =~= was.order.push(pad@));
            assert(self@ =~= (WorkerState { order: was.order.push(pad@), ..was }));
            self.refresh_active(out);
        }
        assert(self@ =~= was.added(pad@).0);
        assert(out@ =~= start + was.added(pad@).1);
    }

    /// A device was unplugged.
    pub fn device_removed(&mut self, id: u32, out: &mut Vec<Act>)
        requires
            old(self).wf(),
        ensures
            final(self).wf(),
            ({
                let (w, acts) = old(self)@.removed(id);
                &&& final(self)@ == w
                &&& final(out)@ == old(out)@ + acts
            }),
    {
        let ghost start = out@;
        let ghost was = self@;
        if is_connected(&self.order, id) {
            unplug(&mut self.order, id);
            assert(self@ =~= (WorkerState { order: pads_without(was.order, id), ..was }));
            self.refresh_active(out);
        }
        assert(self@ =~= was.removed(id).0);
        assert(out@ =~= start + was.removed(id).1);
    }

    /// A session attached. The Valve drivers are wanted only while pads are forwarded.
    pub fn attach(&mut self, out: &mut Vec<Act>)
        requires
            old(self).wf(),
        ensures
            final(self).wf(),
            ({
                let (w, acts) = old(self)@.attach();
                &&& final(self)@ == w
                &&& final(out)@ == old(out)@ + acts
            }),
    {
        let ghost start = out@;
        let ghost was = self@;
        self.attached = true;
        self.latch.reset();
        if self.forwarding {
            out.push(Act::Valve { on: true });
        }
        assert(self@ =~= (WorkerState { attached: true, latch: EscapeLatch::idle(), ..was }));
        self.sync_open(out);
        assert(self@ =~= was.attach().0);
        assert(out@ =~= start + was.attach().1);
    }

    /// Close every forwarded slot: each is neutral and silent, and the host takes it away.
    pub fn close_all_slots(&mut self, out: &mut Vec<Act>)
        requires
            old(self).wf(),
        ensures
            final(self).wf(),
            final(self)@ == (WorkerState { slots: Seq::empty(), ..old(self)@ }),
            final(out)@ == old(out)@ + closing(old(self)@.slots, Seq::empty(), old(self)@.attached),
    {
        let ghost was = self@;
        let none: Vec<u32> = Vec::new();
        assert(none@ =~= Seq::<u32>::empty());
        let attached: bool = self.attached;
        close_others(&mut self.slots, none.as_slice(), attached, out);
        proof {
            nothing_wanted_keeps_nothing(was.slots);
        }
        assert(self@ =~= (WorkerState { slots: Seq::empty(), ..was }));
    }

    /// The session ended. Slots close while the host is still there to hear it.
    pub fn detach(&mut self, out: &mut Vec<Act>)
        requires
            old(self).wf(),
        ensures
            final(self).wf(),
            ({
                let (w, acts) = old(self)@.detach();
                &&& final(self)@ == w
                &&& final(out)@ == old(out)@ + acts
            }),
    {
        let ghost start = out@;
        let ghost was = self@;
        self.close_all_slots(out);
        self.attached = false;
        self.latch.reset();
        assert(self@ =~= (WorkerState {
            slots: Seq::empty(),
            attached: false,
            latch: EscapeLatch::idle(),
            ..was
        }));
        self.sync_open(out);
        out.push(Act::Valve { on: false });
        if self.menu_mode {
            out.push(Act::MenuReset);
        }
        assert(self@ =~= was.detach().0);
        assert(out@ =~= start + was.detach().1);
    }

    /// Pin a pad by its key, or none.
    pub fn pin(&mut self, key: Option<String>, out: &mut Vec<Act>)
        requires
            old(self).wf(),
        ensures
            final(self).wf(),
            ({
                let (w, acts) = (WorkerState {
                    pinned: opt_view(key),
                    ..old(self)@
                }).refreshed();
                &&& final(self)@ == w
                &&& final(out)@ == old(out)@ + acts
            }),
    {
        let ghost was = self@;
        self.pinned = key;
        assert(self@ =~= (WorkerState { pinned: opt_view(key), ..was }));
        self.refresh_active(out);
    }

    /// The kind told to the host from the next open on.
    pub fn set_kind(&mut self, pref: GamepadPref)
        requires
            old(self).wf(),
        ensures
            final(self).wf(),
            final(self)@ == (WorkerState { kind_override: pref, ..old(self)@ }),
    {
        self.kind_override = pref;
        assert(self@ =~= (WorkerState { kind_override: pref, ..old(self)@ }));
    }

    /// Whether something listens for Select chords.
    pub fn set_chords(&mut self, on: bool)
        requires
            old(self).wf(),
        ensures
            final(self).wf(),
            final(self)@ == (WorkerState {
                routing: Routing { chords_live: on, ..old(self)@.routing },
                ..old(self)@
            }),
    {
        let ghost was = self@;
        self.routing = Routing {
            system_forward: self.routing.system_forward,
            guide_gesture: self.routing.guide_gesture,
            chords_live: on,
        };
        assert(self@ =~= (WorkerState {
            routing: Routing { chords_live: on, ..was.routing },
            ..was
        }));
    }

    /// Which pad-audio streams the user wants: bit 0 haptics, bit 1 speaker.
    pub fn set_audio_prefs(&mut self, bits: u8)
        requires
            old(self).wf(),
        ensures
            final(self).wf(),
            final(self)@ == (WorkerState { audio_prefs: bits & 0x03, ..old(self)@ }),
    {
        self.audio_prefs = bits & 0x03;
        assert(self@ =~= (WorkerState { audio_prefs: bits & 0x03, ..old(self)@ }));
    }

    /// The dial opened or closed.
    pub fn set_ring(&mut self, on: bool, out: &mut Vec<Act>)
        requires
            old(self).wf(),
        ensures
            final(self).wf(),
            final(self)@ == (WorkerState { ring_nav: on, ..old(self)@ }),
            final(out)@ == old(out)@.push(Act::MenuReset),
    {
        self.ring_nav = on;
        out.push(Act::MenuReset);
        assert(self@ =~= (WorkerState { ring_nav: on, ..old(self)@ }));
    }

    /// Where system buttons go. A flip of the gesture lifts what it has down.
    pub fn system_buttons(&mut self, forward_raw: bool, gesture: bool, out: &mut Vec<Act>)
        requires
            old(self).wf(),
        ensures
            final(self).wf(),
            ({
                let (w, acts) = old(self)@.system_buttons(forward_raw, gesture);
                &&& final(self)@ == w
                &&& final(out)@ == old(out)@ + acts
            }),
    {
        let ghost start = out@;
        let ghost was = self@;
        let flips: bool = self.routing.guide_gesture != gesture;
        self.routing = Routing {
            system_forward: forward_raw,
            guide_gesture: gesture,
            chords_live: self.routing.chords_live,
        };
        out.push(Act::RawGate { masked: self.masked, system_forward: forward_raw });
        if flips && self.attached {
            sweep_all(&mut self.slots, Sweep::FlushGesture, out);
            proof {
                a_sweep_keeps_the_table(was.slots, Sweep::FlushGesture);
            }
        }
        assert(self@ =~= was.system_buttons(forward_raw, gesture).0);
        assert(out@ =~= start + was.system_buttons(forward_raw, gesture).1);
    }

    /// Tap a button for the user: down now on the first forwarded index, up a moment later.
    pub fn tap_button(&mut self, bit: u32, now: u64, out: &mut Vec<Act>)
        requires
            old(self).wf(),
        ensures
            final(self).wf(),
            ({
                let (w, acts) = old(self)@.tap(bit, now);
                &&& final(self)@ == w
                &&& final(out)@ == old(out)@ + acts
            }),
    {
        let ghost start = out@;
        let ghost was = self@;
        if self.attached {
            let pad: u8 = if self.slots.len() > 0 {
                self.slots[0].index
            } else {
                0
            };
            out.push(Act::Button { pad, bit, down: true });
            self.ups.push((pad, bit, now.saturating_add(TAP_PRESS_NS)));
        }
        assert(self@ =~= was.tap(bit, now).0);
        assert(out@ =~= start + was.tap(bit, now).1);
    }

    /// An overlay took the input: pads go neutral, slots stay open, so the host sees no unplug.
    pub fn mask(&mut self, out: &mut Vec<Act>)
        requires
            old(self).wf(),
        ensures
            final(self).wf(),
            ({
                let (w, acts) = old(self)@.mask();
                &&& final(self)@ == w
                &&& final(out)@ == old(out)@ + acts
            }),
    {
        let ghost start = out@;
        let ghost was = self@;
        if !self.masked {
            self.masked = true;
            out.push(
                Act::RawGate { masked: true, system_forward: self.routing.system_forward },
            );
            if self.attached {
                sweep_all(&mut self.slots, Sweep::Flush, out);
                proof {
                    a_sweep_keeps_the_table(was.slots, Sweep::Flush);
                }
            }
            self.latch.reset();
        }
        assert(self@ =~= was.mask().0);
        assert(out@ =~= start + was.mask().1);
    }

    /// The overlay let the input go; `held` is what each slot's pad physically holds.
    pub fn unmask(&mut self, held: &Vec<Held>, out: &mut Vec<Act>)
        requires
            old(self).wf(),
            held@.len() == old(self).slots@.len(),
        ensures
            final(self).wf(),
            ({
                let (w, acts) = old(self)@.unmask(held@);
                &&& final(self)@ == w
                &&& final(out)@ == old(out)@ + acts
            }),
    {
        let ghost start = out@;
        let ghost was = self@;
        if self.masked {
            self.masked = false;
            out.push(
                Act::RawGate { masked: false, system_forward: self.routing.system_forward },
            );
            let routing: Routing = self.routing;
            let attached: bool = self.attached;
            readopt_all(&mut self.slots, held, routing, attached, out);
            proof {
                let t = readopted_slots(was.slots, held@, routing, attached);
                assert forall|i: int, j: int| 0 <= i < j < t.len() implies #[trigger] apart(
                    t[i],
                    t[j],
                ) by {
                    assert(apart(was.slots[i], was.slots[j]));
                }
            }
            let whole: bool = chord_is_held(&self.slots);
            self.latch.on_release(whole);
            out.push(Act::MenuReset);
        }
        assert(self@ =~= was.unmask(held@).0);
        assert(out@ =~= start + was.unmask(held@).1);
    }

    /// Forward pads or not. The Valve drivers go on before a pad opens and off after the last closed.
    pub fn set_forwarding(&mut self, on: bool, out: &mut Vec<Act>)
        requires
            old(self).wf(),
        ensures
            final(self).wf(),
            ({
                let (w, acts) = old(self)@.forward(on);
                &&& final(self)@ == w
                &&& final(out)@ == old(out)@ + acts
            }),
    {
        let ghost start = out@;
        let ghost was = self@;
        if self.forwarding != on {
            self.forwarding = on;
            self.latch.reset();
            let attached: bool = self.attached;
            if on && attached {
                out.push(Act::Valve { on: true });
            }
            assert(self@ =~= (WorkerState { forwarding: on, latch: EscapeLatch::idle(), ..was }));
            self.sync_open(out);
            if !on && attached {
                out.push(Act::Valve { on: false });
            }
        }
        assert(self@ =~= was.forward(on).0);
        assert(out@ =~= start + was.forward(on).1);
    }

    /// Menu mode on or off.
    pub fn set_menu(&mut self, on: bool, out: &mut Vec<Act>)
        requires
            old(self).wf(),
        ensures
            final(self).wf(),
            ({
                let (w, acts) = old(self)@.menu(on);
                &&& final(self)@ == w
                &&& final(out)@ == old(out)@ + acts
            }),
    {
        let ghost start = out@;
        let ghost was = self@;
        self.menu_mode = on;
        if on {
            out.push(Act::MenuReset);
        }
        assert(self@ =~= (WorkerState { menu_mode: on, ..was }));
        self.sync_open(out);
        assert(self@ =~= was.menu(on).0);
        assert(out@ =~= start + was.menu(on).1);
    }

    /// A controller reported something. Nothing goes out while an overlay owns the input.
    pub fn handle_input(&mut self, id: u32, input: PadInput, now: u64, out: &mut Vec<Act>)
        requires
            old(self).wf(),
            input matches PadInput::Touch { touchpad, .. } ==> touchpad < 255,
        ensures
            final(self).wf(),
            ({
                let (w, acts) = old(self)@.input(id, input, now);
                &&& final(self)@ == w
                &&& final(out)@ == old(out)@ + acts
            }),
    {
        let ghost start = out@;
        let ghost was = self@;
        proof {
            a_slot_is_found_by_its_id(was.slots, id);
        }
        if self.attached && !self.masked {
            match find_slot(&self.slots, id) {
                Some(i) => {
                    let ghost before = self.slots@;
                    let routing: Routing = self.routing;
                    let step: ChordStep = apply_input(&mut self.slots[i], input, routing, now, out);
                    proof {
                        let s = slot_input(was.slots[i as int], input, routing, now).0;
                        an_input_keeps_the_slot(was.slots[i as int], input, routing, now);
                        assert(slots_of(self.slots@) =~= was.slots.update(i as int, s));
                        let t = was.slots.update(i as int, s);
                        assert forall|a: int, b: int| 0 <= a < b < t.len() implies #[trigger] apart(
                            t[a],
                            t[b],
                        ) by {
                            assert(apart(was.slots[a], was.slots[b]));
                        }
                        assert(self.wf());
                    }
                    let held: bool = chord_is_held(&self.slots);
                    match step {
                        ChordStep::Press => {
                            if self.latch.on_press(held, now) {
                                out.push(Act::Escape);
                            }
                        },
                        ChordStep::Release => {
                            self.latch.on_release(held);
                        },
                        ChordStep::Neither => {},
                    }
                },
                None => {},
            }
        }
        assert(self@ =~= was.input(id, input, now).0);
        assert(out@ =~= start + was.input(id, input, now).1);
    }

    /// The clock moved on: owed releases go out, pending Selects become Guide.
    pub fn gesture_poll(&mut self, now: u64, out: &mut Vec<Act>)
        requires
            old(self).wf(),
        ensures
            final(self).wf(),
            ({
                let (w, acts) = old(self)@.polled(now);
                &&& final(self)@ == w
                &&& final(out)@ == old(out)@ + acts
            }),
    {
        let ghost start = out@;
        let ghost was = self@;
        if !self.attached {
            self.ups = Vec::new();
        } else {
            self.ups = send_due(&self.ups, now, out);
            if self.routing.guide_gesture {
                let tick = Sweep::Tick { now };
                sweep_all(&mut self.slots, tick, out);
                proof {
                    a_sweep_keeps_the_table(was.slots, tick);
                }
            }
        }
        assert(self@ =~= was.polled(now).0);
        assert(out@ =~= start + was.polled(now).1);
    }

    /// The escape chord held long enough disconnects, once.
    pub fn maybe_fire_disconnect(&mut self, now: u64, out: &mut Vec<Act>)
        requires
            old(self).wf(),
        ensures
            final(self).wf(),
            ({
                let due = old(self)@.latch.disconnect_due(now);
                &&& final(self)@ == (WorkerState {
                    latch: EscapeLatch {
                        fired: old(self)@.latch.fired || due,
                        ..old(self)@.latch
                    },
                    ..old(self)@
                })
                &&& final(out)@ == (if due {
                    old(out)@.push(Act::Disconnect)
                } else {
                    old(out)@
                })
            }),
    {
        let ghost was = self@;
        if self.latch.poll(now) {
            out.push(Act::Disconnect);
        }
        let ghost due = was.latch.disconnect_due(now);
        assert(self@ =~= (WorkerState {
            latch: EscapeLatch { fired: was.latch.fired || due, ..was.latch },
            ..was
        }));
    }

    /// A menu pulse: into the hands that last moved the cursor, else into the first pad.
    pub fn menu_rumble(&self, pulse: MenuPulse, out: &mut Vec<Act>)
        ensures
            final(out)@ == (match self@.pulsed() {
                Some(id) => old(out)@.push(
                    Act::Pulse {
                        id,
                        low: pulse_shape(pulse).0,
                        high: pulse_shape(pulse).1,
                        ms: pulse_shape(pulse).2,
                    },
                ),
                None => old(out)@,
            }),
    {
        if self.attached || self.menu_open.len() == 0 {
            return;
        }
        let id: u32 = match self.menu_last {
            Some(last) => if holds(self.menu_open.as_slice(), last) {
                last
            } else {
                self.menu_open[0]
            },
            None => self.menu_open[0],
        };
        let (low, high, ms): (u16, u16, u32) = match pulse {
            MenuPulse::Move => (0, 0x3000, 25),
            MenuPulse::Confirm => (0x5000, 0x5000, 60),
            MenuPulse::Boundary => (0x6000, 0, 60),
        };
        out.push(Act::Pulse { id, low, high, ms });
    }

    /// The pads that drive the menu: every slot while the dial is open, else the menu pads,
    /// and none while a session or an overlay has them.
    pub fn menu_pads(&self) -> (r: Vec<u32>)
        ensures
            r@ == self@.menu_drivers(),
    {
        if self.ring_nav {
            slot_ids(&self.slots)
        } else if !self.menu_mode || self.attached || self.masked {
            Vec::new()
        } else {
            let mut r: Vec<u32> = Vec::new();
            let mut i: usize = 0;
            while i < self.menu_open.len()
                invariant
                    i <= self.menu_open@.len(),
                    r@ == self.menu_open@.take(i as int),
                decreases self.menu_open@.len() - i,
            {
                r.push(self.menu_open[i]);
                i = i + 1;
                assert(self.menu_open@.take(i as int) =~= self.menu_open@.take(i - 1).push(
                    self.menu_open@[i - 1],
                ));
            }
            assert(r@ =~= self.menu_open@);
            r
        }
    }

    /// A menu pad opened: held state is taken over, not acted on.
    pub fn menu_opened(&mut self, id: u32, out: &mut Vec<Act>)
        requires
            old(self).wf(),
        ensures
            final(self).wf(),
            final(self)@ == (WorkerState { menu_open: old(self)@.menu_open.push(id), ..old(self)@ }),
            final(out)@ == old(out)@.push(Act::MenuReset),
    {
        let ghost was = self@;
        self.menu_open.push(id);
        out.push(Act::MenuReset);
        assert(self@ =~= (WorkerState { menu_open: was.menu_open.push(id), ..was }));
    }
}

} // verus!
