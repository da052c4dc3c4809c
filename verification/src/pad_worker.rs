//! The controller table of a session: which pads are forwarded, under which index, and what
//! each event and each control message does to them.

use vstd::prelude::*;
use crate::buttons::{
    axis_value, bit_of_button, button_bit, wire_axis, PadAxis, PadButton, MAX_PADS,
};
use crate::gesture::{later, SelectChord};
use crate::pad_slot::{Act, Contact, GamepadPref, Routing, Slot, SlotState, Triple};
use crate::text::{opt_view, same};

verus! {

/// Hold the escape chord this long to disconnect.
pub const DISCONNECT_HOLD_NS: u64 = 1_500_000_000;

/// How often a Steam Deck's actuator is driven again.
pub const DECK_RUMBLE_KEEPALIVE_MS: u16 = 40;

/// Whether no slot uses an index.
pub open spec fn index_free(taken: Seq<u8>, index: u8) -> bool {
    index < MAX_PADS && !taken.contains(index)
}

/// Lowest free wire index, or `None` when every slot is taken. Lowest-free keeps indices
/// stable: a disconnect frees only its own index.
pub fn lowest_free_index(taken: &[u8]) -> (r: Option<u8>)
    ensures
        match r {
            Some(i) => index_free(taken@, i) && forall|j: u8| j < i ==> !index_free(taken@, j),
            None => forall|j: u8| !index_free(taken@, j),
        },
        r matches Some(i) ==> i < 16 && !taken@.contains(i) && forall|j: u8|
            j < i ==> #[trigger] taken@.contains(j),
        r is None ==> forall|j: u8| j < 16 ==> #[trigger] taken@.contains(j),
{
    let mut i: u8 = 0;
    while i < MAX_PADS
        invariant
            i <= MAX_PADS,
            forall|j: u8| j < i ==> taken@.contains(j),
        decreases MAX_PADS - i,
    {
        let mut k: usize = 0;
        let mut used: bool = false;
        while k < taken.len()
            invariant
                k <= taken@.len(),
                used == taken@.take(k as int).contains(i),
            decreases taken@.len() - k,
        {
            let ghost before = taken@.take(k as int);
            let ghost after = taken@.take(k + 1);
            assert(after =~= before.push(taken@[k as int]));
            proof {
                if before.contains(i) {
                    let m = choose|m: int| 0 <= m < before.len() && before[m] == i;
                    assert(after[m] == i);
                }
                assert(after[k as int] == taken@[k as int]);
                if after.contains(i) && taken@[k as int] != i {
                    let m = choose|m: int| 0 <= m < after.len() && after[m] == i;
                    assert(before[m] == i);
                }
            }
            if taken[k] == i {
                used = true;
            }
            k = k + 1;
        }
        assert(taken@.take(k as int) =~= taken@);
        if !used {
            return Some(i);
        }
        i = i + 1;
    }
    None
}

/// Kind declared to the host: an explicit setting on every pad, else what the pad is.
pub fn declared_kind(setting: GamepadPref, physical: GamepadPref) -> (r: GamepadPref)
    ensures
        r == kind_told(setting, physical),
        setting == GamepadPref::Auto ==> r == physical,
        setting != GamepadPref::Auto ==> r == setting,
{
    match setting {
        GamepadPref::Auto => physical,
        explicit => explicit,
    }
}

/// Kind declared to the host.
pub open spec fn kind_told(setting: GamepadPref, physical: GamepadPref) -> GamepadPref {
    if setting == GamepadPref::Auto {
        physical
    } else {
        setting
    }
}

/// The escape chord's latch: it fires once per hold, and once more when held long.
#[derive(Debug, Clone, Copy, PartialEq, Eq)]
pub struct EscapeLatch {
    pub armed: bool,
    pub since: Option<u64>,
    pub fired: bool,
}

impl EscapeLatch {
    /// Not held.
    pub open spec fn idle() -> EscapeLatch {
        EscapeLatch { armed: false, since: None, fired: false }
    }

    /// A press happened.
    pub open spec fn after_press(self, held: bool, now: u64) -> (EscapeLatch, bool) {
        if !self.armed && held {
            (EscapeLatch { armed: true, since: Some(now), ..self }, true)
        } else {
            (self, false)
        }
    }

    /// A release happened.
    pub open spec fn after_release(self, held: bool) -> EscapeLatch {
        if self.armed && !held {
            EscapeLatch::idle()
        } else {
            self
        }
    }

    /// Whether the hold is long enough to disconnect, and has not said so yet.
    pub open spec fn disconnect_due(self, now: u64) -> bool {
        !self.fired && self.since is Some && now - self.since->Some_0 >= DISCONNECT_HOLD_NS
    }

    /// Not held.
    pub fn reset(&mut self)
        ensures
            *final(self) == EscapeLatch::idle(),
    {
        self.armed = false;
        self.since = None;
        self.fired = false;
    }

    /// A press happened. Answers whether the escape goes out.
    pub fn on_press(&mut self, held: bool, now: u64) -> (r: bool)
        ensures
            (*final(self), r) == old(self).after_press(held, now),
    {
        if !self.armed && held {
            self.armed = true;
            self.since = Some(now);
            true
        } else {
            false
        }
    }

    /// A release happened: the latch opens once the chord is no longer whole.
    pub fn on_release(&mut self, held: bool)
        ensures
            *final(self) == old(self).after_release(held),
    {
        if self.armed && !held {
            self.reset();
        }
    }

    /// The clock moved on. Answers whether the disconnect goes out.
    pub fn poll(&mut self, now: u64) -> (r: bool)
        ensures
            r == old(self).disconnect_due(now),
            *final(self) == (EscapeLatch { fired: old(self).fired || r, ..*old(self) }),
    {
        if self.fired {
            return false;
        }
        match self.since {
            Some(t) => {
                if now.saturating_sub(t) >= DISCONNECT_HOLD_NS {
                    self.fired = true;
                    return true;
                }
                false
            },
            None => false,
        }
    }
}

/// A hold fires one escape and one disconnect, however long it lasts.
pub proof fn the_latch_fires_once(l: EscapeLatch, held: bool, now: u64, later: u64)
    ensures
        !l.after_press(held, now).0.after_press(held, later).1,
        l.disconnect_due(now) ==> !(EscapeLatch { fired: true, ..l }).disconnect_due(later),
{
}

/// A controller that is plugged in, as values.
pub struct PadState {
    pub id: u32,
    pub key: Seq<char>,
    pub steam_virtual: bool,
    pub pref: GamepadPref,
}

/// A controller that is plugged in.
pub struct Pad {
    /// The device's instance id.
    pub id: u32,
    /// Stable over unplugging: vendor, product and name.
    pub key: String,
    /// Steam Input's stand-in for another controller.
    pub steam_virtual: bool,
    pub pref: GamepadPref,
}

impl View for Pad {
    type V = PadState;

    open spec fn view(&self) -> PadState {
        PadState {
            id: self.id,
            key: self.key@,
            steam_virtual: self.steam_virtual,
            pref: self.pref,
        }
    }
}

/// The views of a list of pads.
pub open spec fn pads_of(order: Seq<Pad>) -> Seq<PadState> {
    order.map_values(|p: Pad| p@)
}

/// The newest pad the pin matches.
pub open spec fn newest_pin(order: Seq<PadState>, pinned: Option<Seq<char>>) -> Option<int>
    decreases order.len(),
{
    if pinned is None || order.len() == 0 {
        None
    } else if order.last().key == pinned->Some_0 {
        Some(order.len() - 1)
    } else {
        newest_pin(order.drop_last(), pinned)
    }
}

/// The ids of the pads that are no stand-ins.
pub open spec fn real_ids(order: Seq<PadState>) -> Seq<u32>
    decreases order.len(),
{
    if order.len() == 0 {
        Seq::empty()
    } else if order.last().steam_virtual {
        real_ids(order.drop_last())
    } else {
        real_ids(order.drop_last()).push(order.last().id)
    }
}

/// All ids, in the order plugged in.
pub open spec fn all_ids(order: Seq<PadState>) -> Seq<u32> {
    order.map_values(|p: PadState| p.id)
}

/// The pads to use: the newest one the pin matches, else every real pad, else every stand-in.
pub open spec fn candidates(order: Seq<PadState>, pinned: Option<Seq<char>>) -> Seq<u32> {
    match newest_pin(order, pinned) {
        Some(i) => seq![order[i].id],
        None => if real_ids(order).len() > 0 {
            real_ids(order)
        } else {
            all_ids(order)
        },
    }
}

fn newest_pinned(order: &Vec<Pad>, pinned: &Option<String>) -> (r: Option<usize>)
    ensures
        match r {
            Some(i) => i < order@.len() && newest_pin(pads_of(order@), opt_view(*pinned)) == Some(
                i as int,
            ),
            None => newest_pin(pads_of(order@), opt_view(*pinned)) is None,
        },
{
    let ghost pads = pads_of(order@);
    match pinned {
        None => None,
        Some(key) => {
            let mut i: usize = order.len();
            assert(pads.take(i as int) =~= pads);
            while i > 0
                invariant
                    i <= order@.len(),
                    pads == pads_of(order@),
                    opt_view(*pinned) == Some(key@),
                    newest_pin(pads, opt_view(*pinned)) == newest_pin(
                        pads.take(i as int),
                        opt_view(*pinned),
                    ),
                decreases i,
            {
                i = i - 1;
                assert(pads.take(i + 1).drop_last() =~= pads.take(i as int));
                assert(pads.take(i + 1).last() == order@[i as int]@);
                if same(order[i].key.as_str(), key.as_str()) {
                    return Some(i);
                }
            }
            None
        },
    }
}

/// The pads to use: the pinned one, else every real pad, else every stand-in.
pub fn candidate_ids(order: &Vec<Pad>, pinned: &Option<String>) -> (r: Vec<u32>)
    ensures
        r@ == candidates(pads_of(order@), opt_view(*pinned)),
{
    let ghost pads = pads_of(order@);
    match newest_pinned(order, pinned) {
        Some(i) => {
            let mut out: Vec<u32> = Vec::new();
            out.push(order[i].id);
            assert(out@ =~= seq![pads[i as int].id]);
            return out;
        },
        None => {},
    }
    let mut genuine: Vec<u32> = Vec::new();
    let mut all: Vec<u32> = Vec::new();
    let mut i: usize = 0;
    assert(genuine@ =~= real_ids(pads.take(0)));
    assert(all@ =~= all_ids(pads.take(0)));
    while i < order.len()
        invariant
            i <= order@.len(),
            pads == pads_of(order@),
            genuine@ == real_ids(pads.take(i as int)),
            all@ == all_ids(pads.take(i as int)),
        decreases order@.len() - i,
    {
        assert(pads.take(i + 1).drop_last() =~= pads.take(i as int));
        assert(pads.take(i + 1).last() == order@[i as int]@);
        if !order[i].steam_virtual {
            genuine.push(order[i].id);
        }
        all.push(order[i].id);
        assert(all@ =~= all_ids(pads.take(i + 1)));
        i = i + 1;
    }
    assert(pads.take(i as int) =~= pads);
    if genuine.len() > 0 {
        genuine
    } else {
        all
    }
}

/// The pad the client calls active: the newest the pin matches, else the newest real one, else
/// the newest.
pub open spec fn active(order: Seq<PadState>, pinned: Option<Seq<char>>) -> Option<u32> {
    let c = candidates(order, pinned);
    if c.len() > 0 {
        Some(c.last())
    } else {
        None
    }
}

/// The pad the client calls active.
pub fn active_id(order: &Vec<Pad>, pinned: &Option<String>) -> (r: Option<u32>)
    ensures
        r == active(pads_of(order@), opt_view(*pinned)),
{
    let c: Vec<u32> = candidate_ids(order, pinned);
    if c.len() == 0 {
        None
    } else {
        Some(c[c.len() - 1])
    }
}

/// Something a forwarded controller reports.
#[derive(Debug, Clone, Copy, PartialEq, Eq, Structural)]
pub enum PadInput {
    Down { button: PadButton },
    Up { button: PadButton },
    Axis { axis: PadAxis, value: i16 },
    Touch { touchpad: u8, finger: u8, at: Contact, active: bool },
    Accel { accel: Triple },
    /// A rotation; `reaches` is whether the host's controller has a gyro.
    Gyro { gyro: Triple, reaches: bool },
}

/// The touch surface a button clicks on a pad with two.
pub open spec fn click_surface(multi: bool, button: PadButton) -> Option<u8> {
    if !multi {
        None
    } else if button == PadButton::Touchpad {
        Some(1u8)
    } else if button == PadButton::Misc2 {
        Some(2u8)
    } else {
        None
    }
}

/// The touch surface a button clicks on a pad with two. Such clicks must not ride the button
/// plane, where the host would take them for another pad's.
pub fn steam_click_surface(multi: bool, button: PadButton) -> (r: Option<u8>)
    ensures
        r == click_surface(multi, button),
        multi && button == PadButton::Touchpad ==> r == Some(1u8),
        multi && button == PadButton::Misc2 ==> r == Some(2u8),
        !multi || (button != PadButton::Touchpad && button != PadButton::Misc2) ==> r is None,
{
    if !multi {
        return None;
    }
    match button {
        PadButton::Touchpad => Some(1),
        PadButton::Misc2 => Some(2),
        _ => None,
    }
}

/// A slot after an input, and what is sent.
pub open spec fn slot_input(s: SlotState, input: PadInput, routing: Routing, now: u64) -> (
    SlotState,
    Seq<Act>,
) {
    match input {
        PadInput::Down { button } => match click_surface(s.multi, button) {
            Some(surface) => s.clicked(surface, true),
            None => match bit_of_button(button) {
                Some(bit) => s.pressed(bit, routing, now),
                None => (s, Seq::empty()),
            },
        },
        PadInput::Up { button } => match click_surface(s.multi, button) {
            Some(surface) => s.clicked(surface, false),
            None => match bit_of_button(button) {
                Some(bit) => s.released(bit, routing, now),
                None => (s, Seq::empty()),
            },
        },
        PadInput::Axis { axis, value } => s.moved(
            wire_axis(axis, value).0,
            wire_axis(axis, value).1 as i32,
        ),
        PadInput::Touch { touchpad, finger, at, active } => s.touched(touchpad, finger, at, active),
        PadInput::Accel { accel } => (SlotState { accel, ..s }, Seq::empty()),
        PadInput::Gyro { gyro, reaches } => s.rotated(gyro, reaches),
    }
}

/// Whether an input is a press that may complete the escape chord.
pub open spec fn counts_as_press(s: SlotState, input: PadInput, routing: Routing) -> bool {
    match input {
        PadInput::Down { button } => {
            &&& click_surface(s.multi, button) is None
            &&& bit_of_button(button) is Some
            &&& !routing.withholds(bit_of_button(button)->Some_0)
            &&& s.chord(bit_of_button(button)->Some_0, routing) != Some(SelectChord::Ring)
        },
        _ => false,
    }
}

/// Whether an input is a release that may break the escape chord.
pub open spec fn counts_as_release(s: SlotState, input: PadInput, routing: Routing) -> bool {
    match input {
        PadInput::Up { button } => {
            &&& click_surface(s.multi, button) is None
            &&& bit_of_button(button) is Some
            &&& !routing.withholds(bit_of_button(button)->Some_0)
            &&& s.swallow != bit_of_button(button)
        },
        _ => false,
    }
}

/// What an input means for the escape chord.
#[derive(Debug, Clone, Copy, PartialEq, Eq, Structural)]
pub enum ChordStep {
    Press,
    Release,
    Neither,
}

pub fn apply_input(slot: &mut Slot, input: PadInput, routing: Routing, now: u64, out: &mut Vec<Act>) -> (r:
    ChordStep)
    requires
        input matches PadInput::Touch { touchpad, .. } ==> touchpad < 255,
    ensures
        ({
            let (s, acts) = slot_input(old(slot)@, input, routing, now);
            &&& final(slot)@ == s
            &&& final(out)@ == old(out)@ + acts
            &&& (r == ChordStep::Press) == counts_as_press(old(slot)@, input, routing)
            &&& (r == ChordStep::Release) == counts_as_release(old(slot)@, input, routing)
        }),
{
    let ghost start = out@;
    let ghost was = slot@;
    match input {
        PadInput::Down { button } => {
            match steam_click_surface(slot.multi, button) {
                Some(surface) => {
                    slot.click(surface, true, out);
                    return ChordStep::Neither;
                },
                None => {},
            }
            match button_bit(button) {
                Some(bit) => {
                    let ring: bool = routing.chords_live && is_ring(slot, bit);
                    slot.button_down(bit, routing, now, out);
                    if routing.keeps_local(bit) || ring {
                        ChordStep::Neither
                    } else {
                        ChordStep::Press
                    }
                },
                None => {
                    assert(out@ =~= start + Seq::<Act>::empty());
                    ChordStep::Neither
                },
            }
        },
        PadInput::Up { button } => {
            match steam_click_surface(slot.multi, button) {
                Some(surface) => {
                    slot.click(surface, false, out);
                    return ChordStep::Neither;
                },
                None => {},
            }
            match button_bit(button) {
                Some(bit) => {
                    let taken: bool = match slot.swallow {
                        Some(b) => b == bit,
                        None => false,
                    };
                    slot.button_up(bit, routing, now, out);
                    if routing.keeps_local(bit) || taken {
                        ChordStep::Neither
                    } else {
                        ChordStep::Release
                    }
                },
                None => {
                    assert(out@ =~= start + Seq::<Act>::empty());
                    ChordStep::Neither
                },
            }
        },
        PadInput::Axis { axis, value } => {
            let (id, v) = axis_value(axis, value);
            slot.axis(id, v, out);
            ChordStep::Neither
        },
        PadInput::Touch { touchpad, finger, at, active } => {
            slot.touch(touchpad, finger, at, active, out);
            ChordStep::Neither
        },
        PadInput::Accel { accel } => {
            slot.accelerate(accel);
            assert(out@ =~= start + Seq::<Act>::empty());
            ChordStep::Neither
        },
        PadInput::Gyro { gyro, reaches } => {
            slot.rotate(gyro, reaches, out);
            ChordStep::Neither
        },
    }
}

fn is_ring(slot: &Slot, bit: u32) -> (r: bool)
    ensures
        r == (crate::gesture::chord_of(slot@.held, bit, slot@.gesture.as_guide) == Some(
            SelectChord::Ring,
        )),
{
    match crate::gesture::select_chord(slot.held.as_slice(), bit, slot.gesture.as_guide) {
        Some(SelectChord::Ring) => true,
        _ => false,
    }
}

} // verus!
