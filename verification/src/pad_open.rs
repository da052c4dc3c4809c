//! Opening a slot, feeding the host's answers back to it, and what holds of the table as a
//! whole.

use vstd::prelude::*;

use crate::menu::{acting_pad, last_acting, MenuSample};
use crate::pad_control::{Held, Worker, WorkerState};
use crate::pad_feedback::{effects_of, hidout_pad, pad_of, Effect, HidOutput};
use crate::pad_slot::{Act, GamepadPref, Slot, SlotState};
use crate::pad_table::{
    a_slot_is_found_by_its_id, apart, find_slot, kept_slots_are_the_wanted_ones, slot_at, slots_of,
};
use crate::pad_worker::{
    declared_kind, index_free, kind_told, lowest_free_index, pads_of, Pad, PadInput, PadState,
    DECK_RUMBLE_KEEPALIVE_MS,
};

verus! {

/// The indices a table uses.
pub open spec fn taken(slots: Seq<SlotState>) -> Seq<u8> {
    slots.map_values(|s: SlotState| s.index)
}

/// Kind of the newest pad with an id. Behind a stand-in on a Steam Deck stand the Deck's own
/// controls; a device nobody described is taken for the commonest kind.
pub open spec fn kind_of(order: Seq<PadState>, id: u32, on_deck: bool) -> GamepadPref
    decreases order.len(),
{
    if order.len() == 0 {
        GamepadPref::Xbox360
    } else if order.last().id == id {
        if order.last().steam_virtual && on_deck {
            GamepadPref::SteamDeck
        } else {
            order.last().pref
        }
    } else {
        kind_of(order.drop_last(), id, on_deck)
    }
}

fn find_kind(order: &Vec<Pad>, id: u32, on_deck: bool) -> (r: GamepadPref)
    ensures
        r == kind_of(pads_of(order@), id, on_deck),
{
    let ghost pads = pads_of(order@);
    let mut i: usize = order.len();
    assert(pads.take(i as int) =~= pads);
    while i > 0
        invariant
            i <= order@.len(),
            pads == pads_of(order@),
            kind_of(pads, id, on_deck) == kind_of(pads.take(i as int), id, on_deck),
        decreases i,
    {
        i = i - 1;
        assert(pads.take(i + 1).drop_last() =~= pads.take(i as int));
        assert(pads.take(i + 1).last() == order@[i as int]@);
        if order[i].id == id {
            if order[i].steam_virtual && on_deck {
                return GamepadPref::SteamDeck;
            }
            return order[i].pref;
        }
    }
    GamepadPref::Xbox360
}

/// What the device itself tells when it is opened.
#[derive(Debug, Clone, Copy, PartialEq, Eq, Structural)]
pub struct Opened {
    /// This machine is a Steam Deck.
    pub on_deck: bool,
    /// The pad has two touch surfaces.
    pub multi: bool,
    /// Which pad-audio streams it renders.
    pub audio_caps: u8,
}

impl WorkerState {
    /// What a device is taken for.
    pub open spec fn kind(self, id: u32, facts: Opened) -> GamepadPref {
        kind_of(self.order, id, facts.on_deck)
    }

    /// What the host is told it is.
    pub open spec fn told_kind(self, id: u32, facts: Opened) -> GamepadPref {
        kind_told(self.kind_override, self.kind(id, facts))
    }

    /// Whether its reports may pass raw.
    pub open spec fn passes_raw(self, id: u32, facts: Opened) -> bool {
        self.kind(id, facts) == GamepadPref::SteamController2 && self.told_kind(id, facts)
            == GamepadPref::SteamController2
    }

    /// A device opened under an index.
    pub open spec fn opened(self, id: u32, index: u8, facts: Opened) -> (WorkerState, Seq<Act>) {
        let pref = self.kind(id, facts);
        let declared = self.told_kind(id, facts);
        let caps = facts.audio_caps;
        (
            WorkerState {
                slots: self.slots.push(
                    SlotState::fresh(id, index, pref, declared, facts.multi, caps, false),
                ),
                ..self
            },
            arrival_acts(
                id,
                index,
                pref == GamepadPref::SteamDeck,
                declared,
                self.passes_raw(id, facts),
                caps,
                self.attached,
            ) + audio_acts(id, index, caps),
        )
    }
}

/// What the host hears of a device that opened. Capabilities and quirks are told even where
/// there are none: indices are reused, and what the last pad left would stick.
pub open spec fn arrival_acts(
    id: u32,
    index: u8,
    deck: bool,
    declared: GamepadPref,
    raw: bool,
    caps: u8,
    attached: bool,
) -> Seq<Act> {
    (if raw {
        Seq::<Act>::empty()
    } else {
        seq![Act::Sensors { id }]
    }) + (if attached {
        seq![
            Act::AudioCaps { pad: index, caps },
            Act::Arrival { pad: index, kind: declared },
            Act::RumbleQuirks {
                pad: index,
                keepalive_ms: if deck {
                    DECK_RUMBLE_KEEPALIVE_MS
                } else {
                    0
                },
                dedup_jitter: deck,
            },
        ] + (if raw {
            seq![Act::OpenRaw { id, pad: index }]
        } else {
            Seq::<Act>::empty()
        })
    } else {
        Seq::<Act>::empty()
    })
}

/// What readies a pad that renders audio.
pub open spec fn audio_acts(id: u32, index: u8, caps: u8) -> Seq<Act> {
    (if caps & 0x01 != 0 {
        seq![Act::ArmCoils { id }]
    } else {
        Seq::<Act>::empty()
    }) + (if caps & 0x02 != 0 {
        seq![Act::EnableSpeaker { id }]
    } else {
        Seq::<Act>::empty()
    }) + (if caps != 0 {
        seq![Act::RegisterAudio { pad: index }]
    } else {
        Seq::<Act>::empty()
    })
}

fn announce(
    id: u32,
    index: u8,
    deck: bool,
    declared: GamepadPref,
    raw: bool,
    caps: u8,
    attached: bool,
    out: &mut Vec<Act>,
)
    ensures
        final(out)@ == old(out)@ + arrival_acts(id, index, deck, declared, raw, caps, attached),
{
    let ghost start = out@;
    if !raw {
        out.push(Act::Sensors { id });
    }
    if attached {
        out.push(Act::AudioCaps { pad: index, caps });
        out.push(Act::Arrival { pad: index, kind: declared });
        let keepalive_ms: u16 = if deck {
            DECK_RUMBLE_KEEPALIVE_MS
        } else {
            0
        };
        out.push(Act::RumbleQuirks { pad: index, keepalive_ms, dedup_jitter: deck });
        if raw {
            out.push(Act::OpenRaw { id, pad: index });
        }
    }
    assert(out@ =~= start + arrival_acts(id, index, deck, declared, raw, caps, attached));
}

fn ready_audio(id: u32, index: u8, caps: u8, out: &mut Vec<Act>)
    ensures
        final(out)@ == old(out)@ + audio_acts(id, index, caps),
{
    let ghost start = out@;
    if caps & 0x01 != 0 {
        out.push(Act::ArmCoils { id });
    }
    if caps & 0x02 != 0 {
        out.push(Act::EnableSpeaker { id });
    }
    if caps != 0 {
        out.push(Act::RegisterAudio { pad: index });
    }
    assert(out@ =~= start + audio_acts(id, index, caps));
}

fn used_indices(slots: &Vec<Slot>) -> (r: Vec<u8>)
    ensures
        r@ == taken(slots_of(slots@)),
{
    let mut r: Vec<u8> = Vec::new();
    let mut i: usize = 0;
    while i < slots.len()
        invariant
            i <= slots@.len(),
            r@.len() == i,
            forall|j: int| 0 <= j < i ==> r@[j] == slots@[j].index,
        decreases slots@.len() - i,
    {
        r.push(slots[i].index);
        i = i + 1;
    }
    assert(r@ =~= taken(slots_of(slots@)));
    r
}

/// The first slot of an index.
pub open spec fn slot_of_index(slots: Seq<SlotState>, index: u8) -> Option<int>
    decreases slots.len(),
{
    if slots.len() == 0 {
        None
    } else if slot_of_index(slots.drop_last(), index) is Some {
        slot_of_index(slots.drop_last(), index)
    } else if slots.last().index == index {
        Some(slots.len() - 1)
    } else {
        None
    }
}

fn find_index(slots: &Vec<Slot>, index: u8) -> (r: Option<usize>)
    ensures
        match r {
            Some(i) => i < slots@.len() && slot_of_index(slots_of(slots@), index) == Some(i as int),
            None => slot_of_index(slots_of(slots@), index) is None,
        },
{
    let ghost states = slots_of(slots@);
    let mut found: Option<usize> = None;
    let mut i: usize = 0;
    while i < slots.len()
        invariant
            i <= slots@.len(),
            states == slots_of(slots@),
            match found {
                Some(k) => k < i && slot_of_index(states.take(i as int), index) == Some(k as int),
                None => slot_of_index(states.take(i as int), index) is None,
            },
        decreases slots@.len() - i,
    {
        assert(states.take(i + 1).drop_last() =~= states.take(i as int));
        assert(states.take(i + 1).last() == slots@[i as int]@);
        if found.is_none() && slots[i].index == index {
            found = Some(i);
        }
        i = i + 1;
    }
    assert(states.take(i as int) =~= states);
    found
}

impl Worker {
    /// The index the next slot gets, or none where the table is full.
    pub fn next_index(&self) -> (r: Option<u8>)
        ensures
            match r {
                Some(i) => index_free(taken(self@.slots), i) && forall|j: u8|
                    j < i ==> !index_free(taken(self@.slots), j),
                None => forall|j: u8| !index_free(taken(self@.slots), j),
            },
    {
        let used: Vec<u8> = used_indices(&self.slots);
        lowest_free_index(used.as_slice())
    }

    /// A device opened. It gets the lowest free index; the host hears of its kind before any
    /// input. Nothing happens where the table is full or the device is open already.
    #[verifier::rlimit(40)]
    pub fn slot_opened(&mut self, id: u32, facts: Opened, out: &mut Vec<Act>) -> (r: Option<u8>)
        requires
            old(self).wf(),
        ensures
            final(self).wf(),
            match r {
                Some(index) => {
                    let (w, acts) = old(self)@.opened(id, index, facts);
                    &&& slot_at(old(self)@.slots, id) is None
                    &&& index_free(taken(old(self)@.slots), index)
                    &&& forall|j: u8| j < index ==> !index_free(taken(old(self)@.slots), j)
                    &&& final(self)@ == w
                    &&& final(out)@ == old(out)@ + acts
                },
                None => {
                    &&& slot_at(old(self)@.slots, id) is Some || forall|j: u8|
                        !index_free(taken(old(self)@.slots), j)
                    &&& final(self)@ == old(self)@
                    &&& final(out)@ == old(out)@
                },
            },
    {
        let ghost start = out@;
        let ghost was = self@;
        proof {
            a_slot_is_found_by_its_id(was.slots, id);
        }
        if find_slot(&self.slots, id).is_some() {
            return None;
        }
        let index: u8 = match self.next_index() {
            Some(i) => i,
            None => {
                return None;
            },
        };
        let pref: GamepadPref = find_kind(&self.order, id, facts.on_deck);
        let declared: GamepadPref = declared_kind(self.kind_override, pref);
        let raw: bool = pref == GamepadPref::SteamController2 && declared
            == GamepadPref::SteamController2;
        let deck: bool = pref == GamepadPref::SteamDeck;
        let caps: u8 = facts.audio_caps;
        announce(id, index, deck, declared, raw, caps, self.attached, out);
        ready_audio(id, index, caps, out);
        self.slots.push(Slot::new(id, index, pref, declared, facts.multi, caps, false));
        proof {
            let s = SlotState::fresh(id, index, pref, declared, facts.multi, caps, false);
            assert(slots_of(self.slots@) =~= was.slots.push(s));
            assert(self@ =~= was.opened(id, index, facts).0);
            assert(out@ =~= start + was.opened(id, index, facts).1);
            let t = was.slots.push(s);
            assert forall|i: int, j: int| 0 <= i < j < t.len() implies #[trigger] apart(
                t[i],
                t[j],
            ) by {
                if j < was.slots.len() {
                    assert(apart(was.slots[i], was.slots[j]));
                } else {
                    assert(taken(was.slots)[i] == was.slots[i].index);
                    assert(was.slots[i].id != id);
                }
            }
        }
        Some(index)
    }

    /// A device's raw reports pass through from now on.
    pub fn raw_opened(&mut self, id: u32)
        requires
            old(self).wf(),
        ensures
            final(self).wf(),
            final(self)@ == (match slot_at(old(self)@.slots, id) {
                Some(i) => WorkerState {
                    slots: old(self)@.slots.update(
                        i,
                        SlotState { raw: true, ..old(self)@.slots[i] },
                    ),
                    ..old(self)@
                },
                None => old(self)@,
            }),
    {
        let ghost was = self@;
        proof {
            a_slot_is_found_by_its_id(was.slots, id);
        }
        match find_slot(&self.slots, id) {
            Some(i) => {
                self.slots[i].raw = true;
                proof {
                    let s = SlotState { raw: true, ..was.slots[i as int] };
                    assert(self.slots@[i as int]@ =~= s);
                    assert(slots_of(self.slots@) =~= was.slots.update(i as int, s));
                    assert(self@ =~= (WorkerState {
                        slots: was.slots.update(i as int, s),
                        ..was
                    }));
                    assert forall|a: int, b: int|
                        0 <= a < b < self@.slots.len() implies #[trigger] apart(
                        self@.slots[a],
                        self@.slots[b],
                    ) by {
                        assert(apart(was.slots[a], was.slots[b]));
                    }
                }
            },
            None => {},
        }
    }

    /// A rumble command of the host, as what it does to which device.
    pub fn on_rumble(
        &mut self,
        pad: u16,
        low: u16,
        high: u16,
        backstop_ms: u32,
        haptics_live: bool,
    ) -> (r: Option<(u32, Effect)>)
        requires
            old(self).wf(),
        ensures
            final(self).wf(),
            !old(self)@.attached || pad > 255 ==> r is None && final(self)@ == old(self)@,
            old(self)@.attached && pad <= 255 ==> (slot_of_index(old(self)@.slots, pad as u8)
                matches Some(i) ==> final(self)@.slots[i] == old(self)@.slots[i].rumbled(
                low,
                high,
                backstop_ms,
                haptics_live,
            ).0 && (r is Some <==> old(self)@.slots[i].rumbled(
                low,
                high,
                backstop_ms,
                haptics_live,
            ).1 is Some)),
            match (if self_takes(old(self)@, pad) {
                slot_of_index(old(self)@.slots, pad as u8)
            } else {
                None
            }) {
                Some(i) => {
                    let (s, e) = old(self)@.slots[i].rumbled(low, high, backstop_ms, haptics_live);
                    &&& final(self)@ == (WorkerState {
                        slots: old(self)@.slots.update(i, s),
                        ..old(self)@
                    })
                    &&& (match r {
                        Some((id, effect)) => id == old(self)@.slots[i].id && e == Some(effect@),
                        None => e is None,
                    })
                },
                None => r is None && final(self)@ == old(self)@,
            },
    {
        let ghost was = self@;
        if !self.attached || pad > 255 {
            return None;
        }
        match find_index(&self.slots, pad as u8) {
            Some(i) => {
                let id: u32 = self.slots[i].id;
                let e = self.slots[i].rumble(low, high, backstop_ms, haptics_live);
                proof {
                    let s = was.slots[i as int].rumbled(low, high, backstop_ms, haptics_live).0;
                    keeps_table(was, self@, i as int, s);
                }
                match e {
                    Some(effect) => Some((id, effect)),
                    None => None,
                }
            },
            None => None,
        }
    }

    /// A report of the host, as what it does to which device.
    pub fn on_hidout(&mut self, h: HidOutput) -> (r: Option<(u32, Vec<Effect>)>)
        requires
            old(self).wf(),
        ensures
            final(self).wf(),
            match (if old(self)@.attached {
                slot_of_index(old(self)@.slots, pad_of(h))
            } else {
                None
            }) {
                Some(i) => {
                    let (s, e) = old(self)@.slots[i].told(h);
                    &&& final(self)@ == (WorkerState {
                        slots: old(self)@.slots.update(i, s),
                        ..old(self)@
                    })
                    &&& r is Some
                    &&& r->Some_0.0 == old(self)@.slots[i].id
                    &&& effects_of(r->Some_0.1@) == e
                },
                None => r is None && final(self)@ == old(self)@,
            },
    {
        let ghost was = self@;
        if !self.attached {
            return None;
        }
        let pad: u8 = hidout_pad(&h);
        match find_index(&self.slots, pad) {
            Some(i) => {
                let id: u32 = self.slots[i].id;
                let ghost told = was.slots[i as int].told(h).0;
                let effects = self.slots[i].hidout(h);
                proof {
                    keeps_table(was, self@, i as int, told);
                }
                Some((id, effects))
            },
            None => None,
        }
    }

    /// The pads that drive the menu were read: remember which one acted last.
    pub fn note_acting(&mut self, pads: &Vec<u32>, samples: &[MenuSample])
        requires
            old(self).wf(),
            pads@.len() == samples@.len(),
        ensures
            final(self).wf(),
            final(self)@ == (match last_acting(samples@) {
                Some(i) => WorkerState { menu_last: Some(pads@[i]), ..old(self)@ },
                None => old(self)@,
            }),
    {
        let ghost was = self@;
        match acting_pad(samples) {
            Some(i) => {
                self.menu_last = Some(pads[i]);
                assert(self@ =~= (WorkerState { menu_last: Some(pads@[i as int]), ..was }));
            },
            None => {},
        }
    }
}

/// Whether a rumble command can be for one of the slots.
pub open spec fn self_takes(w: WorkerState, pad: u16) -> bool {
    w.attached && pad <= 255
}

proof fn keeps_table(was: WorkerState, now: WorkerState, i: int, s: SlotState)
    requires
        was.wf(),
        0 <= i < was.slots.len(),
        s.id == was.slots[i].id,
        s.index == was.slots[i].index,
        now.slots.len() == was.slots.len(),
        now.slots[i] == s,
        forall|j: int| 0 <= j < was.slots.len() && j != i ==> now.slots[j] == was.slots[j],
        now == (WorkerState { slots: now.slots, ..was }),
    ensures
        now == (WorkerState { slots: was.slots.update(i, s), ..was }),
        now.wf(),
{
    assert(now.slots =~= was.slots.update(i, s));
    assert forall|a: int, b: int| 0 <= a < b < now.slots.len() implies #[trigger] apart(
        now.slots[a],
        now.slots[b],
    ) by {
        assert(apart(was.slots[a], was.slots[b]));
    }
}

/// A pad that stays wanted keeps its slot and its index, whatever else is plugged or unplugged.
pub proof fn a_wanted_pad_keeps_its_index(w: WorkerState, s: SlotState)
    requires
        w.attached,
        w.slots.contains(s),
        w.forwarded().contains(s.id),
    ensures
        w.synced().0.slots.contains(s),
{
    kept_slots_are_the_wanted_ones(w.slots, w.forwarded(), s);
}

/// While an overlay owns the input, nothing a controller reports changes anything or goes out.
pub proof fn a_masked_pad_is_silent(w: WorkerState, id: u32, input: PadInput, now: u64)
    requires
        w.masked,
    ensures
        w.input(id, input, now) == (w, Seq::<Act>::empty()),
{
}

/// With forwarding off a session opens nothing and keeps nothing open.
pub proof fn without_forwarding_nothing_is_held(w: WorkerState)
    requires
        w.attached,
        !w.forwarding,
    ensures
        w.synced().0.slots.len() == 0,
        w.forwarded().len() == 0,
{
    crate::pad_table::nothing_wanted_keeps_nothing(w.slots);
}

/// Putting the mask on and taking it off presses nothing: only axes are sent again.
pub proof fn unmasking_presses_nothing(w: WorkerState, held: Seq<Held>, n: int, i: int)
    requires
        0 <= n <= w.slots.len(),
        held.len() == w.slots.len(),
        0 <= i < crate::pad_control::readopt_acts(w.slots, held, w.routing, w.attached, n).len(),
    ensures
        crate::pad_control::readopt_acts(w.slots, held, w.routing, w.attached, n)[i] is Axis,
    decreases n,
{
    if n > 0 {
        let front = crate::pad_control::readopt_acts(w.slots, held, w.routing, w.attached, n - 1);
        let s = w.slots[n - 1];
        let more = s.readopted(held[n - 1].bits@, held[n - 1].axes@, w.routing, w.attached).1;
        if i < front.len() {
            unmasking_presses_nothing(w, held, n - 1, i);
        } else if w.attached {
            news_is_axes(s.index, s.axes, held[n - 1].axes@, 6, i - front.len());
        }
    }
}

proof fn news_is_axes(pad: u8, was: Seq<i32>, now: Seq<i32>, n: int, i: int)
    requires
        0 <= i < crate::pad_slot::axis_news(pad, was, now, n).len(),
    ensures
        crate::pad_slot::axis_news(pad, was, now, n)[i] is Axis,
    decreases n,
{
    if n > 0 {
        if i < crate::pad_slot::axis_news(pad, was, now, n - 1).len() {
            news_is_axes(pad, was, now, n - 1, i);
        }
    }
}

} // verus!
