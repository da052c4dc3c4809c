//! The slot table of a session and everything that changes it.

use vstd::prelude::*;
use crate::buttons::{BTN_BACK, BTN_LB, BTN_RB, BTN_START, MAX_PADS};
use crate::gesture::holds;
use crate::pad_slot::{Act, Slot, SlotState};

verus! {

/// Whether the four buttons of the escape chord are among those held: both shoulders, Start
/// and Select.
pub open spec fn escape_held(held: Seq<u32>) -> bool {
    &&& held.contains(BTN_LB)
    &&& held.contains(BTN_RB)
    &&& held.contains(BTN_START)
    &&& held.contains(BTN_BACK)
}

/// Whether any pad holds the escape chord.
pub open spec fn chord_held(slots: Seq<SlotState>) -> bool {
    exists|i: int| 0 <= i < slots.len() && escape_held((#[trigger] slots[i]).held)
}

/// Something done to every slot.
#[derive(Debug, Clone, Copy, PartialEq, Eq, Structural)]
pub enum Sweep {
    /// Lift everything.
    Flush,
    /// Lift what the gesture has down.
    FlushGesture,
    /// Move the gesture's clock on.
    Tick { now: u64 },
}

/// A slot after a sweep, and what is sent.
pub open spec fn swept(s: SlotState, sweep: Sweep) -> (SlotState, Seq<Act>) {
    match sweep {
        Sweep::Flush => s.flushed(),
        Sweep::FlushGesture => s.gesture_flushed(),
        Sweep::Tick { now } => s.ticked(now),
    }
}

/// The slots after a sweep.
pub open spec fn swept_slots(slots: Seq<SlotState>, sweep: Sweep) -> Seq<SlotState> {
    slots.map_values(|s: SlotState| swept(s, sweep).0)
}

/// What a sweep sends, slot by slot.
pub open spec fn sweep_acts(slots: Seq<SlotState>, sweep: Sweep) -> Seq<Act>
    decreases slots.len(),
{
    if slots.len() == 0 {
        Seq::empty()
    } else {
        sweep_acts(slots.drop_last(), sweep) + swept(slots.last(), sweep).1
    }
}

/// The views of a list of slots.
pub open spec fn slots_of(slots: Seq<Slot>) -> Seq<SlotState> {
    slots.map_values(|s: Slot| s@)
}

fn sweep_slot(slot: &mut Slot, sweep: Sweep, out: &mut Vec<Act>)
    ensures
        final(slot)@ == swept(old(slot)@, sweep).0,
        final(out)@ == old(out)@ + swept(old(slot)@, sweep).1,
{
    match sweep {
        Sweep::Flush => slot.flush(out),
        Sweep::FlushGesture => slot.flush_gesture(out),
        Sweep::Tick { now } => slot.tick(now, out),
    }
}

/// Do the same to every slot.
pub fn sweep_all(slots: &mut Vec<Slot>, sweep: Sweep, out: &mut Vec<Act>)
    ensures
        slots_of(final(slots)@) == swept_slots(slots_of(old(slots)@), sweep),
        final(out)@ == old(out)@ + sweep_acts(slots_of(old(slots)@), sweep),
{
    let ghost was = slots_of(slots@);
    let ghost start = out@;
    let n: usize = slots.len();
    let mut i: usize = 0;
    assert(out@ =~= start + sweep_acts(was.take(0), sweep));
    while i < n
        invariant
            i <= n,
            n == slots@.len(),
            was.len() == n,
            forall|j: int| 0 <= j < i ==> (#[trigger] slots@[j])@ == swept(was[j], sweep).0,
            forall|j: int| i <= j < n ==> (#[trigger] slots@[j])@ == was[j],
            out@ == start + sweep_acts(was.take(i as int), sweep),
        decreases n - i,
    {
        sweep_slot(&mut slots[i], sweep, out);
        assert(was.take(i + 1).drop_last() =~= was.take(i as int));
        assert(was.take(i + 1).last() == was[i as int]);
        assert(out@ =~= start + sweep_acts(was.take(i + 1), sweep));
        i = i + 1;
    }
    assert(was.take(i as int) =~= was);
    assert(slots_of(slots@) =~= swept_slots(was, sweep));
}

/// Whether two slots share neither a device nor an index.
pub open spec fn apart(a: SlotState, b: SlotState) -> bool {
    a.id != b.id && a.index != b.index
}

/// No two slots share a device or an index, and every index is one the wire carries.
pub open spec fn table_ok(slots: Seq<SlotState>) -> bool {
    &&& forall|i: int, j: int|
        0 <= i < j < slots.len() ==> #[trigger] apart(slots[i], slots[j])
    &&& forall|i: int| 0 <= i < slots.len() ==> (#[trigger] slots[i]).index < MAX_PADS
}

/// The first slot of a device.
pub open spec fn slot_at(slots: Seq<SlotState>, id: u32) -> Option<int>
    decreases slots.len(),
{
    if slots.len() == 0 {
        None
    } else if slot_at(slots.drop_last(), id) is Some {
        slot_at(slots.drop_last(), id)
    } else if slots.last().id == id {
        Some(slots.len() - 1)
    } else {
        None
    }
}

/// The first slot of a device.
pub fn find_slot(slots: &Vec<Slot>, id: u32) -> (r: Option<usize>)
    ensures
        match r {
            Some(i) => i < slots@.len() && slot_at(slots_of(slots@), id) == Some(i as int)
                && slots@[i as int].id == id,
            None => slot_at(slots_of(slots@), id) is None,
        },
{
    let ghost states = slots_of(slots@);
    let mut found: Option<usize> = None;
    let mut i: usize = 0;
    while i < slots.len()
        invariant
            i <= slots@.len(),
            states == slots_of(slots@),
            match found {
                Some(k) => k < i && slot_at(states.take(i as int), id) == Some(k as int)
                    && slots@[k as int].id == id,
                None => slot_at(states.take(i as int), id) is None,
            },
        decreases slots@.len() - i,
    {
        assert(states.take(i + 1).drop_last() =~= states.take(i as int));
        assert(states.take(i + 1).last() == slots@[i as int]@);
        if found.is_none() && slots[i].id == id {
            found = Some(i);
        }
        i = i + 1;
    }
    assert(states.take(i as int) =~= states);
    found
}

/// A device has a slot exactly where one of them carries its id.
pub proof fn a_slot_is_found_by_its_id(slots: Seq<SlotState>, id: u32)
    ensures
        match slot_at(slots, id) {
            Some(i) => 0 <= i < slots.len() && slots[i].id == id,
            None => forall|i: int| 0 <= i < slots.len() ==> (#[trigger] slots[i]).id != id,
        },
    decreases slots.len(),
{
    if slots.len() > 0 {
        a_slot_is_found_by_its_id(slots.drop_last(), id);
        assert forall|i: int|
            0 <= i < slots.len() && slot_at(slots, id) is None implies (
            #[trigger] slots[i]).id != id by {
            if i < slots.len() - 1 {
                assert(slots.drop_last()[i] == slots[i]);
            }
        }
    }
}

/// Whether any pad holds the escape chord.
pub fn chord_is_held(slots: &Vec<Slot>) -> (r: bool)
    ensures
        r == chord_held(slots_of(slots@)),
{
    let ghost states = slots_of(slots@);
    let mut i: usize = 0;
    while i < slots.len()
        invariant
            i <= slots@.len(),
            states == slots_of(slots@),
            forall|j: int| 0 <= j < i ==> !escape_held((#[trigger] states[j]).held),
        decreases slots@.len() - i,
    {
        let held: &[u32] = slots[i].held.as_slice();
        assert(states[i as int].held == held@);
        if holds(held, BTN_LB) && holds(held, BTN_RB) && holds(held, BTN_START) && holds(
            held,
            BTN_BACK,
        ) {
            return true;
        }
        i = i + 1;
    }
    false
}

/// What closing a slot does: the device is put to rest, and a host that is there lifts what
/// it holds and takes the controller away.
pub open spec fn close_acts(s: SlotState, attached: bool) -> Seq<Act> {
    seq![Act::Neutral { id: s.id }] + (if attached {
        s.flushed().1.push(Act::Remove { pad: s.index })
    } else {
        Seq::empty()
    }) + (if s.audio_caps != 0 {
        seq![Act::UnregisterAudio { pad: s.index }]
    } else {
        Seq::empty()
    })
}

/// The slots that stay open.
pub open spec fn kept(slots: Seq<SlotState>, want: Seq<u32>) -> Seq<SlotState>
    decreases slots.len(),
{
    if slots.len() == 0 {
        Seq::empty()
    } else if want.contains(slots.last().id) {
        kept(slots.drop_last(), want).push(slots.last())
    } else {
        kept(slots.drop_last(), want)
    }
}

/// What closing the others does.
pub open spec fn closing(slots: Seq<SlotState>, want: Seq<u32>, attached: bool) -> Seq<Act>
    decreases slots.len(),
{
    if slots.len() == 0 {
        Seq::empty()
    } else if want.contains(slots.last().id) {
        closing(slots.drop_last(), want, attached)
    } else {
        closing(slots.drop_last(), want, attached) + close_acts(slots.last(), attached)
    }
}

/// A slot stays open exactly where its device is wanted, and stays what it was.
pub proof fn kept_slots_are_the_wanted_ones(slots: Seq<SlotState>, want: Seq<u32>, s: SlotState)
    ensures
        kept(slots, want).contains(s) == (slots.contains(s) && want.contains(s.id)),
        kept(slots, want).len() <= slots.len(),
    decreases slots.len(),
{
    if slots.len() > 0 {
        let front = slots.drop_last();
        kept_slots_are_the_wanted_ones(front, want, s);
        assert(slots =~= front.push(slots.last()));
        a_push_holds_one_more(front, slots.last(), s);
        a_push_holds_one_more(kept(front, want), slots.last(), s);
    }
}

proof fn a_push_holds_one_more<T>(s: Seq<T>, x: T, y: T)
    ensures
        s.push(x).contains(y) == (s.contains(y) || x == y),
{
    let t = s.push(x);
    assert(t[s.len() as int] == x);
    if s.contains(y) {
        let i = choose|i: int| 0 <= i < s.len() && s[i] == y;
        assert(t[i] == y);
    }
    if t.contains(y) && x != y {
        let i = choose|i: int| 0 <= i < t.len() && t[i] == y;
        assert(s[i] == y);
    }
}

/// Closing slots leaves the rest distinct.
pub proof fn a_kept_table_is_ok(slots: Seq<SlotState>, want: Seq<u32>)
    requires
        table_ok(slots),
    ensures
        table_ok(kept(slots, want)),
    decreases slots.len(),
{
    if slots.len() > 0 {
        let front = slots.drop_last();
        assert(table_ok(front)) by {
            assert forall|i: int, j: int| 0 <= i < j < front.len() implies #[trigger] apart(
                front[i],
                front[j],
            ) by {
                assert(apart(slots[i], slots[j]));
            }
            assert forall|i: int| 0 <= i < front.len() implies (#[trigger] front[i]).index
                < MAX_PADS by {
                assert(slots[i].index < MAX_PADS);
            }
        }
        a_kept_table_is_ok(front, want);
        let k = kept(front, want);
        if want.contains(slots.last().id) {
            let t = k.push(slots.last());
            assert forall|i: int, j: int| 0 <= i < j < t.len() implies #[trigger] apart(
                t[i],
                t[j],
            ) by {
                if j < k.len() {
                    assert(apart(k[i], k[j]));
                } else {
                    kept_slots_are_the_wanted_ones(front, want, k[i]);
                    assert(k.contains(k[i]));
                    let m = choose|m: int| 0 <= m < front.len() && front[m] == k[i];
                    assert(apart(slots[m], slots[slots.len() - 1]));
                }
            }
            assert forall|i: int| 0 <= i < t.len() implies (#[trigger] t[i]).index < MAX_PADS by {
                if i < k.len() {
                    assert(k[i].index < MAX_PADS);
                } else {
                    assert(slots[slots.len() - 1].index < MAX_PADS);
                }
            }
        }
    }
}

/// With nothing wanted, nothing stays.
pub proof fn nothing_wanted_keeps_nothing(slots: Seq<SlotState>)
    ensures
        kept(slots, Seq::empty()) == Seq::<SlotState>::empty(),
    decreases slots.len(),
{
    if slots.len() > 0 {
        nothing_wanted_keeps_nothing(slots.drop_last());
        assert(!Seq::<u32>::empty().contains(slots.last().id));
    }
}

fn close_slot(slot: &mut Slot, attached: bool, out: &mut Vec<Act>)
    ensures
        final(slot).id == old(slot).id,
        final(out)@ == old(out)@ + close_acts(old(slot)@, attached),
{
    let ghost start = out@;
    let ghost was = slot@;
    let id: u32 = slot.id;
    let index: u8 = slot.index;
    let caps: u8 = slot.audio_caps;
    out.push(Act::Neutral { id });
    if attached {
        slot.flush(out);
        out.push(Act::Remove { pad: index });
    }
    if caps != 0 {
        out.push(Act::UnregisterAudio { pad: index });
    }
    assert(out@ =~= start + close_acts(was, attached));
}

/// Close every slot whose device is not wanted; the others keep their indices.
pub fn close_others(slots: &mut Vec<Slot>, want: &[u32], attached: bool, out: &mut Vec<Act>)
    ensures
        slots_of(final(slots)@) == kept(slots_of(old(slots)@), want@),
        final(out)@ == old(out)@ + closing(slots_of(old(slots)@), want@, attached),
{
    let ghost was = slots_of(slots@);
    let ghost start = out@;
    let mut i: usize = 0;
    let ghost mut k: int = 0;
    assert(was.take(0) =~= Seq::<SlotState>::empty());
    assert(slots_of(slots@) =~= kept(was.take(0), want@) + was.skip(0));
    assert(out@ =~= start + closing(was.take(0), want@, attached));
    while i < slots.len()
        invariant
            i <= slots@.len(),
            0 <= k <= was.len(),
            kept(was.take(k), want@).len() == i,
            slots_of(slots@) == kept(was.take(k), want@) + was.skip(k),
            out@ == start + closing(was.take(k), want@, attached),
        decreases slots@.len() - i,
    {
        let ghost states = slots_of(slots@);
        assert(states.len() == slots@.len());
        assert(states[i as int] == was.skip(k)[0]);
        assert(slots@[i as int]@ == was[k]);
        assert(was.take(k + 1).drop_last() =~= was.take(k));
        assert(was.take(k + 1).last() == was[k]);
        if holds(want, slots[i].id) {
            proof {
                assert(states =~= kept(was.take(k + 1), want@) + was.skip(k + 1));
                k = k + 1;
            }
            i = i + 1;
        } else {
            let ghost before = slots@;
            close_slot(&mut slots[i], attached, out);
            slots.remove(i);
            proof {
                assert(slots@ =~= before.remove(i as int));
                let now = slots_of(slots@);
                assert(now.len() == states.len() - 1);
                assert forall|j: int| 0 <= j < now.len() implies now[j] == (if j < i {
                    states[j]
                } else {
                    states[j + 1]
                }) by {
                    assert(now[j] == slots@[j]@);
                }
                assert(was.take(k + 1).drop_last() =~= was.take(k));
                assert(kept(was.take(k + 1), want@) == kept(was.take(k), want@));
                assert(slots_of(slots@) =~= kept(was.take(k + 1), want@) + was.skip(k + 1));
                assert(out@ =~= start + closing(was.take(k + 1), want@, attached));
                k = k + 1;
            }
        }
    }
    assert(k == was.len());
    assert(was.take(k) =~= was);
    assert(slots_of(slots@) =~= kept(was, want@));
}

} // verus!
