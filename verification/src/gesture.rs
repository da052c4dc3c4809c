//! Hold Select for Guide: a button gesture that turns a long press of Select into the host's
//! Guide button without costing games their Select.

use vstd::prelude::*;
use crate::buttons::{BTN_A, BTN_BACK, BTN_GUIDE, BTN_X};

verus! {

/// Hold Select alone this long for a Guide press.
pub const GUIDE_HOLD_NS: u64 = 350_000_000;

/// From a tap's press to its release. Both in one moment would cancel out on the wire.
pub const TAP_PRESS_NS: u64 = 50_000_000;

/// What a button pressed with Select held asks the client for.
#[derive(Clone, Copy, Debug, PartialEq, Eq, Structural)]
pub enum SelectChord {
    /// Select and A: open the quick-action dial. The A press is withheld.
    Ring,
    /// Select and X: step the statistics overlay. Both presses still reach the game.
    Stats,
}

/// The chord a press makes. Select first, and not once the hold became Guide.
pub open spec fn chord_of(held: Seq<u32>, bit: u32, select_as_guide: bool) -> Option<SelectChord> {
    if select_as_guide || !held.contains(BTN_BACK) {
        None
    } else if bit == BTN_A {
        Some(SelectChord::Ring)
    } else if bit == BTN_X {
        Some(SelectChord::Stats)
    } else {
        None
    }
}

/// Whether a list of button bits holds one.
pub fn holds(held: &[u32], bit: u32) -> (r: bool)
    ensures
        r == held@.contains(bit),
{
    let mut i: usize = 0;
    while i < held.len()
        invariant
            i <= held@.len(),
            forall|j: int| 0 <= j < i ==> held@[j] != bit,
        decreases held@.len() - i,
    {
        if held[i] == bit {
            return true;
        }
        i = i + 1;
    }
    false
}

/// What a button pressed with Select already held asks for.
pub fn select_chord(held: &[u32], bit: u32, select_as_guide: bool) -> (r: Option<SelectChord>)
    ensures
        r == chord_of(held@, bit, select_as_guide),
        r == (if held@.contains(BTN_BACK) && !select_as_guide && bit == BTN_A {
            Some(SelectChord::Ring)
        } else if held@.contains(BTN_BACK) && !select_as_guide && bit == BTN_X {
            Some(SelectChord::Stats)
        } else {
            None
        }),
{
    if select_as_guide || !holds(held, BTN_BACK) {
        return None;
    }
    match bit {
        BTN_A => Some(SelectChord::Ring),
        BTN_X => Some(SelectChord::Stats),
        _ => None,
    }
}

/// The gesture on one pad. Select pressed alone is pending; past the hold it is Guide until
/// release; released earlier it is a tap, pressed then and lifted a moment later.
#[derive(Clone, Copy, Debug, PartialEq, Eq)]
pub struct SelectGesture {
    pub pending_since: Option<u64>,
    pub as_guide: bool,
    pub release_due: Option<u64>,
    /// The pending press went to a chord and never out, so its release stays here too.
    pub swallowed: bool,
}

impl Default for SelectGesture {
    fn default() -> (g: SelectGesture)
        ensures
            g == SelectGesture::idle(),
    {
        SelectGesture { pending_since: None, as_guide: false, release_due: None, swallowed: false }
    }
}

/// One button transition sent to the host.
pub type Edge = (u32, bool);

/// No edge, or one.
pub open spec fn edge_if(cond: bool, bit: u32, down: bool) -> Seq<Edge> {
    if cond {
        seq![(bit, down)]
    } else {
        Seq::empty()
    }
}

/// `a + b` on the clock, stopping at its end.
pub open spec fn later(a: u64, b: u64) -> u64 {
    if a + b > u64::MAX {
        u64::MAX
    } else {
        (a + b) as u64
    }
}

impl SelectGesture {
    /// Nothing pending, nothing owed.
    pub open spec fn idle() -> SelectGesture {
        SelectGesture { pending_since: None, as_guide: false, release_due: None, swallowed: false }
    }

    /// Select went down; `alone` is no other button held. The flag says the press is held back.
    pub open spec fn select_down(self, now: u64, alone: bool) -> (SelectGesture, Seq<Edge>, bool) {
        (
            SelectGesture {
                release_due: None,
                pending_since: if alone {
                    Some(now)
                } else {
                    self.pending_since
                },
                ..self
            },
            edge_if(self.release_due is Some, BTN_BACK, false),
            alone,
        )
    }

    /// A chord took the pending press.
    pub open spec fn swallow(self) -> SelectGesture {
        if self.pending_since is Some {
            SelectGesture { pending_since: None, swallowed: true, ..self }
        } else {
            self
        }
    }

    /// Another button went down: a pending Select is real after all.
    pub open spec fn other_down(self) -> (SelectGesture, Seq<Edge>) {
        (
            SelectGesture { pending_since: None, ..self },
            edge_if(self.pending_since is Some, BTN_BACK, true),
        )
    }

    /// Select came up. The flag says the gesture owned the release.
    pub open spec fn select_up(self, now: u64) -> (SelectGesture, Seq<Edge>, bool) {
        if self.swallowed {
            (SelectGesture { swallowed: false, ..self }, Seq::empty(), true)
        } else if self.as_guide {
            (SelectGesture { as_guide: false, ..self }, seq![(BTN_GUIDE, false)], true)
        } else if self.pending_since is Some {
            (
                SelectGesture {
                    pending_since: None,
                    release_due: Some(later(now, TAP_PRESS_NS)),
                    ..self
                },
                seq![(BTN_BACK, true)],
                true,
            )
        } else {
            (self, Seq::empty(), false)
        }
    }

    /// Whether a pending Select has been held long enough.
    pub open spec fn hold_done(self, now: u64) -> bool {
        self.pending_since is Some && now - self.pending_since->Some_0 >= GUIDE_HOLD_NS
    }

    /// Whether an owed release is due.
    pub open spec fn release_now(self, now: u64) -> bool {
        self.release_due is Some && now >= self.release_due->Some_0
    }

    /// The clock moved on.
    pub open spec fn polled(self, now: u64) -> (SelectGesture, Seq<Edge>) {
        (
            SelectGesture {
                pending_since: if self.hold_done(now) {
                    None
                } else {
                    self.pending_since
                },
                as_guide: self.as_guide || self.hold_done(now),
                release_due: if self.release_now(now) {
                    None
                } else {
                    self.release_due
                },
                ..self
            },
            edge_if(self.hold_done(now), BTN_GUIDE, true) + edge_if(
                self.release_now(now),
                BTN_BACK,
                false,
            ),
        )
    }

    /// What lifting everything sends.
    pub open spec fn flush_edges(self) -> Seq<Edge> {
        edge_if(self.as_guide, BTN_GUIDE, false) + edge_if(
            self.release_due is Some,
            BTN_BACK,
            false,
        )
    }

    /// Select went down. Answers whether the press is held back; a previous tap's owed release
    /// goes out first.
    pub fn on_select_down(&mut self, now: u64, alone: bool, out: &mut Vec<Edge>) -> (r: bool)
        ensures
            ({
                let (g, edges, held_back) = old(self).select_down(now, alone);
                &&& *final(self) == g
                &&& final(out)@ == old(out)@ + edges
                &&& r == held_back
            }),
    {
        if self.release_due.is_some() {
            self.release_due = None;
            out.push((BTN_BACK, false));
        }
        assert(out@ =~= old(out)@ + old(self).select_down(now, alone).1);
        if alone {
            self.pending_since = Some(now);
            return true;
        }
        false
    }

    /// A chord took the pending press: it never goes out, and neither does its release.
    pub fn swallow_for_ring(&mut self)
        ensures
            *final(self) == old(self).swallow(),
    {
        if self.pending_since.is_some() {
            self.pending_since = None;
            self.swallowed = true;
        }
    }

    /// Another button went down: a pending Select goes out before it.
    pub fn on_other_down(&mut self, out: &mut Vec<Edge>)
        ensures
            ({
                let (g, edges) = old(self).other_down();
                &&& *final(self) == g
                &&& final(out)@ == old(out)@ + edges
            }),
    {
        if self.pending_since.is_some() {
            self.pending_since = None;
            out.push((BTN_BACK, true));
        }
        assert(out@ =~= old(out)@ + old(self).other_down().1);
    }

    /// Select came up. Answers whether the gesture owned the release, so that the caller sends
    /// no ordinary one.
    pub fn on_select_up(&mut self, now: u64, out: &mut Vec<Edge>) -> (r: bool)
        ensures
            ({
                let (g, edges, owned) = old(self).select_up(now);
                &&& *final(self) == g
                &&& final(out)@ == old(out)@ + edges
                &&& r == owned
            }),
    {
        if self.swallowed {
            self.swallowed = false;
            assert(out@ =~= old(out)@ + Seq::<Edge>::empty());
            return true;
        }
        if self.as_guide {
            self.as_guide = false;
            out.push((BTN_GUIDE, false));
            assert(out@ =~= old(out)@ + seq![(BTN_GUIDE, false)]);
            return true;
        }
        if self.pending_since.is_some() {
            self.pending_since = None;
            out.push((BTN_BACK, true));
            self.release_due = Some(now.saturating_add(TAP_PRESS_NS));
            assert(out@ =~= old(out)@ + seq![(BTN_BACK, true)]);
            return true;
        }
        assert(out@ =~= old(out)@ + Seq::<Edge>::empty());
        false
    }

    /// The clock moved on: a hold may become Guide, an owed release may be due.
    pub fn poll(&mut self, now: u64, out: &mut Vec<Edge>)
        ensures
            ({
                let (g, edges) = old(self).polled(now);
                &&& *final(self) == g
                &&& final(out)@ == old(out)@ + edges
            }),
    {
        match self.pending_since {
            Some(since) => {
                if now.saturating_sub(since) >= GUIDE_HOLD_NS {
                    self.pending_since = None;
                    self.as_guide = true;
                    out.push((BTN_GUIDE, true));
                }
            },
            None => {},
        }
        match self.release_due {
            Some(due) => {
                if now >= due {
                    self.release_due = None;
                    out.push((BTN_BACK, false));
                }
            },
            None => {},
        }
        assert(out@ =~= old(out)@ + old(self).polled(now).1);
    }

    /// The pad closes or the gesture is switched off: nothing may stay down, or owed.
    pub fn flush(&mut self, out: &mut Vec<Edge>)
        ensures
            *final(self) == SelectGesture::idle(),
            final(out)@ == old(out)@ + old(self).flush_edges(),
    {
        self.pending_since = None;
        self.swallowed = false;
        if self.as_guide {
            self.as_guide = false;
            out.push((BTN_GUIDE, false));
        }
        if self.release_due.is_some() {
            self.release_due = None;
            out.push((BTN_BACK, false));
        }
        assert(out@ =~= old(out)@ + old(self).flush_edges());
    }

    /// The buttons this gesture has down on the host.
    pub open spec fn down(self, bit: u32) -> bool {
        ||| bit == BTN_GUIDE && self.as_guide
        ||| bit == BTN_BACK && self.release_due is Some
    }
}

/// Flushing presses nothing, lifts exactly what the gesture has down, and leaves nothing down.
pub proof fn a_flush_lifts_what_is_down(g: SelectGesture, bit: u32)
    ensures
        !g.flush_edges().contains((bit, true)),
        g.flush_edges().contains((bit, false)) == g.down(bit),
        !SelectGesture::idle().down(bit),
{
    let e = g.flush_edges();
    if g.as_guide {
        assert(e[0] == (BTN_GUIDE, false));
    }
    if g.release_due is Some {
        assert(e[e.len() - 1] == (BTN_BACK, false));
    }
}

/// A press a chord swallowed is never heard of: neither it nor its release goes out.
pub proof fn a_swallowed_select_is_silent(g: SelectGesture, pressed: u64, lifted: u64)
    requires
        g == SelectGesture::idle(),
    ensures
        ({
            let (pending, first, held_back) = g.select_down(pressed, true);
            let (after, second, owned) = pending.swallow().select_up(lifted);
            &&& held_back
            &&& owned
            &&& first == Seq::<Edge>::empty()
            &&& second == Seq::<Edge>::empty()
            &&& after == SelectGesture::idle()
        }),
{
}

/// Select held alone past the threshold is Guide, and only Guide, until it is let go.
pub proof fn a_long_hold_is_guide_until_release(g: SelectGesture, pressed: u64, now: u64, lifted: u64)
    requires
        g == SelectGesture::idle(),
        now - pressed >= GUIDE_HOLD_NS,
    ensures
        ({
            let pending = g.select_down(pressed, true).0;
            let (guide, edges) = pending.polled(now);
            let (after, last, owned) = guide.select_up(lifted);
            &&& edges == seq![(BTN_GUIDE, true)]
            &&& owned
            &&& last == seq![(BTN_GUIDE, false)]
            &&& after == SelectGesture::idle()
        }),
{
    let pending = g.select_down(pressed, true).0;
    assert(pending.polled(now).1 =~= seq![(BTN_GUIDE, true)]);
}

/// Select let go before the threshold is a tap: one press, and one release when it is due.
pub proof fn a_short_hold_is_a_tap(g: SelectGesture, pressed: u64, lifted: u64, now: u64)
    requires
        g == SelectGesture::idle(),
        now >= later(lifted, TAP_PRESS_NS),
    ensures
        ({
            let pending = g.select_down(pressed, true).0;
            let (tapped, press, owned) = pending.select_up(lifted);
            let (after, release) = tapped.polled(now);
            &&& owned
            &&& press == seq![(BTN_BACK, true)]
            &&& release == seq![(BTN_BACK, false)]
            &&& after == SelectGesture::idle()
        }),
{
    let pending = g.select_down(pressed, true).0;
    let tapped = pending.select_up(lifted).0;
    assert(tapped.polled(now).1 =~= seq![(BTN_BACK, false)]);
}

} // verus!
