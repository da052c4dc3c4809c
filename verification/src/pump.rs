//! The video pump's decisions: which access units reach the decoder, when the host is asked
//! to repair a loss, and what the once-a-second window reports.
//!
//! The application pulls access units, runs the decoder and the freeze gate, and hands the
//! answers in. Times are nanoseconds of one monotonic clock unless a name says otherwise.

use vstd::prelude::*;

verus! {

/// Every ask to the host, keyframe or range, is this far from the one before it.
pub const ASK_SPACING_NS: u64 = 100_000_000;

/// The stats window.
pub const WINDOW_NS: u64 = 1_000_000_000;

/// Arrivals one window keeps: about two seconds at 120 Hz.
pub const MAX_ARRIVALS: usize = 256;

/// A window with fewer arrivals than this reports no phase.
pub const MIN_ARRIVALS: usize = 8;

/// The uncertainty every phase report states.
pub const PHASE_UNCERTAINTY_NS: u32 = 1_000_000;

/// Half the index space: a distance up to this is ahead, one past it is behind.
pub const HALF_RANGE: u32 = 0x7fff_ffff;

/// The distance from `b` forward to `a` on the wrapping 32-bit index circle.
pub open spec fn ahead(a: u32, b: u32) -> int {
    if a >= b {
        a - b
    } else {
        a - b + 0x1_0000_0000
    }
}

/// The index after `i`.
pub open spec fn next_index(i: u32) -> u32 {
    if i == u32::MAX {
        0
    } else {
        (i + 1) as u32
    }
}

/// The index before `i`.
pub open spec fn prev_index(i: u32) -> u32 {
    if i == 0 {
        u32::MAX
    } else {
        (i - 1) as u32
    }
}

/// Frames missing between the expected index and the one that arrived.
pub open spec fn gap_of(expected: u32, got: u32) -> Option<u32> {
    let d = ahead(got, expected);
    if 0 < d <= HALF_RANGE {
        Some(d as u32)
    } else {
        None
    }
}

/// How many frames are missing when `got` arrives where `expected` was due. `None` for the
/// frame itself and for a straggler behind it.
pub fn index_gap(expected: u32, got: u32) -> (r: Option<u32>)
    ensures
        r == gap_of(expected, got),
{
    let d: u32 = got.wrapping_sub(expected);
    if d > 0 && d <= HALF_RANGE {
        Some(d)
    } else {
        None
    }
}

/// What the client asks of the host.
#[derive(Debug, Clone, Copy, PartialEq, Eq, Structural)]
pub enum Ask {
    Nothing,
    Keyframe,
    /// Invalidate the references from `first` to `last`.
    Rfi { first: u32, last: u32 },
}

/// The lost range not asked for yet, and the throttle every ask shares.
#[derive(Debug, Clone, Copy, PartialEq, Eq)]
pub struct Recovery {
    /// Lost range the throttle swallowed, widened by later gaps.
    pub pending: Option<(u32, u32)>,
    pub last_ask: Option<u64>,
    /// The widest range an encoder's history covers.
    pub max_range: u32,
}

/// Frames from `first` to `last`, both counted, on the index circle.
pub open spec fn range_len(first: u32, last: u32) -> int {
    let d = ahead(last, first);
    if d == 0xffff_ffff {
        0
    } else {
        d + 1
    }
}

impl Recovery {
    /// Whether an ask may go out now.
    pub open spec fn open(self, now: u64) -> bool {
        match self.last_ask {
            None => true,
            Some(t) => now - t >= ASK_SPACING_NS,
        }
    }

    /// What the remembered range asks for.
    pub open spec fn range_ask(self, first: u32, last: u32) -> Ask {
        if range_len(first, last) > self.max_range {
            Ask::Keyframe
        } else {
            Ask::Rfi { first, last }
        }
    }

    /// The state and the ask after offering the remembered range.
    pub open spec fn flushed(self, now: u64) -> (Recovery, Ask) {
        match self.pending {
            Some((first, last)) => if self.open(now) {
                (
                    Recovery { pending: None, last_ask: Some(now), ..self },
                    self.range_ask(first, last),
                )
            } else {
                (self, Ask::Nothing)
            },
            None => (self, Ask::Nothing),
        }
    }

    /// The state and whether a keyframe is asked for, given a reason to.
    pub open spec fn keyed(self, wanted: bool, now: u64) -> (Recovery, bool) {
        if wanted && self.open(now) {
            (Recovery { last_ask: Some(now), ..self }, true)
        } else {
            (self, false)
        }
    }

    /// Whether an ask may go out now.
    pub fn is_open(&self, now: u64) -> (r: bool)
        ensures
            r == self.open(now),
    {
        match self.last_ask {
            None => true,
            Some(t) => now.saturating_sub(t) >= ASK_SPACING_NS,
        }
    }

    /// Send the remembered lost range once the throttle is open. A span wider than any
    /// encoder's history is a keyframe.
    pub fn flush(&mut self, now: u64) -> (r: Ask)
        ensures
            (*final(self), r) == old(self).flushed(now),
    {
        if !self.is_open(now) {
            return Ask::Nothing;
        }
        match self.pending {
            Some((first, last)) => {
                let len: u32 = last.wrapping_sub(first).wrapping_add(1);
                assert(len == range_len(first, last));
                self.pending = None;
                self.last_ask = Some(now);
                if len > self.max_range {
                    Ask::Keyframe
                } else {
                    Ask::Rfi { first, last }
                }
            },
            None => Ask::Nothing,
        }
    }

    /// Ask for a keyframe where there is a reason to and the throttle is open.
    pub fn ask_keyframe(&mut self, wanted: bool, now: u64) -> (r: bool)
        ensures
            (*final(self), r) == old(self).keyed(wanted, now),
    {
        if wanted && self.is_open(now) {
            self.last_ask = Some(now);
            true
        } else {
            false
        }
    }
}

/// What to do with an access unit that arrived.
#[derive(Debug, Clone, Copy, PartialEq, Eq, Structural)]
pub enum Arrival {
    /// Hand it on.
    Decode,
    /// `missing` frames are lost: hold the last good picture, expect that many late drops,
    /// send `ask`, and hand this one on.
    Gap { missing: u32, ask: Ask },
    /// A straggler behind one already decoded. Decoding it would rewind the references.
    Skip,
}

/// What an access unit that arrived comes to.
#[derive(Debug, Clone, Copy, PartialEq, Eq, Structural)]
pub struct FrameStep {
    /// Frames lost before it. The freeze is armed, and this many late drops are expected.
    pub lost: Option<u32>,
    pub ask: Ask,
    /// It reaches the decoder.
    pub decode: bool,
}

/// What a decoded picture's passage through the freeze gate asks for.
#[derive(Debug, Clone, Copy, PartialEq, Eq, Structural)]
pub struct GateStep {
    /// The decoder's damaged-chain marks are stale: drop them.
    pub forgive: bool,
    pub ask_keyframe: bool,
}

/// What a decoder's request for a keyframe asks for.
#[derive(Debug, Clone, Copy, PartialEq, Eq, Structural)]
pub struct RequestStep {
    /// Arm the freeze. Never while it already holds: each arm drops the recovery marks.
    pub arm: bool,
    pub ask_keyframe: bool,
}

/// The pump's state between access units.
#[derive(Debug, Clone, Copy, PartialEq, Eq)]
pub struct Pump {
    pub recovery: Recovery,
    /// The index due next. A jump is the earliest sign of a loss.
    pub next_expected: Option<u32>,
    /// Newest index handed to the decoder: the bar a late partial has to clear.
    pub newest: Option<u32>,
    /// Every access unit decodes on its own, so a late one is still worth showing.
    pub all_intra: bool,
    /// The freeze gate's arm count when the watermark was last taken.
    pub arms: u64,
    /// Decode order of the newest picture that existed when the freeze was last armed.
    pub arm_order: u64,
}

impl Pump {
    /// A pump at the start of a session; `arms` is the freeze gate's count at that moment.
    pub fn new(all_intra: bool, arms: u64, max_range: u32) -> (p: Pump)
        ensures
            p == (Pump {
                recovery: Recovery { pending: None, last_ask: None, max_range },
                next_expected: None,
                newest: None,
                all_intra,
                arms,
                arm_order: 0,
            }),
    {
        Pump {
            recovery: Recovery { pending: None, last_ask: None, max_range },
            next_expected: None,
            newest: None,
            all_intra,
            arms,
            arm_order: 0,
        }
    }

    /// The range still unasked for once a gap up to `index` is added: its oldest loss stays
    /// first, so one ask covers a burst.
    pub open spec fn widened(self, expected: u32, index: u32) -> (u32, u32) {
        match self.recovery.pending {
            Some((first, _)) => (first, prev_index(index)),
            None => (expected, prev_index(index)),
        }
    }

    /// State and answer for an access unit with this index.
    pub open spec fn arrived(self, index: u32, now: u64) -> (Pump, Arrival) {
        match self.next_expected {
            None => (
                Pump { next_expected: Some(next_index(index)), ..self },
                Arrival::Decode,
            ),
            Some(exp) => if index == exp {
                (Pump { next_expected: Some(next_index(exp)), ..self }, Arrival::Decode)
            } else {
                match gap_of(exp, index) {
                    Some(missing) => {
                        let (recovery, ask) = (Recovery {
                            pending: Some(self.widened(exp, index)),
                            ..self.recovery
                        }).flushed(now);
                        (
                            Pump { recovery, next_expected: Some(next_index(index)), ..self },
                            Arrival::Gap { missing, ask },
                        )
                    },
                    None => (
                        self,
                        if self.all_intra {
                            Arrival::Decode
                        } else {
                            Arrival::Skip
                        },
                    ),
                }
            },
        }
    }

    /// An access unit arrived. The host numbers frames consecutively, so a jump means a
    /// frame is missing and this one refers to a picture never decoded.
    pub fn on_arrival(&mut self, index: u32, now: u64) -> (r: Arrival)
        ensures
            (*final(self), r) == old(self).arrived(index, now),
    {
        match self.next_expected {
            None => {
                self.next_expected = Some(index.wrapping_add(1));
                Arrival::Decode
            },
            Some(exp) => {
                if index == exp {
                    self.next_expected = Some(exp.wrapping_add(1));
                    return Arrival::Decode;
                }
                match index_gap(exp, index) {
                    Some(missing) => {
                        self.next_expected = Some(index.wrapping_add(1));
                        let first: u32 = match self.recovery.pending {
                            Some((first, _)) => first,
                            None => exp,
                        };
                        let mut recovery = self.recovery;
                        recovery.pending = Some((first, index.wrapping_sub(1)));
                        let ask = recovery.flush(now);
                        self.recovery = recovery;
                        Arrival::Gap { missing, ask }
                    },
                    None => if self.all_intra {
                        Arrival::Decode
                    } else {
                        Arrival::Skip
                    },
                }
            },
        }
    }

    /// Whether a partial with this index lost the race to one already decoded.
    pub open spec fn stale(self, index: u32) -> bool {
        match self.newest {
            Some(n) => ahead(n, index) <= HALF_RANGE,
            None => false,
        }
    }

    /// State and answer for an access unit about to reach the decoder.
    pub open spec fn passed(self, index: u32, complete: bool) -> (Pump, bool) {
        if !complete && self.stale(index) {
            (self, false)
        } else {
            let newest = match self.newest {
                Some(n) => if ahead(index, n) > HALF_RANGE {
                    n
                } else {
                    index
                },
                None => index,
            };
            (Pump { newest: Some(newest), ..self }, true)
        }
    }

    /// Whether this access unit reaches the decoder. A partial behind a newer frame is
    /// refused; complete ones pass.
    pub fn let_through(&mut self, index: u32, complete: bool) -> (r: bool)
        ensures
            (*final(self), r) == old(self).passed(index, complete),
    {
        let stale: bool = match self.newest {
            Some(n) => n.wrapping_sub(index) <= HALF_RANGE,
            None => false,
        };
        if !complete && stale {
            return false;
        }
        let newest: u32 = match self.newest {
            Some(n) => if index.wrapping_sub(n) > HALF_RANGE {
                n
            } else {
                index
            },
            None => index,
        };
        self.newest = Some(newest);
        true
    }

    /// State and answer for an access unit, from its arrival to the decoder's door.
    pub open spec fn framed(self, index: u32, complete: bool, now: u64) -> (Pump, FrameStep) {
        let (p, a) = self.arrived(index, now);
        match a {
            Arrival::Skip => (p, FrameStep { lost: None, ask: Ask::Nothing, decode: false }),
            Arrival::Decode => {
                let (q, decode) = p.passed(index, complete);
                (q, FrameStep { lost: None, ask: Ask::Nothing, decode })
            },
            Arrival::Gap { missing, ask } => {
                let (q, decode) = p.passed(index, complete);
                (q, FrameStep { lost: Some(missing), ask, decode })
            },
        }
    }

    /// An access unit arrived: what was lost before it, what is asked for that, and whether
    /// it reaches the decoder.
    pub fn on_frame(&mut self, index: u32, complete: bool, now: u64) -> (r: FrameStep)
        ensures
            (*final(self), r) == old(self).framed(index, complete, now),
    {
        match self.on_arrival(index, now) {
            Arrival::Skip => FrameStep { lost: None, ask: Ask::Nothing, decode: false },
            Arrival::Decode => {
                let decode: bool = self.let_through(index, complete);
                FrameStep { lost: None, ask: Ask::Nothing, decode }
            },
            Arrival::Gap { missing, ask } => {
                let decode: bool = self.let_through(index, complete);
                FrameStep { lost: Some(missing), ask, decode }
            },
        }
    }

    /// Take the watermark again when the freeze gate armed since the last access unit.
    pub fn note_arms(&mut self, arms: u64, decode_order: u64)
        ensures
            *final(self) == (if arms != old(self).arms {
                Pump { arms, arm_order: decode_order, ..*old(self) }
            } else {
                *old(self)
            }),
    {
        if arms != self.arms {
            self.arms = arms;
            self.arm_order = decode_order;
        }
    }

    /// Whether a picture's own recovery point counts. One decoded before the loss must not
    /// lift the freeze that followed it.
    pub fn local_recovery_counts(&self, decode_order: Option<u64>) -> (r: bool)
        ensures
            r == !(decode_order is Some && decode_order->Some_0 <= self.arm_order),
    {
        match decode_order {
            Some(order) => order > self.arm_order,
            None => true,
        }
    }

    /// A decoded picture passed the freeze gate. Holding where nothing was held means a
    /// damaged chain reached an open gate: ask at once.
    pub fn on_gate(
        &mut self,
        was_holding: bool,
        present: bool,
        lifted_by_marks: bool,
        now: u64,
    ) -> (r: GateStep)
        ensures
            ({
                let (recovery, ask) = old(self).recovery.keyed(!present && !was_holding, now);
                &&& *final(self) == (Pump { recovery, ..*old(self) })
                &&& r == (GateStep {
                    forgive: was_holding && present && lifted_by_marks,
                    ask_keyframe: ask,
                })
            }),
    {
        let mut recovery = self.recovery;
        let ask: bool = recovery.ask_keyframe(!present && !was_holding, now);
        self.recovery = recovery;
        GateStep { forgive: was_holding && present && lifted_by_marks, ask_keyframe: ask }
    }

    /// The decoder gave no picture, or failed in a way it survives; `tripped` is the freeze gate's
    /// verdict on the streak. Answers whether a keyframe is asked for.
    pub fn on_no_output(&mut self, tripped: bool, now: u64) -> (r: bool)
        ensures
            ({
                let (recovery, ask) = old(self).recovery.keyed(tripped, now);
                &&& *final(self) == (Pump { recovery, ..*old(self) })
                &&& r == ask
            }),
    {
        let mut recovery = self.recovery;
        let ask: bool = recovery.ask_keyframe(tripped, now);
        self.recovery = recovery;
        ask
    }

    /// The decoder wants a keyframe (a rebuilt one has nothing to predict from).
    pub fn on_decoder_request(&mut self, requested: bool, holding: bool, now: u64) -> (r:
        RequestStep)
        ensures
            ({
                let (recovery, ask) = old(self).recovery.keyed(requested, now);
                &&& *final(self) == (Pump { recovery, ..*old(self) })
                &&& r == (RequestStep { arm: requested && !holding, ask_keyframe: ask })
            }),
    {
        let mut recovery = self.recovery;
        let ask: bool = recovery.ask_keyframe(requested, now);
        self.recovery = recovery;
        RequestStep { arm: requested && !holding, ask_keyframe: ask }
    }

    /// State and ask for one round of the loop, `tripped` being the freeze gate's verdict.
    pub open spec fn polled(self, tripped: bool, now: u64) -> (Pump, Ask) {
        if tripped && self.recovery.open(now) {
            (
                Pump {
                    recovery: Recovery {
                        pending: None,
                        last_ask: Some(now),
                        ..self.recovery
                    },
                    ..self
                },
                Ask::Keyframe,
            )
        } else {
            let (recovery, ask) = self.recovery.flushed(now);
            (Pump { recovery, ..self }, ask)
        }
    }

    /// One round of the loop: the freeze gate's backstop asks for a keyframe, which repairs all a
    /// remembered range would have named; otherwise the remembered range goes out.
    pub fn on_poll(&mut self, tripped: bool, now: u64) -> (r: Ask)
        ensures
            (*final(self), r) == old(self).polled(tripped, now),
    {
        let mut recovery = self.recovery;
        let ask = if recovery.ask_keyframe(tripped, now) {
            recovery.pending = None;
            Ask::Keyframe
        } else {
            recovery.flush(now)
        };
        self.recovery = recovery;
        ask
    }
}

/// One thing that happens to the pump, as far as asking the host is concerned.
pub enum PumpInput {
    Arrived { index: u32 },
    Gate { was_holding: bool, present: bool },
    NoOutput { tripped: bool },
    DecoderRequest { requested: bool },
    Poll { tripped: bool },
}

/// The state after an input, and whether an ask went out.
pub open spec fn pump_step(p: Pump, input: PumpInput, now: u64) -> (Pump, bool) {
    match input {
        PumpInput::Arrived { index } => {
            let (q, a) = p.arrived(index, now);
            (
                q,
                match a {
                    Arrival::Gap { ask, .. } => ask != Ask::Nothing,
                    _ => false,
                },
            )
        },
        PumpInput::Gate { was_holding, present } => {
            let (recovery, ask) = p.recovery.keyed(!present && !was_holding, now);
            (Pump { recovery, ..p }, ask)
        },
        PumpInput::NoOutput { tripped } => {
            let (recovery, ask) = p.recovery.keyed(tripped, now);
            (Pump { recovery, ..p }, ask)
        },
        PumpInput::DecoderRequest { requested } => {
            let (recovery, ask) = p.recovery.keyed(requested, now);
            (Pump { recovery, ..p }, ask)
        },
        PumpInput::Poll { tripped } => {
            let (q, a) = p.polled(tripped, now);
            (q, a != Ask::Nothing)
        },
    }
}

/// The times of the asks a run of timed inputs sends.
pub open spec fn ask_times(p: Pump, run: Seq<(PumpInput, u64)>) -> Seq<u64>
    decreases run.len(),
{
    if run.len() == 0 {
        Seq::empty()
    } else {
        let (q, asked) = pump_step(p, run[0].0, run[0].1);
        let rest = ask_times(q, run.skip(1));
        if asked {
            seq![run[0].1] + rest
        } else {
            rest
        }
    }
}

/// Whatever happens, no two asks to the host are closer than the spacing.
pub proof fn asks_keep_their_distance(p: Pump, run: Seq<(PumpInput, u64)>)
    ensures
        forall|i: int|
            0 < i < ask_times(p, run).len() ==> (#[trigger] ask_times(p, run)[i]) - ask_times(
                p,
                run,
            )[i - 1] >= ASK_SPACING_NS,
        ask_times(p, run).len() > 0 ==> (match p.recovery.last_ask {
            Some(t) => ask_times(p, run)[0] - t >= ASK_SPACING_NS,
            None => true,
        }),
    decreases run.len(),
{
    if run.len() > 0 {
        let (q, asked) = pump_step(p, run[0].0, run[0].1);
        let rest = ask_times(q, run.skip(1));
        asks_keep_their_distance(q, run.skip(1));
        let all = ask_times(p, run);
        if asked {
            assert(q.recovery.last_ask == Some(run[0].1));
            assert forall|i: int| 0 < i < all.len() implies (#[trigger] all[i]) - all[i - 1]
                >= ASK_SPACING_NS by {
                assert(all[i] == rest[i - 1]);
                if i > 1 {
                    assert(all[i - 1] == rest[i - 2]);
                }
            }
        } else {
            assert(q.recovery.last_ask == p.recovery.last_ask);
            assert(all == rest);
        }
    }
}

/// A loss the throttle holds back is not forgotten: it stays remembered until an ask that
/// covers it goes out, and its first index never moves forward.
pub proof fn a_throttled_loss_is_remembered(p: Pump, index: u32, now: u64)
    requires
        p.next_expected is Some,
        gap_of(p.next_expected->Some_0, index) is Some,
    ensures
        ({
            let (q, a) = p.arrived(index, now);
            let first = match p.recovery.pending {
                Some((first, _)) => first,
                None => p.next_expected->Some_0,
            };
            let last = prev_index(index);
            if p.recovery.open(now) {
                &&& q.recovery.pending is None
                &&& a == (Arrival::Gap {
                    missing: gap_of(p.next_expected->Some_0, index)->Some_0,
                    ask: p.recovery.range_ask(first, last),
                })
            } else {
                &&& q.recovery.pending == Some((first, last))
                &&& a == (Arrival::Gap {
                    missing: gap_of(p.next_expected->Some_0, index)->Some_0,
                    ask: Ask::Nothing,
                })
            }
        }),
{
}

/// A stream numbered without a jump never asks for anything and skips nothing.
pub proof fn an_unbroken_stream_asks_nothing(p: Pump, now: u64)
    requires
        p.next_expected is Some,
    ensures
        ({
            let exp = p.next_expected->Some_0;
            let (q, a) = p.arrived(exp, now);
            &&& a == Arrival::Decode
            &&& q.recovery == p.recovery
            &&& q.next_expected == Some(next_index(exp))
        }),
{
}

/// A straggler is never decoded unless every unit decodes on its own, and it leaves the
/// expectation where it was, so the real gap still shows.
pub proof fn a_straggler_changes_nothing(p: Pump, index: u32, now: u64)
    requires
        p.next_expected is Some,
        index != p.next_expected->Some_0,
        gap_of(p.next_expected->Some_0, index) is None,
    ensures
        p.arrived(index, now).0 == p,
        p.arrived(index, now).1 == (if p.all_intra {
            Arrival::Decode
        } else {
            Arrival::Skip
        }),
{
}

/// The newest index handed to the decoder never moves back, and a partial that is let
/// through becomes it unless it stands exactly half the circle away.
pub proof fn the_newest_index_never_moves_back(p: Pump, index: u32, complete: bool)
    requires
        p.newest is Some,
    ensures
        ({
            let (q, ok) = p.passed(index, complete);
            &&& q.newest is Some
            &&& ahead(q.newest->Some_0, p.newest->Some_0) <= HALF_RANGE
            &&& ok && !complete && ahead(index, p.newest->Some_0) != HALF_RANGE + 1 ==> q.newest
                == Some(index) && ahead(index, p.newest->Some_0) > 0
        }),
{
}

} // verus!
