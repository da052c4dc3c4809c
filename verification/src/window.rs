//! The pump's once-a-second window: decode samples, notices said once, and the phase report
//! that lines the host's capture grid up with this panel's latch.

use vstd::prelude::*;
use vstd::arithmetic::div_mod::*;
use vstd::arithmetic::mul::*;
use crate::pump::{MAX_ARRIVALS, MIN_ARRIVALS, PHASE_UNCERTAINTY_NS, WINDOW_NS};
use crate::text::{join, to_decimal};

verus! {

/// When an access unit arrived: its own stamp, or the moment it was pulled where the
/// transport left none.
pub fn received_stamp(stamp_ns: u64, pulled_ns: u64) -> (r: u64)
    ensures
        r == (if stamp_ns > 0 {
            stamp_ns
        } else {
            pulled_ns
        }),
{
    if stamp_ns > 0 {
        stamp_ns
    } else {
        pulled_ns
    }
}

/// Whole microseconds from one stamp to a later one; 0 where the clock stepped back.
pub open spec fn elapsed_us(from_ns: u64, to_ns: u64) -> int {
    if to_ns >= from_ns {
        (to_ns - from_ns) / 1000
    } else {
        0
    }
}

/// Whole microseconds from one stamp to a later one; 0 where the clock stepped back.
pub fn stage_us(from_ns: u64, to_ns: u64) -> (r: u64)
    ensures
        r == elapsed_us(from_ns, to_ns),
        to_ns >= from_ns ==> 1000 * r <= to_ns - from_ns < 1000 * r + 1000,
        to_ns < from_ns ==> r == 0,
{
    to_ns.saturating_sub(from_ns) / 1000
}

/// The decode time reported for bitrate control, capped to the field it rides in.
pub fn reported_decode_us(received_ns: u64, decoded_ns: u64) -> (r: u32)
    ensures
        r == (if elapsed_us(received_ns, decoded_ns) > u32::MAX {
            u32::MAX as int
        } else {
            elapsed_us(received_ns, decoded_ns)
        }),
        decoded_ns >= received_ns && (decoded_ns - received_ns) / 1000 <= u32::MAX ==> r == (
        decoded_ns - received_ns) / 1000,
        decoded_ns >= received_ns && (decoded_ns - received_ns) / 1000 > u32::MAX ==> r == u32::MAX,
        decoded_ns < received_ns ==> r == 0,
{
    let us: u64 = stage_us(received_ns, decoded_ns);
    if us > u32::MAX as u64 {
        u32::MAX
    } else {
        us as u32
    }
}

/// One panel's latch grid: any past latch and the period between latches. Zeros until the
/// presenter has measured one.
#[derive(Debug, Clone, Copy, PartialEq, Eq, Structural)]
pub struct LatchGrid {
    /// A recent on-glass latch, wall-clock nanoseconds.
    pub anchor_ns: u64,
    /// Latch period. 0 is no grid yet.
    pub period_ns: u64,
}

impl Default for LatchGrid {
    fn default() -> (g: LatchGrid)
        ensures
            g == (LatchGrid { anchor_ns: 0, period_ns: 0 }),
    {
        LatchGrid { anchor_ns: 0, period_ns: 0 }
    }
}

/// The window, as values.
#[verifier::ext_equal]
pub struct WindowState {
    pub start: u64,
    pub fence_sampled: bool,
    pub pin_noticed: bool,
    pub launch_told: Option<u32>,
    pub arrivals: Seq<u64>,
}

/// The window's state.
pub struct Window {
    pub start: u64,
    /// This window already waited for one hardware decode.
    pub fence_sampled: bool,
    /// The bitrate notice went out.
    pub pin_noticed: bool,
    /// The launch verdict last said.
    pub launch_told: Option<u32>,
    /// Arrival stamps of this window.
    pub arrivals: Vec<u64>,
}

impl View for Window {
    type V = WindowState;

    open spec fn view(&self) -> WindowState {
        WindowState {
            start: self.start,
            fence_sampled: self.fence_sampled,
            pin_noticed: self.pin_noticed,
            launch_told: self.launch_told,
            arrivals: self.arrivals@,
        }
    }
}

impl WindowState {
    /// The window with one more arrival, where one is kept and there is room.
    pub open spec fn with_arrival(self, kept: bool, received_ns: u64) -> WindowState {
        WindowState {
            arrivals: if kept && self.arrivals.len() < MAX_ARRIVALS {
                self.arrivals.push(received_ns)
            } else {
                self.arrivals
            },
            ..self
        }
    }
}

/// A phase report.
#[derive(Debug, Clone, Copy, PartialEq, Eq, Structural)]
pub struct PhaseReport {
    /// The next latch, on the host's clock.
    pub latch_ns: u64,
    pub period_ns: u32,
    pub uncertainty_ns: u32,
    pub lead_ns: u32,
}

/// How long before a latch `arrival` came, in whole microseconds.
pub open spec fn lead_us(grid: LatchGrid, arrival: u64) -> int {
    ((grid.anchor_ns - arrival) % (grid.period_ns as int)) / 1000
}

/// The first latch at or after `now`, on this device's clock.
pub open spec fn next_latch(grid: LatchGrid, now: int) -> int {
    let p = grid.period_ns as int;
    let late = if now > grid.anchor_ns {
        now - grid.anchor_ns
    } else {
        0
    };
    grid.anchor_ns + ((late + p - 1) / p) * p
}

/// `v` in an unsigned 64-bit field: nothing below zero, and the field wraps.
pub open spec fn as_field(v: int) -> int {
    if v < 0 {
        0
    } else {
        v % 0x1_0000_0000_0000_0000
    }
}

/// `v`, no more than a 32-bit field holds.
pub open spec fn capped_u32(v: u64) -> u32 {
    if v > u32::MAX {
        u32::MAX
    } else {
        v as u32
    }
}

fn cap_u32(v: u64) -> (r: u32)
    ensures
        r == capped_u32(v),
{
    if v > u32::MAX as u64 {
        u32::MAX
    } else {
        v as u32
    }
}

/// One arrival's lead on a grid.
fn lead_of(grid: LatchGrid, arrival: u64) -> (r: u64)
    requires
        grid.period_ns > 0,
    ensures
        r == lead_us(grid, arrival),
{
    let p: u64 = grid.period_ns;
    let ghost d = grid.anchor_ns - arrival;
    let m: u64 = if grid.anchor_ns >= arrival {
        (grid.anchor_ns - arrival) % p
    } else {
        let back: u64 = (arrival - grid.anchor_ns) % p;
        proof {
            let x = (arrival - grid.anchor_ns) as int;
            let q = x / (p as int);
            lemma_fundamental_div_mod(x, p as int);
            if back == 0 {
                assert(d == (p as int) * (-q) + 0) by (nonlinear_arith)
                    requires
                        d == -x,
                        x == (p as int) * q + 0,
                ;
                lemma_fundamental_div_mod_converse(d as int, p as int, -q, 0);
            } else {
                assert(d == (p as int) * (-q - 1) + (p - back)) by (nonlinear_arith)
                    requires
                        d == -x,
                        x == (p as int) * q + back,
                ;
                lemma_fundamental_div_mod_converse(d as int, p as int, -q - 1, p - back);
            }
        }
        if back == 0 {
            0
        } else {
            p - back
        }
    };
    assert(m == d % (p as int));
    m / 1000
}

impl Window {
    /// An empty window that starts now.
    pub fn new(now: u64) -> (w: Window)
        ensures
            w.start == now,
            !w.fence_sampled,
            !w.pin_noticed,
            w.launch_told is None,
            w.arrivals@ == Seq::<u64>::empty(),
    {
        Window {
            start: now,
            fence_sampled: false,
            pin_noticed: false,
            launch_told: None,
            arrivals: Vec::new(),
        }
    }

    /// Whether the window is a second old.
    pub fn due(&self, now: u64) -> (r: bool)
        ensures
            r == (now - self.start >= WINDOW_NS),
            r == (now >= self.start + 1_000_000_000),
    {
        now.saturating_sub(self.start) >= WINDOW_NS
    }

    /// Keep an arrival stamp for the phase report, up to the window's room.
    pub fn note_arrival(&mut self, phase_lock: bool, received_ns: u64)
        ensures
            final(self).arrivals@ == (if phase_lock && old(self).arrivals@.len() < MAX_ARRIVALS {
                old(self).arrivals@.push(received_ns)
            } else {
                old(self).arrivals@
            }),
            phase_lock && old(self).arrivals@.len() < 256 ==> final(self).arrivals@ == old(
                self,
            ).arrivals@.push(received_ns),
            !phase_lock || old(self).arrivals@.len() >= 256 ==> final(self).arrivals@ == old(
                self,
            ).arrivals@,
            final(self).start == old(self).start,
            final(self).fence_sampled == old(self).fence_sampled,
            final(self).pin_noticed == old(self).pin_noticed,
            final(self).launch_told == old(self).launch_told,
    {
        if phase_lock && self.arrivals.len() < MAX_ARRIVALS {
            self.arrivals.push(received_ns);
        }
    }

    /// Whether to wait for this picture's decode to finish and time it: once per window, as a
    /// wait per frame would serialize decoding.
    pub fn wants_fence_sample(&self) -> (r: bool)
        ensures
            r == !self.fence_sampled,
    {
        !self.fence_sampled
    }

    /// A wait for a hardware decode ended; one that timed out leaves the sample owed.
    pub fn note_fence_wait(&mut self, decoded: bool)
        ensures
            final(self).fence_sampled == (old(self).fence_sampled || decoded),
            final(self).start == old(self).start,
            final(self).pin_noticed == old(self).pin_noticed,
            final(self).launch_told == old(self).launch_told,
            final(self).arrivals@ == old(self).arrivals@,
    {
        if decoded {
            self.fence_sampled = true;
        }
    }

    /// The line for a pinned bitrate this device cannot keep up with, once a session.
    pub fn pin_notice(&mut self, pin_kbps: u32) -> (r: Option<String>)
        ensures
            (r is Some) == (pin_kbps != 0 && !old(self).pin_noticed),
            r is Some ==> r->Some_0@ == pin_line(pin_kbps),
            r is Some ==> r->Some_0@ == "This device can't keep up with the pinned "@
                + crate::text::decimal((pin_kbps / 1000) as nat)
                + " Mbps. Set the bitrate to Automatic or lower it."@,
            final(self).pin_noticed == (old(self).pin_noticed || pin_kbps != 0),
            final(self).start == old(self).start,
            final(self).fence_sampled == old(self).fence_sampled,
            final(self).launch_told == old(self).launch_told,
            final(self).arrivals@ == old(self).arrivals@,
    {
        if pin_kbps == 0 || self.pin_noticed {
            return None;
        }
        self.pin_noticed = true;
        let head = join(
            "This device can't keep up with the pinned ",
            to_decimal((pin_kbps / 1000) as u64).as_str(),
        );
        Some(join(head.as_str(), " Mbps. Set the bitrate to Automatic or lower it."))
    }

    /// The line for a launch verdict, each verdict once. `outcome` identifies the verdict and
    /// `line` is what it says, if it says anything.
    pub fn launch_notice(&mut self, outcome: Option<u32>, line: Option<String>) -> (r: Option<
        String,
    >)
        ensures
            r == (if outcome is Some && outcome != old(self).launch_told {
                line
            } else {
                None
            }),
            final(self).launch_told == (if outcome is Some {
                outcome
            } else {
                old(self).launch_told
            }),
            final(self).start == old(self).start,
            final(self).fence_sampled == old(self).fence_sampled,
            final(self).pin_noticed == old(self).pin_noticed,
            final(self).arrivals@ == old(self).arrivals@,
    {
        match outcome {
            None => None,
            Some(id) => {
                let told: bool = match self.launch_told {
                    Some(t) => t == id,
                    None => false,
                };
                if told {
                    None
                } else {
                    self.launch_told = Some(id);
                    line
                }
            },
        }
    }

    /// The leads of this window's arrivals on the panel's grid. `None` is a window that
    /// reports nothing: no grid yet, or too few arrivals.
    pub fn leads(&self, grid: LatchGrid) -> (r: Option<Vec<u64>>)
        ensures
            (r is Some) == (grid.period_ns > 0 && grid.anchor_ns > 0 && self.arrivals@.len()
                >= MIN_ARRIVALS),
            r is Some <==> grid.period_ns > 0 && grid.anchor_ns > 0 && self.arrivals@.len() >= 8,
            r is Some ==> {
                &&& r->Some_0@.len() == self.arrivals@.len()
                &&& forall|i: int|
                    0 <= i < self.arrivals@.len() ==> (#[trigger] r->Some_0@[i]) == lead_us(
                        grid,
                        self.arrivals@[i],
                    )
            },
    {
        if grid.period_ns == 0 || grid.anchor_ns == 0 || self.arrivals.len() < MIN_ARRIVALS {
            return None;
        }
        let mut out: Vec<u64> = Vec::new();
        let mut i: usize = 0;
        while i < self.arrivals.len()
            invariant
                grid.period_ns > 0,
                i <= self.arrivals@.len(),
                out@.len() == i,
                forall|j: int|
                    0 <= j < i ==> (#[trigger] out@[j]) == lead_us(grid, self.arrivals@[j]),
            decreases self.arrivals@.len() - i,
        {
            out.push(lead_of(grid, self.arrivals[i]));
            i = i + 1;
        }
        Some(out)
    }

    /// Start the next window: the fence sample is owed again and the arrivals are gone.
    pub fn restart(&mut self, now: u64)
        ensures
            final(self).start == now,
            !final(self).fence_sampled,
            final(self).arrivals@ == Seq::<u64>::empty(),
            final(self).pin_noticed == old(self).pin_noticed,
            final(self).launch_told == old(self).launch_told,
    {
        self.start = now;
        self.fence_sampled = false;
        self.arrivals.clear();
    }
}

/// The text of the bitrate notice.
pub open spec fn pin_line(pin_kbps: u32) -> Seq<char> {
    "This device can't keep up with the pinned "@ + crate::text::decimal((pin_kbps / 1000) as nat)
        + " Mbps. Set the bitrate to Automatic or lower it."@
}

/// The report for a window whose arrivals lead their latch by `lead_ns`: the next latch at or
/// after `now_ns`, moved onto the host's clock by `clock_offset_ns`.
pub fn phase_report(grid: LatchGrid, now_ns: u64, clock_offset_ns: i64, lead_ns: u64) -> (r:
    PhaseReport)
    requires
        grid.period_ns > 0,
    ensures
        r.latch_ns == as_field(next_latch(grid, now_ns as int) + clock_offset_ns),
        r.period_ns == capped_u32(grid.period_ns),
        r.uncertainty_ns == PHASE_UNCERTAINTY_NS,
        r.lead_ns == capped_u32(lead_ns),
        lead_ns <= u32::MAX ==> r.lead_ns == lead_ns,
        lead_ns > u32::MAX ==> r.lead_ns == u32::MAX,
        grid.period_ns <= u32::MAX ==> r.period_ns == grid.period_ns,
        grid.period_ns > u32::MAX ==> r.period_ns == u32::MAX,
        r.uncertainty_ns == 1_000_000,
        0 <= next_latch(grid, now_ns as int) + clock_offset_ns <= u64::MAX ==> r.latch_ns
            == next_latch(grid, now_ns as int) + clock_offset_ns,
        next_latch(grid, now_ns as int) + clock_offset_ns < 0 ==> r.latch_ns == 0,
{
    let p: i128 = grid.period_ns as i128;
    let a: i128 = grid.anchor_ns as i128;
    let late: u128 = if now_ns > grid.anchor_ns {
        (now_ns - grid.anchor_ns) as u128
    } else {
        0
    };
    let k: u128 = (late + grid.period_ns as u128 - 1) / (grid.period_ns as u128);
    proof {
        let n = (late + grid.period_ns - 1) as int;
        lemma_fundamental_div_mod(n, p as int);
        lemma_mul_is_commutative(k as int, p as int);
        lemma_mul_nonnegative(k as int, p as int);
        assert(k * p <= n);
    }
    let kp: u128 = k * (grid.period_ns as u128);
    let v: i128 = a + kp as i128 + clock_offset_ns as i128;
    let latch: u64 = if v < 0 {
        0
    } else {
        (v as u128 % 0x1_0000_0000_0000_0000) as u64
    };
    PhaseReport {
        latch_ns: latch,
        period_ns: cap_u32(grid.period_ns),
        uncertainty_ns: PHASE_UNCERTAINTY_NS,
        lead_ns: cap_u32(lead_ns),
    }
}

/// The reported latch lies on the grid, at or after now, and less than a period after the
/// later of now and the anchor.
pub proof fn the_latch_is_the_next_grid_point(grid: LatchGrid, now: int)
    requires
        grid.period_ns > 0,
    ensures
        next_latch(grid, now) >= now,
        next_latch(grid, now) >= grid.anchor_ns,
        next_latch(grid, now) < (if now > grid.anchor_ns {
            now
        } else {
            grid.anchor_ns as int
        }) + grid.period_ns,
        (next_latch(grid, now) - grid.anchor_ns) % (grid.period_ns as int) == 0,
{
    let p = grid.period_ns as int;
    let late = if now > grid.anchor_ns {
        now - grid.anchor_ns
    } else {
        0
    };
    let n = late + p - 1;
    let k = n / p;
    lemma_fundamental_div_mod(n, p);
    lemma_mul_is_commutative(k, p);
    lemma_mod_multiples_basic(k, p);
}

/// An arrival and its lead meet a latch, to the microsecond a lead is counted in.
pub proof fn a_lead_reaches_a_latch(grid: LatchGrid, arrival: u64)
    requires
        grid.period_ns > 0,
    ensures
        exists|ns: int|
            0 <= ns < grid.period_ns && lead_us(grid, arrival) == ns / 1000 && #[trigger] (arrival
                + ns - grid.anchor_ns) % (grid.period_ns as int) == 0,
{
    let p = grid.period_ns as int;
    let d = grid.anchor_ns - arrival;
    let ns = d % p;
    lemma_mod_bound(d, p);
    lemma_fundamental_div_mod(d, p);
    assert(arrival + ns - grid.anchor_ns == -(p * (d / p)));
    assert(-(p * (d / p)) == (-(d / p)) * p) by (nonlinear_arith);
    lemma_mod_multiples_basic(-(d / p), p);
    assert((arrival + ns - grid.anchor_ns) % p == 0);
}

/// A lead is less than one period.
pub proof fn a_lead_is_within_one_period(grid: LatchGrid, arrival: u64)
    requires
        grid.period_ns > 0,
    ensures
        0 <= lead_us(grid, arrival) * 1000 < grid.period_ns,
{
    lemma_mod_bound(grid.anchor_ns - arrival, grid.period_ns as int);
}

} // verus!
