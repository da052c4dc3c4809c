//! Menu navigation from several controllers at once.

use vstd::prelude::*;

verus! {

/// How far off centre a stick has to be to count as pushed.
pub const MENU_DEADZONE: i32 = 16384;

/// The menu-navigation state of one pad.
#[derive(Debug, Clone, Copy, PartialEq, Eq)]
pub struct MenuSample {
    /// The four face buttons and the two shoulders.
    pub buttons: [bool; 6],
    pub lx: i16,
    pub ly: i16,
    /// Up, down, left, right.
    pub dpad: [bool; 4],
}

impl Default for MenuSample {
    fn default() -> (s: MenuSample)
        ensures
            s.at_rest(),
    {
        MenuSample { buttons: [false; 6], lx: 0, ly: 0, dpad: [false; 4] }
    }
}

/// How far off centre a stick is, squared.
pub open spec fn reach(lx: i16, ly: i16) -> int {
    lx * lx + ly * ly
}

/// Whether a stick is pushed past the dead zone.
pub open spec fn pushed(lx: i16, ly: i16) -> bool {
    reach(lx, ly) > MENU_DEADZONE * MENU_DEADZONE
}

impl MenuSample {
    /// Nothing pressed, stick centred.
    pub open spec fn at_rest(self) -> bool {
        &&& self.lx == 0
        &&& self.ly == 0
        &&& forall|i: int| 0 <= i < 6 ==> !(#[trigger] self.buttons@[i])
        &&& forall|i: int| 0 <= i < 4 ==> !(#[trigger] self.dpad@[i])
    }

    /// Whether this pad is in someone's hands right now.
    pub open spec fn acting(self) -> bool {
        ||| exists|i: int| 0 <= i < 6 && #[trigger] self.buttons@[i]
        ||| exists|i: int| 0 <= i < 4 && #[trigger] self.dpad@[i]
        ||| pushed(self.lx, self.ly)
    }
}

/// Whether sample `k` is the first of those furthest off centre.
pub open spec fn furthest(samples: Seq<MenuSample>, k: int) -> bool {
    &&& 0 <= k < samples.len()
    &&& forall|j: int|
        0 <= j < samples.len() ==> reach((#[trigger] samples[j]).lx, samples[j].ly) <= reach(
            samples[k].lx,
            samples[k].ly,
        )
    &&& forall|j: int|
        0 <= j < k ==> reach((#[trigger] samples[j]).lx, samples[j].ly) < reach(
            samples[k].lx,
            samples[k].ly,
        )
}

/// Whether some sample has face button or shoulder `i` down.
pub open spec fn any_button(samples: Seq<MenuSample>, i: int) -> bool {
    exists|k: int| 0 <= k < samples.len() && (#[trigger] samples[k]).buttons@[i]
}

/// Whether some sample has direction `i` down.
pub open spec fn any_dpad(samples: Seq<MenuSample>, i: int) -> bool {
    exists|k: int| 0 <= k < samples.len() && (#[trigger] samples[k]).dpad@[i]
}

/// What several pads say together: a button is down where any has it down, and the stick is
/// that of the pad furthest off centre.
pub open spec fn is_merge(samples: Seq<MenuSample>, m: MenuSample) -> bool {
    &&& forall|i: int| 0 <= i < 6 ==> #[trigger] m.buttons@[i] == any_button(samples, i)
    &&& forall|i: int| 0 <= i < 4 ==> #[trigger] m.dpad@[i] == any_dpad(samples, i)
    &&& samples.len() == 0 ==> m.lx == 0 && m.ly == 0
    &&& forall|k: int| #[trigger]
        furthest(samples, k) ==> m.lx == samples[k].lx && m.ly == samples[k].ly
}

fn reach_of(lx: i16, ly: i16) -> (r: i64)
    ensures
        r == reach(lx, ly),
        0 <= r,
{
    let x: i64 = lx as i64;
    let y: i64 = ly as i64;
    assert(0 <= x * x <= 0x4000_0000 && 0 <= y * y <= 0x4000_0000) by (nonlinear_arith)
        requires
            -32768 <= x <= 32767,
            -32768 <= y <= 32767,
    ;
    x * x + y * y
}

/// Fold every open pad into one sample. Two pads pushing at once read as one hand instead of
/// cancelling.
pub fn merge_samples(samples: &[MenuSample]) -> (m: MenuSample)
    ensures
        is_merge(samples@, m),
        samples@.len() > 0 ==> exists|k: int| #[trigger] furthest(samples@, k),
        forall|i: int|
            0 <= i < 6 ==> (#[trigger] m.buttons@[i] <==> exists|k: int|
                0 <= k < samples@.len() && (#[trigger] samples@[k]).buttons@[i]),
        forall|i: int|
            0 <= i < 4 ==> (#[trigger] m.dpad@[i] <==> exists|k: int|
                0 <= k < samples@.len() && (#[trigger] samples@[k]).dpad@[i]),
        forall|k: int|
            0 <= k < samples@.len() ==> (#[trigger] samples@[k]).lx * samples@[k].lx + samples@[k].ly
                * samples@[k].ly <= m.lx * m.lx + m.ly * m.ly,
{
    let mut buttons: [bool; 6] = [false; 6];
    let mut dpad: [bool; 4] = [false; 4];
    let mut best: i64 = -1;
    let mut at: usize = 0;
    let mut n: usize = 0;
    let mut lx: i16 = 0;
    let mut ly: i16 = 0;
    while n < samples.len()
        invariant
            n <= samples@.len(),
            at <= n,
            forall|i: int|
                0 <= i < 6 ==> #[trigger] buttons@[i] == any_button(samples@.take(n as int), i),
            forall|i: int| 0 <= i < 4 ==> #[trigger] dpad@[i] == any_dpad(samples@.take(n as int), i),
            n == 0 ==> lx == 0 && ly == 0 && best == -1,
            n > 0 ==> furthest(samples@.take(n as int), at as int) && lx == samples@[at as int].lx
                && ly == samples@[at as int].ly && best == reach(lx, ly),
        decreases samples@.len() - n,
    {
        let s: MenuSample = samples[n];
        let ghost before = samples@.take(n as int);
        let ghost after = samples@.take(n + 1);
        assert(after =~= before.push(s));
        assert forall|i: int| 0 <= i < 6 implies #[trigger] any_button(after, i) == (any_button(
            before,
            i,
        ) || s.buttons@[i]) by {
            if any_button(before, i) {
                let k = choose|k: int| 0 <= k < before.len() && (#[trigger] before[k]).buttons@[i];
                assert(after[k].buttons@[i]);
            }
            if s.buttons@[i] {
                assert(after[n as int].buttons@[i]);
            }
            if any_button(after, i) && !s.buttons@[i] {
                let k = choose|k: int| 0 <= k < after.len() && (#[trigger] after[k]).buttons@[i];
                assert(before[k].buttons@[i]);
            }
        }
        assert forall|i: int| 0 <= i < 4 implies #[trigger] any_dpad(after, i) == (any_dpad(
            before,
            i,
        ) || s.dpad@[i]) by {
            if any_dpad(before, i) {
                let k = choose|k: int| 0 <= k < before.len() && (#[trigger] before[k]).dpad@[i];
                assert(after[k].dpad@[i]);
            }
            if s.dpad@[i] {
                assert(after[n as int].dpad@[i]);
            }
            if any_dpad(after, i) && !s.dpad@[i] {
                let k = choose|k: int| 0 <= k < after.len() && (#[trigger] after[k]).dpad@[i];
                assert(before[k].dpad@[i]);
            }
        }
        let mut i: usize = 0;
        let ghost was = buttons@;
        while i < 6
            invariant
                i <= 6,
                was.len() == 6,
                buttons@.len() == 6,
                s.buttons@.len() == 6,
                forall|j: int| 0 <= j < i ==> #[trigger] buttons@[j] == (was[j] || s.buttons@[j]),
                forall|j: int| i <= j < 6 ==> #[trigger] buttons@[j] == was[j],
            decreases 6 - i,
        {
            buttons[i] = buttons[i] || s.buttons[i];
            i = i + 1;
        }
        let mut j: usize = 0;
        let ghost wasd = dpad@;
        while j < 4
            invariant
                j <= 4,
                wasd.len() == 4,
                dpad@.len() == 4,
                s.dpad@.len() == 4,
                forall|k: int| 0 <= k < j ==> #[trigger] dpad@[k] == (wasd[k] || s.dpad@[k]),
                forall|k: int| j <= k < 4 ==> #[trigger] dpad@[k] == wasd[k],
            decreases 4 - j,
        {
            dpad[j] = dpad[j] || s.dpad[j];
            j = j + 1;
        }
        let mag: i64 = reach_of(s.lx, s.ly);
        if mag > best {
            best = mag;
            at = n;
            lx = s.lx;
            ly = s.ly;
        }
        assert(after[n as int] == s);
        assert(furthest(after, at as int)) by {
            assert forall|k: int| 0 <= k < after.len() implies reach(
                (#[trigger] after[k]).lx,
                after[k].ly,
            ) <= reach(after[at as int].lx, after[at as int].ly) by {
                if k < n {
                    assert(before[k] == after[k]);
                }
            }
            assert forall|k: int| 0 <= k < at implies reach(
                (#[trigger] after[k]).lx,
                after[k].ly,
            ) < reach(after[at as int].lx, after[at as int].ly) by {
                if k < n {
                    assert(before[k] == after[k]);
                }
            }
        }
        n = n + 1;
    }
    assert(samples@.take(n as int) =~= samples@);
    let m = MenuSample { buttons, lx, ly, dpad };
    proof {
        assert forall|k: int| #[trigger] furthest(samples@, k) implies m.lx == samples@[k].lx
            && m.ly == samples@[k].ly by {
            the_furthest_is_unique(samples@, k, at as int);
        }
    }
    m
}

/// At most one sample is the first of the furthest.
pub proof fn the_furthest_is_unique(samples: Seq<MenuSample>, a: int, b: int)
    requires
        furthest(samples, a),
        furthest(samples, b),
    ensures
        a == b,
{
    let x = samples[a];
    let y = samples[b];
}

/// The order of the pads does not decide which buttons are down, nor how far the stick is
/// pushed.
pub proof fn the_order_of_pads_does_not_matter(
    x: MenuSample,
    y: MenuSample,
    m: MenuSample,
    n: MenuSample,
)
    requires
        is_merge(seq![x, y], m),
        is_merge(seq![y, x], n),
    ensures
        m.buttons@ == n.buttons@,
        m.dpad@ == n.dpad@,
        reach(m.lx, m.ly) == reach(n.lx, n.ly),
{
    let s = seq![x, y];
    let t = seq![y, x];
    assert(s[0] == x && s[1] == y && t[0] == y && t[1] == x);
    assert forall|i: int| 0 <= i < 6 implies m.buttons@[i] == n.buttons@[i] by {
        assert(any_button(s, i) == (x.buttons@[i] || y.buttons@[i]));
        assert(any_button(t, i) == (x.buttons@[i] || y.buttons@[i]));
    }
    assert forall|i: int| 0 <= i < 4 implies m.dpad@[i] == n.dpad@[i] by {
        assert(any_dpad(s, i) == (x.dpad@[i] || y.dpad@[i]));
        assert(any_dpad(t, i) == (x.dpad@[i] || y.dpad@[i]));
    }
    assert(m.buttons@ =~= n.buttons@);
    assert(m.dpad@ =~= n.dpad@);
    if reach(x.lx, x.ly) >= reach(y.lx, y.ly) {
        assert(furthest(s, 0));
        if reach(x.lx, x.ly) == reach(y.lx, y.ly) {
            assert(furthest(t, 0));
        } else {
            assert(furthest(t, 1));
        }
    } else {
        assert(furthest(s, 1));
        assert(furthest(t, 0));
    }
}

/// This pad is the one in someone's hands right now: a button, a direction, or a stick past
/// the dead zone, so resting drift claims nothing.
pub fn is_acting(s: &MenuSample) -> (r: bool)
    ensures
        r == s.acting(),
        r <==> (exists|i: int| 0 <= i < 6 && #[trigger] s.buttons@[i]) || (exists|i: int|
            0 <= i < 4 && #[trigger] s.dpad@[i]) || s.lx * s.lx + s.ly * s.ly > 268_435_456,
{
    let mut i: usize = 0;
    while i < 6
        invariant
            i <= 6,
            s.buttons@.len() == 6,
            forall|j: int| 0 <= j < i ==> !(#[trigger] s.buttons@[j]),
        decreases 6 - i,
    {
        if s.buttons[i] {
            return true;
        }
        i = i + 1;
    }
    let mut j: usize = 0;
    while j < 4
        invariant
            j <= 4,
            s.dpad@.len() == 4,
            forall|k: int| 0 <= k < j ==> !(#[trigger] s.dpad@[k]),
        decreases 4 - j,
    {
        if s.dpad[j] {
            return true;
        }
        j = j + 1;
    }
    let edge: i64 = MENU_DEADZONE as i64;
    reach_of(s.lx, s.ly) > edge * edge
}

/// The last acting sample: the pad connected latest wins a tie.
pub open spec fn last_acting(samples: Seq<MenuSample>) -> Option<int>
    decreases samples.len(),
{
    if samples.len() == 0 {
        None
    } else if samples.last().acting() {
        Some(samples.len() - 1)
    } else {
        last_acting(samples.drop_last())
    }
}

/// The last acting sample.
pub fn acting_pad(samples: &[MenuSample]) -> (r: Option<usize>)
    ensures
        match r {
            Some(i) => i < samples@.len() && last_acting(samples@) == Some(i as int),
            None => last_acting(samples@) is None,
        },
        match r {
            Some(i) => samples@[i as int].acting() && forall|j: int|
                i < j < samples@.len() ==> !(#[trigger] samples@[j]).acting(),
            None => forall|j: int| 0 <= j < samples@.len() ==> !(#[trigger] samples@[j]).acting(),
        },
{
    let mut i: usize = samples.len();
    assert(samples@.take(i as int) =~= samples@);
    while i > 0
        invariant
            i <= samples@.len(),
            last_acting(samples@) == last_acting(samples@.take(i as int)),
            forall|j: int| i <= j < samples@.len() ==> !(#[trigger] samples@[j]).acting(),
        decreases i,
    {
        i = i - 1;
        assert(samples@.take(i + 1).drop_last() =~= samples@.take(i as int));
        assert(samples@.take(i + 1).last() == samples@[i as int]);
        if is_acting(&samples[i]) {
            return Some(i);
        }
    }
    None
}

/// How long the worker waits for an event: shorter while a session or the menu needs its
/// clock.
pub fn wait_ms(attached: bool, menu_mode: bool) -> (r: u64)
    ensures
        r == (if attached || menu_mode {
            10int
        } else {
            30
        }),
{
    if attached || menu_mode {
        10
    } else {
        30
    }
}

} // verus!
