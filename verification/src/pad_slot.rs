//! One forwarded controller: what the host believes of it, and what each change sends.

use vstd::prelude::*;
use crate::buttons::{BTN_BACK, BTN_GUIDE, BTN_MISC1};
use crate::gesture::{chord_of, select_chord, Edge, SelectChord, SelectGesture};

verus! {

/// The kind of controller a pad is, or is presented to the host as.
#[derive(Debug, Clone, Copy, PartialEq, Eq, Structural)]
pub enum GamepadPref {
    /// Whatever the pad itself is.
    Auto,
    Xbox360,
    XboxOne,
    DualShock4,
    DualSense,
    DualSenseEdge,
    SwitchPro,
    SteamDeck,
    SteamController,
    /// A second-generation Steam Controller, which the host may drive raw.
    SteamController2,
}

/// Three axes of a sensor, in wire units.
#[derive(Debug, Clone, Copy, PartialEq, Eq, Structural)]
pub struct Triple {
    pub x: i16,
    pub y: i16,
    pub z: i16,
}

/// Something sent to the host, or raised to the client.
#[derive(Debug, Clone, Copy, PartialEq, Eq, Structural)]
pub enum Act {
    /// The host builds a controller of this kind at this index.
    Arrival { pad: u8, kind: GamepadPref },
    /// The host takes the controller at this index away.
    Remove { pad: u8 },
    /// Which pad-audio streams this index renders.
    AudioCaps { pad: u8, caps: u8 },
    /// How this index's actuator has to be driven.
    RumbleQuirks { pad: u8, keepalive_ms: u16, dedup_jitter: bool },
    Button { pad: u8, bit: u32, down: bool },
    Axis { pad: u8, axis: u32, value: i32 },
    /// A contact on a pad with one touch surface.
    Touch { pad: u8, finger: u8, active: bool, ux: u16, uy: u16 },
    /// A contact or click on one of several touch surfaces.
    TouchEx { pad: u8, surface: u8, finger: u8, touch: bool, click: bool, x: i16, y: i16 },
    Motion { pad: u8, gyro: Triple, accel: Triple },
    /// Tell the user that the host's controller at this index has no gyro for this pad's.
    MotionLost { pad: u8 },
    /// A Select chord for the client.
    Chord { pad: u8, chord: SelectChord },
    /// Stop this device's raw reports, silence it and put its lights and triggers to rest.
    Neutral { id: u32 },
    /// Open this device and forward it.
    OpenSlot { id: u32 },
    /// Stream this device's motion sensors.
    Sensors { id: u32 },
    /// Pass this device's reports on raw, under this index.
    OpenRaw { id: u32, pad: u8 },
    /// Let this device's voice coils follow the haptics stream.
    ArmCoils { id: u32 },
    /// Point this device at its own speaker.
    EnableSpeaker { id: u32 },
    /// This index renders pad audio from now on.
    RegisterAudio { pad: u8 },
    /// This index no longer renders pad audio.
    UnregisterAudio { pad: u8 },
    /// Open this device for menu navigation.
    OpenMenu { id: u32 },
    /// Close this menu device.
    CloseMenu { id: u32 },
    /// Switch the drivers that take a Valve controller over.
    Valve { on: bool },
    /// Raw reports follow this mask and system-button routing from now on.
    RawGate { masked: bool, system_forward: bool },
    /// Menu navigation takes held state over instead of acting on it.
    MenuReset,
    /// The list of controllers changed.
    Publish,
    /// The escape chord: leave fullscreen and release capture.
    Escape,
    /// The escape chord was held: disconnect.
    Disconnect,
    /// A short pulse on a menu device.
    Pulse { id: u32, low: u16, high: u16, ms: u32 },
}

/// How the client routes system buttons and chords.
#[derive(Debug, Clone, Copy, PartialEq, Eq, Structural)]
pub struct Routing {
    /// Physical Guide and the extra button go to the host.
    pub system_forward: bool,
    /// Hold-Select makes Guide.
    pub guide_gesture: bool,
    /// Something listens for Select chords.
    pub chords_live: bool,
}

impl Routing {
    /// Whether a button stays with the local shell.
    pub open spec fn withholds(self, bit: u32) -> bool {
        !self.system_forward && (bit == BTN_GUIDE || bit == BTN_MISC1)
    }

    /// Whether a button stays with the local shell.
    pub fn keeps_local(&self, bit: u32) -> (r: bool)
        ensures
            r == self.withholds(bit),
            r == (!self.system_forward && (bit == 0x400 || bit == 0x20_0000)),
    {
        !self.system_forward && (bit == BTN_GUIDE || bit == BTN_MISC1)
    }
}

/// The last contact on one touch surface.
#[derive(Debug, Clone, Copy, PartialEq, Eq, Structural)]
pub struct Surface {
    pub x: i16,
    pub y: i16,
    pub touching: bool,
}

/// Where a finger is, in both wire scales.
#[derive(Debug, Clone, Copy, PartialEq, Eq, Structural)]
pub struct Contact {
    /// From corner to corner, for a single surface.
    pub ux: u16,
    pub uy: u16,
    /// Round the centre, for one of several.
    pub sx: i16,
    pub sy: i16,
}

/// What a slot holds, as values.
#[verifier::ext_equal]
pub struct SlotState {
    pub id: u32,
    pub index: u8,
    pub pref: GamepadPref,
    pub declared: GamepadPref,
    pub multi: bool,
    pub axes: Seq<i32>,
    pub held: Seq<u32>,
    pub touches: Seq<(u8, u8)>,
    pub swallow: Option<u32>,
    pub surfaces: Seq<Surface>,
    pub clicks: Seq<bool>,
    pub accel: Triple,
    pub sent_motion: bool,
    pub motion_told: bool,
    pub gesture: SelectGesture,
    pub audio_caps: u8,
    pub rumble_told: bool,
    pub coils_muted: bool,
    pub raw: bool,
    pub raw_rumble: bool,
}

/// One forwarded controller while a session is attached.
pub struct Slot {
    /// The device's instance id.
    pub id: u32,
    /// Wire index, stable for the slot's life.
    pub index: u8,
    /// What the controller is.
    pub pref: GamepadPref,
    /// What the host was told it is.
    pub declared: GamepadPref,
    /// Two touch surfaces.
    pub multi: bool,
    pub axes: [i32; 6],
    /// Buttons physically down, in the order pressed.
    pub held: Vec<u32>,
    /// Contacts the host believes in, `(surface, finger)`.
    pub touches: Vec<(u8, u8)>,
    /// The button a chord took; its release must not go out either.
    pub swallow: Option<u32>,
    pub surfaces: [Surface; 2],
    pub clicks: [bool; 2],
    pub accel: Triple,
    /// A motion sample went out.
    pub sent_motion: bool,
    pub motion_told: bool,
    pub gesture: SelectGesture,
    /// Bit 0 renders haptics, bit 1 the speaker.
    pub audio_caps: u8,
    pub rumble_told: bool,
    /// A rumble went out since the voice coils were last armed.
    pub coils_muted: bool,
    /// Raw reports pass through.
    pub raw: bool,
    /// The host drives the motors raw.
    pub raw_rumble: bool,
}

impl View for Slot {
    type V = SlotState;

    open spec fn view(&self) -> SlotState {
        SlotState {
            id: self.id,
            index: self.index,
            pref: self.pref,
            declared: self.declared,
            multi: self.multi,
            axes: self.axes@,
            held: self.held@,
            touches: self.touches@,
            swallow: self.swallow,
            surfaces: self.surfaces@,
            clicks: self.clicks@,
            accel: self.accel,
            sent_motion: self.sent_motion,
            motion_told: self.motion_told,
            gesture: self.gesture,
            audio_caps: self.audio_caps,
            rumble_told: self.rumble_told,
            coils_muted: self.coils_muted,
            raw: self.raw,
            raw_rumble: self.raw_rumble,
        }
    }
}

/// The sends for a run of gesture edges.
pub open spec fn edge_acts(pad: u8, edges: Seq<Edge>) -> Seq<Act> {
    edges.map_values(|e: Edge| Act::Button { pad, bit: e.0, down: e.1 })
}

/// A release for each button of a list.
pub open spec fn lift_acts(pad: u8, held: Seq<u32>) -> Seq<Act> {
    held.map_values(|b: u32| Act::Button { pad, bit: b, down: false })
}

/// A zero for each of the first `n` axes the host believes off centre.
pub open spec fn axis_lifts(pad: u8, axes: Seq<i32>, n: int) -> Seq<Act>
    decreases n,
{
    if n <= 0 {
        Seq::empty()
    } else if axes[n - 1] != 0 && axes[n - 1] != i32::MIN {
        axis_lifts(pad, axes, n - 1).push(Act::Axis { pad, axis: (n - 1) as u32, value: 0 })
    } else {
        axis_lifts(pad, axes, n - 1)
    }
}

/// A lift for surface `i`'s click, where one is held.
pub open spec fn click_lift(pad: u8, clicks: Seq<bool>, surfaces: Seq<Surface>, i: int) -> Seq<Act> {
    if clicks[i] {
        seq![
            Act::TouchEx {
                pad,
                surface: (i + 1) as u8,
                finger: 0,
                touch: false,
                click: false,
                x: surfaces[i].x,
                y: surfaces[i].y,
            },
        ]
    } else {
        Seq::empty()
    }
}

/// A lift for one contact.
pub open spec fn touch_lift(pad: u8, t: (u8, u8)) -> Act {
    if t.0 == 0 {
        Act::Touch { pad, finger: t.1, active: false, ux: 0, uy: 0 }
    } else {
        Act::TouchEx { pad, surface: t.0, finger: t.1, touch: false, click: false, x: 0, y: 0 }
    }
}

/// A lift for each contact.
pub open spec fn touch_lifts(pad: u8, touches: Seq<(u8, u8)>) -> Seq<Act> {
    touches.map_values(|t: (u8, u8)| touch_lift(pad, t))
}

/// `s` without any `x`.
pub open spec fn without<T>(s: Seq<T>, x: T) -> Seq<T>
    decreases s.len(),
{
    if s.len() == 0 {
        s
    } else if s.last() == x {
        without(s.drop_last(), x)
    } else {
        without(s.drop_last(), x).push(s.last())
    }
}

/// What is left holds everything but `x`.
pub proof fn without_holds_the_rest<T>(s: Seq<T>, x: T, y: T)
    ensures
        without(s, x).contains(y) == (s.contains(y) && y != x),
        without(s, x).len() <= s.len(),
    decreases s.len(),
{
    if s.len() > 0 {
        without_holds_the_rest(s.drop_last(), x, y);
        let r = without(s.drop_last(), x);
        if s.contains(y) {
            let i = choose|i: int| 0 <= i < s.len() && s[i] == y;
            if i < s.len() - 1 {
                assert(s.drop_last()[i] == y);
            }
        }
        if s.drop_last().contains(y) {
            let i = choose|i: int| 0 <= i < s.drop_last().len() && s.drop_last()[i] == y;
            assert(s[i] == y);
        }
        if s.last() != x {
            let w = without(s, x);
            assert(w == r.push(s.last()));
            assert(w[w.len() - 1] == s.last());
            if r.contains(y) {
                let i = choose|i: int| 0 <= i < r.len() && r[i] == y;
                assert(w[i] == y);
            }
            if w.contains(y) {
                let i = choose|i: int| 0 <= i < w.len() && w[i] == y;
                if i < r.len() {
                    assert(r[i] == y);
                } else {
                    assert(y == s.last());
                    assert(s[s.len() - 1] == y);
                }
            }
            if y == s.last() {
                assert(s[s.len() - 1] == y);
            }
        }
    }
}

/// The bits a pad still has down once the withheld ones are left out.
pub open spec fn adopted(routing: Routing, bits: Seq<u32>) -> Seq<u32>
    decreases bits.len(),
{
    if bits.len() == 0 {
        bits
    } else if routing.withholds(bits.last()) {
        adopted(routing, bits.drop_last())
    } else {
        adopted(routing, bits.drop_last()).push(bits.last())
    }
}

/// A send for each of the first `n` axes whose value is news.
pub open spec fn axis_news(pad: u8, was: Seq<i32>, now: Seq<i32>, n: int) -> Seq<Act>
    decreases n,
{
    if n <= 0 {
        Seq::empty()
    } else if was[n - 1] != now[n - 1] {
        axis_news(pad, was, now, n - 1).push(
            Act::Axis { pad, axis: (n - 1) as u32, value: now[n - 1] },
        )
    } else {
        axis_news(pad, was, now, n - 1)
    }
}

impl SlotState {
    /// A slot just opened.
    pub open spec fn fresh(
        id: u32,
        index: u8,
        pref: GamepadPref,
        declared: GamepadPref,
        multi: bool,
        audio_caps: u8,
        raw: bool,
    ) -> SlotState {
        SlotState {
            id,
            index,
            pref,
            declared,
            multi,
            axes: Seq::new(6, |i: int| i32::MIN),
            held: Seq::empty(),
            touches: Seq::empty(),
            swallow: None,
            surfaces: Seq::new(2, |i: int| Surface { x: 0, y: 0, touching: false }),
            clicks: Seq::new(2, |i: int| false),
            accel: Triple { x: 0, y: 0, z: 0 },
            sent_motion: false,
            motion_told: false,
            gesture: SelectGesture::idle(),
            audio_caps,
            rumble_told: false,
            coils_muted: false,
            raw,
            raw_rumble: false,
        }
    }

    /// The gesture's share of a press: its new state, what it sends first, whether it holds
    /// the press back.
    pub open spec fn gesture_press(self, bit: u32, routing: Routing, now: u64) -> (
        SelectGesture,
        Seq<Edge>,
        bool,
    ) {
        if !routing.guide_gesture {
            (self.gesture, Seq::empty(), false)
        } else if bit == BTN_BACK {
            self.gesture.select_down(now, self.held.len() == 0)
        } else {
            let (g, edges) = self.gesture.other_down();
            (g, edges, false)
        }
    }

    /// The chord a press makes, where one is listened for.
    pub open spec fn chord(self, bit: u32, routing: Routing) -> Option<SelectChord> {
        if routing.chords_live {
            chord_of(self.held, bit, self.gesture.as_guide)
        } else {
            None
        }
    }

    /// A button went down.
    pub open spec fn pressed(self, bit: u32, routing: Routing, now: u64) -> (SlotState, Seq<Act>) {
        let chord = self.chord(bit, routing);
        let raised = match chord {
            Some(chord) => seq![Act::Chord { pad: self.index, chord }],
            None => Seq::<Act>::empty(),
        };
        if routing.withholds(bit) {
            (self, Seq::empty())
        } else if chord == Some(SelectChord::Ring) {
            (
                SlotState {
                    gesture: self.gesture.swallow(),
                    swallow: Some(bit),
                    held: self.held.push(bit),
                    ..self
                },
                raised,
            )
        } else {
            let (g, edges, held_back) = self.gesture_press(bit, routing, now);
            let sent = if held_back {
                Seq::<Act>::empty()
            } else {
                seq![Act::Button { pad: self.index, bit, down: true }]
            };
            (
                SlotState { gesture: g, held: self.held.push(bit), ..self },
                raised + edge_acts(self.index, edges) + sent,
            )
        }
    }

    /// The gesture's share of a release: its new state, what it sends, whether it owned it.
    pub open spec fn gesture_release(self, bit: u32, routing: Routing, now: u64) -> (
        SelectGesture,
        Seq<Edge>,
        bool,
    ) {
        if routing.guide_gesture && bit == BTN_BACK {
            self.gesture.select_up(now)
        } else {
            (self.gesture, Seq::empty(), false)
        }
    }

    /// A button came up.
    pub open spec fn released(self, bit: u32, routing: Routing, now: u64) -> (SlotState, Seq<Act>) {
        if routing.withholds(bit) {
            (self, Seq::empty())
        } else if self.swallow == Some(bit) {
            (
                SlotState { held: without(self.held, bit), swallow: None, ..self },
                Seq::empty(),
            )
        } else {
            let (g, edges, owned) = self.gesture_release(bit, routing, now);
            let sent = if owned {
                Seq::<Act>::empty()
            } else {
                seq![Act::Button { pad: self.index, bit, down: false }]
            };
            (
                SlotState { gesture: g, held: without(self.held, bit), ..self },
                edge_acts(self.index, edges) + sent,
            )
        }
    }

    /// An axis reads `value`.
    pub open spec fn moved(self, axis: u32, value: i32) -> (SlotState, Seq<Act>) {
        if self.axes[axis as int] != value {
            (
                SlotState { axes: self.axes.update(axis as int, value), ..self },
                seq![Act::Axis { pad: self.index, axis, value }],
            )
        } else {
            (self, Seq::empty())
        }
    }

    /// The surface a touch lands on: 0 on a pad with one.
    pub open spec fn surface_of(self, touchpad: u8) -> u8 {
        if self.multi {
            (touchpad + 1) as u8
        } else {
            0
        }
    }

    /// Which of the two remembered surfaces a touch updates.
    pub open spec fn surface_index(touchpad: u8) -> int {
        if touchpad == 0 {
            0
        } else {
            1
        }
    }

    /// A finger moved, landed or left.
    pub open spec fn touched(self, touchpad: u8, finger: u8, at: Contact, active: bool) -> (
        SlotState,
        Seq<Act>,
    ) {
        let surface = self.surface_of(touchpad);
        let i = Self::surface_index(touchpad);
        let left = without(self.touches, (surface, finger));
        let touches = if active {
            left.push((surface, finger))
        } else {
            left
        };
        if self.multi {
            (
                SlotState {
                    surfaces: self.surfaces.update(
                        i,
                        Surface { x: at.sx, y: at.sy, touching: active },
                    ),
                    touches,
                    ..self
                },
                seq![
                    Act::TouchEx {
                        pad: self.index,
                        surface,
                        finger,
                        touch: active,
                        click: self.clicks[i],
                        x: at.sx,
                        y: at.sy,
                    },
                ],
            )
        } else {
            (
                SlotState { touches, ..self },
                seq![Act::Touch { pad: self.index, finger, active, ux: at.ux, uy: at.uy }],
            )
        }
    }

    /// A touch surface was clicked or let go. It carries no place, so the live contact's goes
    /// along.
    pub open spec fn clicked(self, surface: u8, down: bool) -> (SlotState, Seq<Act>) {
        let i = surface - 1;
        (
            SlotState { clicks: self.clicks.update(i, down), ..self },
            seq![
                Act::TouchEx {
                    pad: self.index,
                    surface,
                    finger: 0,
                    touch: self.surfaces[i].touching || down,
                    click: down,
                    x: self.surfaces[i].x,
                    y: self.surfaces[i].y,
                },
            ],
        )
    }

    /// A rotation reading; `reaches` is whether the host's controller has a gyro. The first that
    /// does not reach it is told.
    pub open spec fn rotated(self, gyro: Triple, reaches: bool) -> (SlotState, Seq<Act>) {
        if reaches {
            (
                SlotState { sent_motion: true, ..self },
                seq![Act::Motion { pad: self.index, gyro, accel: self.accel }],
            )
        } else {
            (
                SlotState { motion_told: true, ..self },
                if self.motion_told {
                    Seq::empty()
                } else {
                    seq![Act::MotionLost { pad: self.index }]
                },
            )
        }
    }

    /// Everything the host holds of this pad is lifted.
    pub open spec fn flushed(self) -> (SlotState, Seq<Act>) {
        (
            SlotState {
                gesture: SelectGesture::idle(),
                swallow: None,
                held: Seq::empty(),
                axes: Seq::new(6, |i: int| i32::MIN),
                clicks: Seq::new(2, |i: int| false),
                surfaces: Seq::new(2, |i: int| Surface { x: 0, y: 0, touching: false }),
                touches: Seq::empty(),
                sent_motion: false,
                ..self
            },
            edge_acts(self.index, self.gesture.flush_edges()) + lift_acts(self.index, self.held)
                + axis_lifts(self.index, self.axes, 6) + click_lift(
                self.index,
                self.clicks,
                self.surfaces,
                0,
            ) + click_lift(self.index, self.clicks, self.surfaces, 1) + touch_lifts(
                self.index,
                self.touches,
            ) + (if self.sent_motion {
                seq![
                    Act::Motion {
                        pad: self.index,
                        gyro: Triple { x: 0, y: 0, z: 0 },
                        accel: self.accel,
                    },
                ]
            } else {
                Seq::<Act>::empty()
            }),
        )
    }

    /// The overlay let go: buttons still down are taken over without a press; axes are sent
    /// again where a session is there to hear.
    pub open spec fn readopted(
        self,
        bits: Seq<u32>,
        axes: Seq<i32>,
        routing: Routing,
        attached: bool,
    ) -> (SlotState, Seq<Act>) {
        (
            SlotState {
                held: adopted(routing, bits),
                axes: if attached {
                    axes
                } else {
                    self.axes
                },
                ..self
            },
            if attached {
                axis_news(self.index, self.axes, axes, 6)
            } else {
                Seq::empty()
            },
        )
    }

    /// The gesture's clock moved on.
    pub open spec fn ticked(self, now: u64) -> (SlotState, Seq<Act>) {
        let (g, edges) = self.gesture.polled(now);
        (SlotState { gesture: g, ..self }, edge_acts(self.index, edges))
    }

    /// The gesture was switched on or off.
    pub open spec fn gesture_flushed(self) -> (SlotState, Seq<Act>) {
        (
            SlotState { gesture: SelectGesture::idle(), ..self },
            edge_acts(self.index, self.gesture.flush_edges()),
        )
    }
}

fn send_edges(pad: u8, edges: &Vec<Edge>, out: &mut Vec<Act>)
    ensures
        final(out)@ == old(out)@ + edge_acts(pad, edges@),
{
    let ghost start = out@;
    let mut i: usize = 0;
    assert(out@ =~= start + edge_acts(pad, edges@.take(0)));
    while i < edges.len()
        invariant
            i <= edges@.len(),
            out@ == start + edge_acts(pad, edges@.take(i as int)),
        decreases edges@.len() - i,
    {
        let e: Edge = edges[i];
        out.push(Act::Button { pad, bit: e.0, down: e.1 });
        assert(edge_acts(pad, edges@.take(i + 1)) =~= edge_acts(pad, edges@.take(i as int)).push(
            Act::Button { pad, bit: e.0, down: e.1 },
        ));
        assert(out@ =~= start + edge_acts(pad, edges@.take(i + 1)));
        i = i + 1;
    }
    assert(edges@.take(i as int) =~= edges@);
}

fn drop_bit(held: &Vec<u32>, bit: u32) -> (r: Vec<u32>)
    ensures
        r@ == without(held@, bit),
{
    let mut out: Vec<u32> = Vec::new();
    let mut i: usize = 0;
    assert(out@ =~= without(held@.take(0), bit));
    while i < held.len()
        invariant
            i <= held@.len(),
            out@ == without(held@.take(i as int), bit),
        decreases held@.len() - i,
    {
        assert(held@.take(i + 1).drop_last() =~= held@.take(i as int));
        if held[i] != bit {
            out.push(held[i]);
        }
        i = i + 1;
    }
    assert(held@.take(i as int) =~= held@);
    out
}

fn drop_touch(touches: &Vec<(u8, u8)>, surface: u8, finger: u8) -> (r: Vec<(u8, u8)>)
    ensures
        r@ == without(touches@, (surface, finger)),
{
    let mut out: Vec<(u8, u8)> = Vec::new();
    let mut i: usize = 0;
    assert(out@ =~= without(touches@.take(0), (surface, finger)));
    while i < touches.len()
        invariant
            i <= touches@.len(),
            out@ == without(touches@.take(i as int), (surface, finger)),
        decreases touches@.len() - i,
    {
        assert(touches@.take(i + 1).drop_last() =~= touches@.take(i as int));
        let t: (u8, u8) = touches[i];
        if t.0 != surface || t.1 != finger {
            out.push(t);
        }
        i = i + 1;
    }
    assert(touches@.take(i as int) =~= touches@);
    out
}

fn lift_buttons(pad: u8, held: &Vec<u32>, out: &mut Vec<Act>)
    ensures
        final(out)@ == old(out)@ + lift_acts(pad, held@),
{
    let ghost start = out@;
    let mut i: usize = 0;
    assert(out@ =~= start + lift_acts(pad, held@.take(0)));
    while i < held.len()
        invariant
            i <= held@.len(),
            out@ == start + lift_acts(pad, held@.take(i as int)),
        decreases held@.len() - i,
    {
        let b: u32 = held[i];
        out.push(Act::Button { pad, bit: b, down: false });
        assert(lift_acts(pad, held@.take(i + 1)) =~= lift_acts(pad, held@.take(i as int)).push(
            Act::Button { pad, bit: b, down: false },
        ));
        assert(out@ =~= start + lift_acts(pad, held@.take(i + 1)));
        i = i + 1;
    }
    assert(held@.take(i as int) =~= held@);
}

fn lift_axes(pad: u8, axes: &[i32; 6], out: &mut Vec<Act>)
    ensures
        final(out)@ == old(out)@ + axis_lifts(pad, axes@, 6),
{
    let ghost start = out@;
    let mut a: usize = 0;
    assert(out@ =~= start + axis_lifts(pad, axes@, 0));
    while a < 6
        invariant
            a <= 6,
            out@ == start + axis_lifts(pad, axes@, a as int),
        decreases 6 - a,
    {
        let v: i32 = axes[a];
        if v != 0 && v != i32::MIN {
            out.push(Act::Axis { pad, axis: a as u32, value: 0 });
        }
        assert(out@ =~= start + axis_lifts(pad, axes@, a + 1));
        a = a + 1;
    }
}

fn lift_click(pad: u8, held: bool, at: Surface, surface: u8, out: &mut Vec<Act>)
    ensures
        final(out)@ == old(out)@ + (if held {
            seq![
                Act::TouchEx {
                    pad,
                    surface,
                    finger: 0,
                    touch: false,
                    click: false,
                    x: at.x,
                    y: at.y,
                },
            ]
        } else {
            Seq::<Act>::empty()
        }),
{
    let ghost start = out@;
    if held {
        out.push(
            Act::TouchEx {
                pad,
                surface,
                finger: 0,
                touch: false,
                click: false,
                x: at.x,
                y: at.y,
            },
        );
    } else {
        assert(out@ =~= start + Seq::<Act>::empty());
    }
}

fn lift_touches(pad: u8, touches: &Vec<(u8, u8)>, out: &mut Vec<Act>)
    ensures
        final(out)@ == old(out)@ + touch_lifts(pad, touches@),
{
    let ghost start = out@;
    let mut t: usize = 0;
    assert(out@ =~= start + touch_lifts(pad, touches@.take(0)));
    while t < touches.len()
        invariant
            t <= touches@.len(),
            out@ == start + touch_lifts(pad, touches@.take(t as int)),
        decreases touches@.len() - t,
    {
        let (surface, finger) = touches[t];
        if surface == 0 {
            out.push(Act::Touch { pad, finger, active: false, ux: 0, uy: 0 });
        } else {
            out.push(
                Act::TouchEx { pad, surface, finger, touch: false, click: false, x: 0, y: 0 },
            );
        }
        assert(touch_lifts(pad, touches@.take(t + 1)) =~= touch_lifts(
            pad,
            touches@.take(t as int),
        ).push(touch_lift(pad, (surface, finger))));
        assert(out@ =~= start + touch_lifts(pad, touches@.take(t + 1)));
        t = t + 1;
    }
    assert(touches@.take(t as int) =~= touches@);
}

impl Slot {
    /// A slot for a pad just opened.
    pub fn new(
        id: u32,
        index: u8,
        pref: GamepadPref,
        declared: GamepadPref,
        multi: bool,
        audio_caps: u8,
        raw: bool,
    ) -> (s: Slot)
        ensures
            s@ == SlotState::fresh(id, index, pref, declared, multi, audio_caps, raw),
    {
        let s = Slot {
            id,
            index,
            pref,
            declared,
            multi,
            axes: [i32::MIN; 6],
            held: Vec::new(),
            touches: Vec::new(),
            swallow: None,
            surfaces: [Surface { x: 0, y: 0, touching: false }; 2],
            clicks: [false; 2],
            accel: Triple { x: 0, y: 0, z: 0 },
            sent_motion: false,
            motion_told: false,
            gesture: SelectGesture {
                pending_since: None,
                as_guide: false,
                release_due: None,
                swallowed: false,
            },
            audio_caps,
            rumble_told: false,
            coils_muted: false,
            raw,
            raw_rumble: false,
        };
        assert(s@ =~= SlotState::fresh(id, index, pref, declared, multi, audio_caps, raw));
        s
    }

    /// A button went down. A chord that opens the dial withholds the press; otherwise the
    /// gesture speaks first and may hold the press back.
    pub fn button_down(&mut self, bit: u32, routing: Routing, now: u64, out: &mut Vec<Act>)
        ensures
            ({
                let (s, acts) = old(self)@.pressed(bit, routing, now);
                &&& final(self)@ == s
                &&& final(out)@ == old(out)@ + acts
            }),
    {
        if routing.keeps_local(bit) {
            assert(out@ =~= old(out)@ + Seq::<Act>::empty());
            return;
        }
        let ghost start = out@;
        let ghost was = self@;
        let chord: Option<SelectChord> = self.raise_chord(bit, routing, out);
        let ring: bool = match chord {
            Some(SelectChord::Ring) => true,
            _ => false,
        };
        if ring {
            self.swallow_press(bit);
        } else {
            self.press_through(bit, routing, now, out);
        }
        assert(out@ =~= start + was.pressed(bit, routing, now).1);
    }

    /// Raise the chord a press makes, if it makes one.
    fn raise_chord(&self, bit: u32, routing: Routing, out: &mut Vec<Act>) -> (r: Option<
        SelectChord,
    >)
        ensures
            r == self@.chord(bit, routing),
            final(out)@ == old(out)@ + (match r {
                Some(chord) => seq![Act::Chord { pad: self@.index, chord }],
                None => Seq::<Act>::empty(),
            }),
    {
        let ghost start = out@;
        let chord: Option<SelectChord> = if routing.chords_live {
            select_chord(self.held.as_slice(), bit, self.gesture.as_guide)
        } else {
            None
        };
        match chord {
            Some(chord) => {
                out.push(Act::Chord { pad: self.index, chord });
            },
            None => {
                assert(out@ =~= start + Seq::<Act>::empty());
            },
        }
        chord
    }

    /// A press the dial's chord took: neither it nor its release goes out.
    fn swallow_press(&mut self, bit: u32)
        ensures
            final(self)@ == (SlotState {
                gesture: old(self)@.gesture.swallow(),
                swallow: Some(bit),
                held: old(self)@.held.push(bit),
                ..old(self)@
            }),
    {
        let ghost was = self@;
        let mut g = self.gesture;
        g.swallow_for_ring();
        self.gesture = g;
        self.swallow = Some(bit);
        self.held.push(bit);
        assert(self@ =~= (SlotState {
            gesture: was.gesture.swallow(),
            swallow: Some(bit),
            held: was.held.push(bit),
            ..was
        }));
    }

    /// A press that no chord took: the gesture speaks first and may hold it back.
    fn press_through(&mut self, bit: u32, routing: Routing, now: u64, out: &mut Vec<Act>)
        ensures
            ({
                let (g, edges, held_back) = old(self)@.gesture_press(bit, routing, now);
                let sent = if held_back {
                    Seq::<Act>::empty()
                } else {
                    seq![Act::Button { pad: old(self)@.index, bit, down: true }]
                };
                &&& final(self)@ == (SlotState {
                    gesture: g,
                    held: old(self)@.held.push(bit),
                    ..old(self)@
                })
                &&& final(out)@ == old(out)@ + edge_acts(old(self)@.index, edges) + sent
            }),
    {
        let ghost was = self@;
        let ghost start = out@;
        let mut due: Vec<Edge> = Vec::new();
        let mut held_back: bool = false;
        let mut g = self.gesture;
        if routing.guide_gesture {
            if bit == BTN_BACK {
                let alone: bool = self.held.is_empty();
                held_back = g.on_select_down(now, alone, &mut due);
            } else {
                g.on_other_down(&mut due);
            }
        }
        self.gesture = g;
        assert(due@ =~= was.gesture_press(bit, routing, now).1);
        send_edges(self.index, &due, out);
        self.held.push(bit);
        if !held_back {
            out.push(Act::Button { pad: self.index, bit, down: true });
        }
        assert(self@ =~= (SlotState { gesture: g, held: was.held.push(bit), ..was }));
    }

    /// A button came up.
    pub fn button_up(&mut self, bit: u32, routing: Routing, now: u64, out: &mut Vec<Act>)
        ensures
            ({
                let (s, acts) = old(self)@.released(bit, routing, now);
                &&& final(self)@ == s
                &&& final(out)@ == old(out)@ + acts
            }),
    {
        if routing.keeps_local(bit) {
            assert(out@ =~= old(out)@ + Seq::<Act>::empty());
            return;
        }
        let ghost start = out@;
        self.held = drop_bit(&self.held, bit);
        let taken: bool = match self.swallow {
            Some(b) => b == bit,
            None => false,
        };
        if taken {
            self.swallow = None;
            assert(self@ =~= old(self)@.released(bit, routing, now).0);
            assert(out@ =~= start + Seq::<Act>::empty());
            return;
        }
        let mut due: Vec<Edge> = Vec::new();
        let mut g = self.gesture;
        let owned: bool = routing.guide_gesture && bit == BTN_BACK && g.on_select_up(now, &mut due);
        self.gesture = g;
        assert(due@ =~= old(self)@.gesture_release(bit, routing, now).1);
        send_edges(self.index, &due, out);
        if !owned {
            out.push(Act::Button { pad: self.index, bit, down: false });
        }
        assert(self@ =~= old(self)@.released(bit, routing, now).0);
        assert(out@ =~= start + old(self)@.released(bit, routing, now).1);
    }

    /// An axis reads `value`: sent where it is news.
    pub fn axis(&mut self, axis: u32, value: i32, out: &mut Vec<Act>)
        requires
            axis < 6,
        ensures
            ({
                let (s, acts) = old(self)@.moved(axis, value);
                &&& final(self)@ == s
                &&& final(out)@ == old(out)@ + acts
            }),
    {
        let ghost start = out@;
        if self.axes[axis as usize] != value {
            self.axes[axis as usize] = value;
            out.push(Act::Axis { pad: self.index, axis, value });
        }
        assert(self@ =~= old(self)@.moved(axis, value).0);
        assert(out@ =~= start + old(self)@.moved(axis, value).1);
    }

    /// A finger moved, landed or left.
    pub fn touch(&mut self, touchpad: u8, finger: u8, at: Contact, active: bool, out: &mut Vec<Act>)
        requires
            touchpad < 255,
        ensures
            ({
                let (s, acts) = old(self)@.touched(touchpad, finger, at, active);
                &&& final(self)@ == s
                &&& final(out)@ == old(out)@ + acts
            }),
    {
        let ghost start = out@;
        let surface: u8 = if self.multi {
            touchpad + 1
        } else {
            0
        };
        if self.multi {
            let i: usize = if touchpad == 0 {
                0
            } else {
                1
            };
            self.surfaces[i] = Surface { x: at.sx, y: at.sy, touching: active };
            out.push(
                Act::TouchEx {
                    pad: self.index,
                    surface,
                    finger,
                    touch: active,
                    click: self.clicks[i],
                    x: at.sx,
                    y: at.sy,
                },
            );
        } else {
            out.push(Act::Touch { pad: self.index, finger, active, ux: at.ux, uy: at.uy });
        }
        self.touches = drop_touch(&self.touches, surface, finger);
        if active {
            self.touches.push((surface, finger));
        }
        assert(self@ =~= old(self)@.touched(touchpad, finger, at, active).0);
        assert(out@ =~= start + old(self)@.touched(touchpad, finger, at, active).1);
    }

    /// A touch surface was clicked or let go.
    pub fn click(&mut self, surface: u8, down: bool, out: &mut Vec<Act>)
        requires
            surface == 1 || surface == 2,
        ensures
            ({
                let (s, acts) = old(self)@.clicked(surface, down);
                &&& final(self)@ == s
                &&& final(out)@ == old(out)@ + acts
            }),
    {
        let ghost start = out@;
        let i: usize = surface as usize - 1;
        self.clicks[i] = down;
        let at: Surface = self.surfaces[i];
        out.push(
            Act::TouchEx {
                pad: self.index,
                surface,
                finger: 0,
                touch: at.touching || down,
                click: down,
                x: at.x,
                y: at.y,
            },
        );
        assert(self@ =~= old(self)@.clicked(surface, down).0);
        assert(out@ =~= start + old(self)@.clicked(surface, down).1);
    }

    /// An acceleration reading, kept to ride with the next rotation.
    pub fn accelerate(&mut self, accel: Triple)
        ensures
            final(self)@ == (SlotState { accel, ..old(self)@ }),
    {
        self.accel = accel;
        assert(self@ =~= (SlotState { accel, ..old(self)@ }));
    }

    /// A rotation reading; `reaches` is whether the host's controller has a gyro.
    pub fn rotate(&mut self, gyro: Triple, reaches: bool, out: &mut Vec<Act>)
        ensures
            ({
                let (s, acts) = old(self)@.rotated(gyro, reaches);
                &&& final(self)@ == s
                &&& final(out)@ == old(out)@ + acts
            }),
    {
        let ghost start = out@;
        if reaches {
            self.sent_motion = true;
            out.push(Act::Motion { pad: self.index, gyro, accel: self.accel });
        } else if !self.motion_told {
            self.motion_told = true;
            out.push(Act::MotionLost { pad: self.index });
        }
        assert(self@ =~= old(self)@.rotated(gyro, reaches).0);
        assert(out@ =~= start + old(self)@.rotated(gyro, reaches).1);
    }

    /// The gesture's clock moved on.
    pub fn tick(&mut self, now: u64, out: &mut Vec<Act>)
        ensures
            ({
                let (s, acts) = old(self)@.ticked(now);
                &&& final(self)@ == s
                &&& final(out)@ == old(out)@ + acts
            }),
    {
        let mut due: Vec<Edge> = Vec::new();
        let mut g = self.gesture;
        g.poll(now, &mut due);
        self.gesture = g;
        assert(due@ =~= old(self)@.gesture.polled(now).1);
        send_edges(self.index, &due, out);
        assert(self@ =~= old(self)@.ticked(now).0);
    }

    /// The gesture was switched on or off: what it had down is lifted.
    pub fn flush_gesture(&mut self, out: &mut Vec<Act>)
        ensures
            ({
                let (s, acts) = old(self)@.gesture_flushed();
                &&& final(self)@ == s
                &&& final(out)@ == old(out)@ + acts
            }),
    {
        let mut due: Vec<Edge> = Vec::new();
        let mut g = self.gesture;
        g.flush(&mut due);
        self.gesture = g;
        assert(due@ =~= old(self)@.gesture.flush_edges());
        send_edges(self.index, &due, out);
        assert(self@ =~= old(self)@.gesture_flushed().0);
    }

    /// Lift everything the host holds of this pad. Safe against a pad already gone.
    pub fn flush(&mut self, out: &mut Vec<Act>)
        ensures
            ({
                let (s, acts) = old(self)@.flushed();
                &&& final(self)@ == s
                &&& final(out)@ == old(out)@ + acts
            }),
    {
        let ghost start = out@;
        let ghost was = self@;
        self.flush_gesture(out);
        let ghost one = out@;
        lift_buttons(self.index, &self.held, out);
        let ghost two = out@;
        lift_axes(self.index, &self.axes, out);
        let ghost three = out@;
        lift_click(self.index, self.clicks[0], self.surfaces[0], 1, out);
        let ghost four = out@;
        lift_click(self.index, self.clicks[1], self.surfaces[1], 2, out);
        let ghost five = out@;
        lift_touches(self.index, &self.touches, out);
        let ghost six = out@;
        if self.sent_motion {
            out.push(
                Act::Motion {
                    pad: self.index,
                    gyro: Triple { x: 0, y: 0, z: 0 },
                    accel: self.accel,
                },
            );
        }
        assert(out@ =~= start + was.flushed().1);
        self.swallow = None;
        self.held = Vec::new();
        self.axes = [i32::MIN; 6];
        self.clicks = [false; 2];
        self.surfaces = [Surface { x: 0, y: 0, touching: false }; 2];
        self.touches = Vec::new();
        self.sent_motion = false;
        assert(self@ =~= was.flushed().0);
    }

    /// The overlay let go of the pad. `bits` are the buttons physically down, `axes` the wire
    /// values read off the pad.
    pub fn readopt(
        &mut self,
        bits: &Vec<u32>,
        axes: [i32; 6],
        routing: Routing,
        attached: bool,
        out: &mut Vec<Act>,
    )
        ensures
            ({
                let (s, acts) = old(self)@.readopted(bits@, axes@, routing, attached);
                &&& final(self)@ == s
                &&& final(out)@ == old(out)@ + acts
            }),
    {
        let ghost start = out@;
        let ghost was = self@;
        let mut held: Vec<u32> = Vec::new();
        let mut i: usize = 0;
        assert(held@ =~= adopted(routing, bits@.take(0)));
        while i < bits.len()
            invariant
                i <= bits@.len(),
                held@ == adopted(routing, bits@.take(i as int)),
            decreases bits@.len() - i,
        {
            assert(bits@.take(i + 1).drop_last() =~= bits@.take(i as int));
            if !routing.keeps_local(bits[i]) {
                held.push(bits[i]);
            }
            i = i + 1;
        }
        assert(bits@.take(i as int) =~= bits@);
        self.held = held;
        if attached {
            let mut a: usize = 0;
            while a < 6
                invariant
                    a <= 6,
                    axes@.len() == 6,
                    was.axes.len() == 6,
                    self.axes@ == was.axes,
                    self.index == was.index,
                    out@ == start + axis_news(was.index, was.axes, axes@, a as int),
                decreases 6 - a,
            {
                if self.axes[a] != axes[a] {
                    out.push(Act::Axis { pad: self.index, axis: a as u32, value: axes[a] });
                }
                assert(out@ =~= start + axis_news(was.index, was.axes, axes@, a + 1));
                a = a + 1;
            }
            self.axes = axes;
        }
        assert(self@ =~= was.readopted(bits@, axes@, routing, attached).0);
        assert(out@ =~= start + was.readopted(bits@, axes@, routing, attached).1);
    }
}

} // verus!
