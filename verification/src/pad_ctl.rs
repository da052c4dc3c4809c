//! The worker's two inlets: what the client tells it, and what the devices report.

use vstd::prelude::*;
use crate::pad_control::{pulse_shape, Held, MenuPulse, Worker, WorkerState};
use crate::pad_slot::{Act, GamepadPref, Routing};
use crate::pad_worker::{Pad, PadInput};
use crate::text::opt_view;

verus! {

/// What the client tells the worker.
pub enum Ctl {
    /// A session runs.
    Attach,
    /// The session ended.
    Detach,
    /// Forward one pad only, by its key; none is automatic.
    Pin(Option<String>),
    /// The kind every pad is told to the host as.
    KindOverride(GamepadPref),
    /// Something listens for Select chords.
    ChordsLive(bool),
    SystemButtons { forward_raw: bool, gesture: bool },
    /// Tap this button for the user.
    TapButton(u32),
    /// An overlay took the input.
    Mask,
    /// The overlay let it go, with each slot's pad holding this.
    Unmask(Vec<Held>),
    Forwarding(bool),
    PadAudioPrefs(u8),
    MenuMode(bool),
    /// The dial opened or closed.
    RingNav(bool),
    MenuRumble(MenuPulse),
}

/// What the devices report.
pub enum PadEvent {
    Added(Pad),
    Removed(u32),
    Input { id: u32, input: PadInput },
}

impl WorkerState {
    /// State and acts for a message.
    pub open spec fn told(self, ctl: Ctl, now: u64) -> (WorkerState, Seq<Act>) {
        match ctl {
            Ctl::Attach => self.attach(),
            Ctl::Detach => self.detach(),
            Ctl::Pin(key) => (WorkerState { pinned: opt_view(key), ..self }).refreshed(),
            Ctl::KindOverride(pref) => (
                WorkerState { kind_override: pref, ..self },
                Seq::empty(),
            ),
            Ctl::ChordsLive(on) => (
                WorkerState { routing: Routing { chords_live: on, ..self.routing }, ..self },
                Seq::empty(),
            ),
            Ctl::SystemButtons { forward_raw, gesture } => self.system_buttons(
                forward_raw,
                gesture,
            ),
            Ctl::TapButton(bit) => self.tap(bit, now),
            Ctl::Mask => self.mask(),
            Ctl::Unmask(held) => self.unmask(held@),
            Ctl::Forwarding(on) => self.forward(on),
            Ctl::PadAudioPrefs(bits) => (
                WorkerState { audio_prefs: bits & 0x03, ..self },
                Seq::empty(),
            ),
            Ctl::MenuMode(on) => self.menu(on),
            Ctl::RingNav(on) => (
                WorkerState { ring_nav: on, ..self },
                seq![Act::MenuReset],
            ),
            Ctl::MenuRumble(pulse) => (
                self,
                match self.pulsed() {
                    Some(id) => seq![
                        Act::Pulse {
                            id,
                            low: pulse_shape(pulse).0,
                            high: pulse_shape(pulse).1,
                            ms: pulse_shape(pulse).2,
                        },
                    ],
                    None => Seq::empty(),
                },
            ),
        }
    }

    /// State and acts for a device's report.
    pub open spec fn reported(self, event: PadEvent, now: u64) -> (WorkerState, Seq<Act>) {
        match event {
            PadEvent::Added(pad) => self.added(pad@),
            PadEvent::Removed(id) => self.removed(id),
            PadEvent::Input { id, input } => self.input(id, input, now),
        }
    }

    /// A session has slots and no menu pads; without one it is the other way round.
    pub open spec fn exclusive(self) -> bool {
        &&& self.attached ==> self.menu_open.len() == 0
        &&& !self.attached ==> self.slots.len() == 0
    }
}

impl Worker {
    /// The client told the worker something.
    #[verifier::spinoff_prover]
    #[verifier::rlimit(40)]
    pub fn on_ctl(&mut self, ctl: Ctl, now: u64, out: &mut Vec<Act>)
        requires
            old(self).wf(),
            ctl matches Ctl::Unmask(held) ==> held@.len() == old(self).slots@.len(),
        ensures
            final(self).wf(),
            ({
                let (w, acts) = old(self)@.told(ctl, now);
                &&& final(self)@ == w
                &&& final(out)@ == old(out)@ + acts
            }),
    {
        match ctl {
            Ctl::Attach => self.attach(out),
            Ctl::Detach => self.detach(out),
            Ctl::Pin(key) => self.pin(key, out),
            Ctl::SystemButtons { forward_raw, gesture } => self.system_buttons(
                forward_raw,
                gesture,
                out,
            ),
            Ctl::TapButton(bit) => self.tap_button(bit, now, out),
            Ctl::Mask => self.mask(out),
            Ctl::Unmask(held) => self.unmask(&held, out),
            Ctl::Forwarding(on) => self.set_forwarding(on, out),
            Ctl::MenuMode(on) => self.set_menu(on, out),
            Ctl::KindOverride(pref) => {
                self.set_kind(pref);
                assert(out@ =~= out@ + Seq::<Act>::empty());
            },
            Ctl::ChordsLive(on) => {
                self.set_chords(on);
                assert(out@ =~= out@ + Seq::<Act>::empty());
            },
            Ctl::PadAudioPrefs(bits) => {
                self.set_audio_prefs(bits);
                assert(out@ =~= out@ + Seq::<Act>::empty());
            },
            Ctl::RingNav(on) => {
                let ghost start = out@;
                self.set_ring(on, out);
                assert(out@ =~= start + seq![Act::MenuReset]);
            },
            Ctl::MenuRumble(pulse) => {
                let ghost start = out@;
                self.menu_rumble(pulse, out);
                assert(out@ =~= start + self@.told(ctl, now).1);
            },
        }
    }

    /// A device reported something.
    pub fn handle_event(&mut self, event: PadEvent, now: u64, out: &mut Vec<Act>)
        requires
            old(self).wf(),
            event matches PadEvent::Input { input: PadInput::Touch { touchpad, .. }, .. }
                ==> touchpad < 255,
        ensures
            final(self).wf(),
            ({
                let (w, acts) = old(self)@.reported(event, now);
                &&& final(self)@ == w
                &&& final(out)@ == old(out)@ + acts
            }),
    {
        match event {
            PadEvent::Added(pad) => self.device_added(pad, out),
            PadEvent::Removed(id) => self.device_removed(id, out),
            PadEvent::Input { id, input } => self.handle_input(id, input, now, out),
        }
    }
}

/// Slots and menu pads are never open together: whatever the client says, a session leaves
/// no menu pad open and its end leaves no slot.
pub proof fn a_session_and_the_menu_exclude_each_other(w: WorkerState, ctl: Ctl, now: u64)
    requires
        w.exclusive(),
    ensures
        w.told(ctl, now).0.exclusive(),
{
}

/// The same of whatever the devices report.
pub proof fn a_report_keeps_them_apart(w: WorkerState, event: PadEvent, now: u64)
    requires
        w.exclusive(),
    ensures
        w.reported(event, now).0.exclusive(),
{
}

} // verus!
