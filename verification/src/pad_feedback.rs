//! What the host sends back to a controller: rumble, lights, triggers and raw reports.

use vstd::prelude::*;
use crate::ds5::{
    audio_ctl_bytes, lightbar_bytes, lit, mic_led_bytes, packet, player_bytes,
    player_index_from_bits, trigger_bytes, Ds5Feedback,
};
use crate::pad_slot::{GamepadPref, Slot, SlotState};

verus! {

/// A report the host sends to a pad.
#[derive(Debug)]
#[allow(inconsistent_fields)]
pub enum HidOutput {
    Led { pad: u8, r: u8, g: u8, b: u8 },
    PlayerLeds { pad: u8, bits: u8 },
    Trigger { pad: u8, which: u8, effect: Vec<u8> },
    TrackpadHaptic { pad: u8, side: u8, amplitude: u16, period: u16, count: u16 },
    HidRaw { pad: u8, kind: u8, data: Vec<u8> },
    MicLed { pad: u8, mode: u8 },
    /// The one report with a wide index; decoding refuses one that is out of range.
    AudioCtl { pad: u16, flags: u8, raw: [u8; 6] },
}

/// The index a report is for.
pub open spec fn pad_of(h: HidOutput) -> u8 {
    match h {
        HidOutput::Led { pad, .. } => pad,
        HidOutput::PlayerLeds { pad, .. } => pad,
        HidOutput::Trigger { pad, .. } => pad,
        HidOutput::TrackpadHaptic { pad, .. } => pad,
        HidOutput::HidRaw { pad, .. } => pad,
        HidOutput::MicLed { pad, .. } => pad,
        HidOutput::AudioCtl { pad, .. } => pad as u8,
    }
}

/// The index a report is for.
pub fn hidout_pad(h: &HidOutput) -> (r: u8)
    ensures
        r == pad_of(*h),
{
    match h {
        HidOutput::Led { pad, .. } => *pad,
        HidOutput::PlayerLeds { pad, .. } => *pad,
        HidOutput::Trigger { pad, .. } => *pad,
        HidOutput::TrackpadHaptic { pad, .. } => *pad,
        HidOutput::HidRaw { pad, .. } => *pad,
        HidOutput::MicLed { pad, .. } => *pad,
        HidOutput::AudioCtl { pad, .. } => *pad as u8,
    }
}

/// Something done to an open device, as values.
pub enum EffectState {
    Packet { bytes: Seq<u8> },
    Led { r: u8, g: u8, b: u8 },
    Player { index: Option<u16> },
    Rumble { low: u16, high: u16, ms: u32 },
    Raw { kind: u8, data: Seq<u8> },
}

/// Something done to an open device.
#[derive(Debug, PartialEq, Eq)]
pub enum Effect {
    /// A DualSense effects packet.
    Packet { bytes: [u8; 47] },
    /// The light of any other pad.
    Led { r: u8, g: u8, b: u8 },
    /// The player index of any other pad; `None` is no player.
    Player { index: Option<u16> },
    Rumble { low: u16, high: u16, ms: u32 },
    /// A report passed through unchanged.
    Raw { kind: u8, data: Vec<u8> },
}

impl View for Effect {
    type V = EffectState;

    open spec fn view(&self) -> EffectState {
        match *self {
            Effect::Packet { bytes } => EffectState::Packet { bytes: bytes@ },
            Effect::Led { r, g, b } => EffectState::Led { r, g, b },
            Effect::Player { index } => EffectState::Player { index },
            Effect::Rumble { low, high, ms } => EffectState::Rumble { low, high, ms },
            Effect::Raw { kind, data } => EffectState::Raw { kind, data: data@ },
        }
    }
}

/// The views of a list of effects.
pub open spec fn effects_of(effects: Seq<Effect>) -> Seq<EffectState> {
    effects.map_values(|e: Effect| e@)
}

/// Whether a pad takes DualSense packets.
pub open spec fn takes_packets(pref: GamepadPref) -> bool {
    pref == GamepadPref::DualSense || pref == GamepadPref::DualSenseEdge
}

fn is_ds5(pref: GamepadPref) -> (r: bool)
    ensures
        r == takes_packets(pref),
{
    match pref {
        GamepadPref::DualSense => true,
        GamepadPref::DualSenseEdge => true,
        _ => false,
    }
}

/// The player a light pattern stands for.
pub open spec fn player_of(bits: u8) -> Option<u16> {
    if lit(bits) == 0 {
        None
    } else {
        Some((lit(bits) - 1) as u16)
    }
}

/// How long a rumble runs: a stop needs no more than a moment, anything else runs to its
/// backstop.
pub open spec fn rumble_ms(low: u16, high: u16, backstop_ms: u32) -> u32 {
    if low == 0 && high == 0 {
        100
    } else {
        backstop_ms
    }
}

impl SlotState {
    /// Whether haptics resumed after a rumble muted the coils.
    pub open spec fn coils_owed(self, haptics_live: bool) -> bool {
        self.coils_muted && haptics_live
    }

    /// Whether this pad renders haptics audio.
    pub open spec fn renders_haptics(self) -> bool {
        self.audio_caps & 0x01 != 0
    }

    /// A rumble command: skipped where the host drives the motors raw or haptics audio is
    /// arriving, rendered otherwise.
    pub open spec fn rumbled(self, low: u16, high: u16, backstop_ms: u32, haptics_live: bool) -> (
        SlotState,
        Option<EffectState>,
    ) {
        if self.raw_rumble {
            (self, None)
        } else if self.renders_haptics() && haptics_live {
            (SlotState { rumble_told: true, ..self }, None)
        } else {
            (
                SlotState { coils_muted: self.coils_muted || self.renders_haptics(), ..self },
                Some(EffectState::Rumble { low, high, ms: rumble_ms(low, high, backstop_ms) }),
            )
        }
    }

    /// A report of the host.
    pub open spec fn told(self, h: HidOutput) -> (SlotState, Seq<EffectState>) {
        let ds = takes_packets(self.pref);
        match h {
            HidOutput::Led { r, g, b, .. } => (
                self,
                seq![
                    if ds {
                        EffectState::Packet { bytes: lightbar_bytes(r, g, b) }
                    } else {
                        EffectState::Led { r, g, b }
                    },
                ],
            ),
            HidOutput::PlayerLeds { bits, .. } => (
                self,
                seq![
                    if ds {
                        EffectState::Packet { bytes: player_bytes(bits) }
                    } else {
                        EffectState::Player { index: player_of(bits) }
                    },
                ],
            ),
            HidOutput::MicLed { mode, .. } => (
                self,
                if ds {
                    seq![EffectState::Packet { bytes: mic_led_bytes(mode) }]
                } else {
                    Seq::empty()
                },
            ),
            HidOutput::Trigger { which, effect, .. } => (
                self,
                if ds {
                    seq![EffectState::Packet { bytes: trigger_bytes(which, effect@) }]
                } else {
                    Seq::empty()
                },
            ),
            HidOutput::AudioCtl { flags, raw, .. } => (
                self,
                if ds && self.audio_caps != 0 {
                    seq![EffectState::Packet { bytes: audio_ctl_bytes(flags, raw@) }]
                } else {
                    Seq::empty()
                },
            ),
            HidOutput::HidRaw { kind, data, .. } => if !self.raw {
                (self, Seq::empty())
            } else {
                (
                    SlotState { raw_rumble: true, ..self },
                    (if self.raw_rumble {
                        Seq::<EffectState>::empty()
                    } else {
                        seq![EffectState::Rumble { low: 0, high: 0, ms: 100 }]
                    }).push(EffectState::Raw { kind, data: data@ }),
                )
            },
            HidOutput::TrackpadHaptic { .. } => (self, Seq::empty()),
        }
    }

    /// What puts the physical pad to rest: triggers released, lights dark.
    pub open spec fn rest(self) -> Seq<EffectState> {
        let off = EffectState::Rumble { low: 0, high: 0, ms: 100 };
        if takes_packets(self.pref) {
            seq![
                off,
                EffectState::Packet { bytes: trigger_bytes(0, Seq::new(11, |i: int| 0u8)) },
                EffectState::Packet { bytes: trigger_bytes(1, Seq::new(11, |i: int| 0u8)) },
                EffectState::Packet { bytes: lightbar_bytes(0, 0, 0) },
                EffectState::Packet { bytes: player_bytes(0) },
            ]
        } else {
            seq![off, EffectState::Led { r: 0, g: 0, b: 0 }]
        }
    }
}

impl Slot {
    /// Haptics resumed after a rumble muted the coils: arm them again, once.
    pub fn rearm_coils(&mut self, haptics_live: bool) -> (r: Option<Effect>)
        ensures
            match r {
                Some(e) => old(self)@.coils_owed(haptics_live) && e@ == (EffectState::Packet {
                    bytes: packet(|i: int| 0u8),
                }) && final(self)@ == (SlotState { coils_muted: false, ..old(self)@ }),
                None => !old(self)@.coils_owed(haptics_live) && final(self)@ == old(self)@,
            },
    {
        if self.coils_muted && haptics_live {
            self.coils_muted = false;
            assert(self@ =~= (SlotState { coils_muted: false, ..old(self)@ }));
            return Some(Effect::Packet { bytes: Ds5Feedback::audio_haptics_packet() });
        }
        None
    }

    /// A rumble command. The pad's coils go to whichever of rumble and haptics audio is
    /// arriving.
    pub fn rumble(&mut self, low: u16, high: u16, backstop_ms: u32, haptics_live: bool) -> (r:
        Option<Effect>)
        ensures
            ({
                let (s, effect) = old(self)@.rumbled(low, high, backstop_ms, haptics_live);
                &&& final(self)@ == s
                &&& (match r {
                    Some(e) => effect == Some(e@),
                    None => effect is None,
                })
            }),
    {
        let ghost was = self@;
        if self.raw_rumble {
            return None;
        }
        let haptics: bool = self.audio_caps & 0x01 != 0;
        if haptics && haptics_live {
            self.rumble_told = true;
            assert(self@ =~= (SlotState { rumble_told: true, ..was }));
            return None;
        }
        self.coils_muted = self.coils_muted || haptics;
        let ms: u32 = if low == 0 && high == 0 {
            100
        } else {
            backstop_ms
        };
        assert(self@ =~= was.rumbled(low, high, backstop_ms, haptics_live).0);
        Some(Effect::Rumble { low, high, ms })
    }

    /// A report of the host, as what it does to the pad in hand. A pad without the part it
    /// speaks of ignores it.
    pub fn hidout(&mut self, h: HidOutput) -> (r: Vec<Effect>)
        ensures
            ({
                let (s, effects) = old(self)@.told(h);
                &&& final(self)@ == s
                &&& effects_of(r@) == effects
            }),
    {
        let ghost was = self@;
        let ds: bool = is_ds5(self.pref);
        let mut out: Vec<Effect> = Vec::new();
        match h {
            HidOutput::Led { r, g, b, .. } => {
                if ds {
                    out.push(Effect::Packet { bytes: Ds5Feedback::lightbar_packet(r, g, b) });
                } else {
                    out.push(Effect::Led { r, g, b });
                }
            },
            HidOutput::PlayerLeds { bits, .. } => {
                if ds {
                    out.push(Effect::Packet { bytes: Ds5Feedback::player_packet(bits) });
                } else {
                    out.push(Effect::Player { index: player_index_from_bits(bits) });
                }
            },
            HidOutput::MicLed { mode, .. } => {
                if ds {
                    out.push(Effect::Packet { bytes: Ds5Feedback::mic_led_packet(mode) });
                }
            },
            HidOutput::Trigger { which, effect, .. } => {
                if ds {
                    out.push(
                        Effect::Packet {
                            bytes: Ds5Feedback::trigger_packet(which, effect.as_slice()),
                        },
                    );
                }
            },
            HidOutput::AudioCtl { flags, raw, .. } => {
                if ds && self.audio_caps != 0 {
                    out.push(Effect::Packet { bytes: Ds5Feedback::audio_ctl_packet(flags, &raw) });
                }
            },
            HidOutput::HidRaw { kind, data, .. } => {
                if self.raw {
                    if !self.raw_rumble {
                        self.raw_rumble = true;
                        out.push(Effect::Rumble { low: 0, high: 0, ms: 100 });
                    }
                    out.push(Effect::Raw { kind, data });
                }
            },
            HidOutput::TrackpadHaptic { .. } => {},
        }
        assert(self@ =~= was.told(h).0);
        assert(effects_of(out@) =~= was.told(h).1);
        out
    }

    /// What puts the physical pad to rest before its handle closes. Triggers and lights are
    /// latched in the pad and would outlive the stream.
    pub fn rest_effects(&self) -> (r: Vec<Effect>)
        ensures
            effects_of(r@) == self@.rest(),
    {
        let mut out: Vec<Effect> = Vec::new();
        out.push(Effect::Rumble { low: 0, high: 0, ms: 100 });
        if is_ds5(self.pref) {
            let none: [u8; 11] = [0u8; 11];
            assert(none@ =~= Seq::new(11, |i: int| 0u8));
            out.push(Effect::Packet { bytes: Ds5Feedback::trigger_packet(0, none.as_slice()) });
            out.push(Effect::Packet { bytes: Ds5Feedback::trigger_packet(1, none.as_slice()) });
            out.push(Effect::Packet { bytes: Ds5Feedback::lightbar_packet(0, 0, 0) });
            out.push(Effect::Packet { bytes: Ds5Feedback::player_packet(0) });
        } else {
            out.push(Effect::Led { r: 0, g: 0, b: 0 });
        }
        assert(effects_of(out@) =~= self@.rest());
        out
    }
}

/// While haptics audio is arriving at a pad that renders it, no rumble reaches the pad; once
/// it stops, the next one does.
pub proof fn rumble_yields_to_haptics(s: SlotState, low: u16, high: u16, ms: u32)
    requires
        s.renders_haptics(),
        !s.raw_rumble,
    ensures
        s.rumbled(low, high, ms, true).1 is None,
        s.rumbled(low, high, ms, false).1 is Some,
        s.rumbled(low, high, ms, false).0.coils_owed(true),
{
}

/// Once the host drives the motors raw, no rumble command does.
pub proof fn raw_writes_own_the_motors(
    s: SlotState,
    h: HidOutput,
    low: u16,
    high: u16,
    ms: u32,
    live: bool,
)
    requires
        h is HidRaw,
        s.raw,
    ensures
        s.told(h).0.rumbled(low, high, ms, live).1 is None,
{
}

} // verus!
