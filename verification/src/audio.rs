//! The audio plane of a session: which decoder and device it opens, and what the pull loop
//! does with each packet and each silence.

use vstd::prelude::*;
use crate::wire::{AUDIO_CODEC_OPUS, AUDIO_CODEC_PCM, OPUS_FRAME_US, SAMPLE_RATE_HZ};

verus! {

/// What the host resolved.
#[derive(Debug, Clone, Copy, PartialEq, Eq, Structural)]
pub struct AudioWelcome {
    pub codec: u8,
    pub channels: u8,
    pub rate_hz: u32,
    pub bits: u8,
    pub frame_us: u16,
    /// The speaker layout is one this client decodes.
    pub layout_known: bool,
}

/// What the audio plane opens.
#[derive(Debug, Clone, Copy, PartialEq, Eq, Structural)]
pub struct AudioPlan {
    pub lossless: bool,
    pub channels: u8,
    pub rate_hz: u32,
    pub frame_us: u32,
    /// Interleaved samples per millisecond.
    pub per_ms: u64,
    /// Interleaved samples the decoder may write at once.
    pub scratch: u64,
    /// One frame, rounded up to whole milliseconds.
    pub frame_ms: u64,
}

/// The larger of two.
pub open spec fn at_least(a: int, b: int) -> int {
    if a < b {
        b
    } else {
        a
    }
}

/// Interleaved samples of one frame.
pub open spec fn samples(rate_hz: u32, frame_us: u32, channels: u8) -> int {
    (rate_hz * frame_us / 1_000_000) * channels
}

/// What the audio plane opens, for a plane this client decodes.
pub open spec fn opened(w: AudioWelcome) -> AudioPlan {
    let lossless = w.codec == AUDIO_CODEC_PCM;
    let rate_hz = if w.rate_hz == 0 {
        SAMPLE_RATE_HZ
    } else {
        w.rate_hz
    };
    let frame_us = if lossless {
        at_least(w.frame_us as int, 1_000) as u32
    } else {
        OPUS_FRAME_US
    };
    let per_ms = at_least(rate_hz as int / 1000, 1) * at_least(w.channels as int, 1);
    AudioPlan {
        lossless,
        channels: w.channels,
        rate_hz,
        frame_us,
        per_ms: per_ms as u64,
        scratch: (if lossless {
            samples(rate_hz, frame_us, w.channels)
        } else {
            120 * per_ms
        }) as u64,
        frame_ms: ((frame_us + 999) / 1000) as u64,
    }
}

/// Whether this client decodes a plane: a codec it speaks, and a layout it knows. Anything
/// else plays as noise or on the wrong speakers.
pub open spec fn decodes(w: AudioWelcome) -> bool {
    (w.codec == AUDIO_CODEC_OPUS || w.codec == AUDIO_CODEC_PCM) && w.layout_known
}

/// What the audio plane opens, from what the host resolved and never from what was asked.
/// A plane this client cannot decode is left out: the session streams video alone.
pub fn audio_plan(w: &AudioWelcome) -> (r: Option<AudioPlan>)
    ensures
        r == (if decodes(*w) {
            Some(opened(*w))
        } else {
            None
        }),
        r is Some <==> (w.codec == 0 || w.codec == 1) && w.layout_known,
        r is Some ==> ({
            let p = r->Some_0;
            &&& p.lossless == (w.codec == 1)
            &&& p.channels == w.channels
            &&& w.rate_hz == 0 ==> p.rate_hz == 48_000
            &&& w.rate_hz != 0 ==> p.rate_hz == w.rate_hz
            &&& w.codec == 0 ==> p.frame_us == 5_000
            &&& w.codec == 1 && w.frame_us >= 1_000 ==> p.frame_us == w.frame_us
            &&& w.codec == 1 && w.frame_us < 1_000 ==> p.frame_us == 1_000
            &&& p.rate_hz >= 1000 && w.channels >= 1 ==> p.per_ms == (p.rate_hz / 1000) * w.channels
            &&& p.rate_hz >= 1000 && w.channels == 0 ==> p.per_ms == p.rate_hz / 1000
            &&& p.rate_hz < 1000 && w.channels >= 1 ==> p.per_ms == w.channels
            &&& w.codec == 1 ==> p.scratch == (p.rate_hz * p.frame_us / 1_000_000) * w.channels
            &&& w.codec == 0 ==> p.scratch == 120 * p.per_ms
            &&& 1000 * p.frame_ms - 1000 < p.frame_us <= 1000 * p.frame_ms
        }),
{
    if w.codec != AUDIO_CODEC_OPUS && w.codec != AUDIO_CODEC_PCM {
        return None;
    }
    if !w.layout_known {
        return None;
    }
    let lossless: bool = w.codec == AUDIO_CODEC_PCM;
    let rate_hz: u32 = if w.rate_hz == 0 {
        SAMPLE_RATE_HZ
    } else {
        w.rate_hz
    };
    let frame_us: u32 = if !lossless {
        OPUS_FRAME_US
    } else if w.frame_us < 1_000 {
        1_000
    } else {
        w.frame_us as u32
    };
    let khz: u64 = if rate_hz < 1000 {
        1
    } else {
        (rate_hz / 1000) as u64
    };
    let ch: u64 = if w.channels == 0 {
        1
    } else {
        w.channels as u64
    };
    assert(khz * ch <= 4_294_968 * 255) by (nonlinear_arith)
        requires
            khz <= 4_294_968,
            ch <= 255,
    ;
    let per_ms: u64 = khz * ch;
    assert(rate_hz * frame_us <= 0xffff_ffff * 65_535) by (nonlinear_arith)
        requires
            rate_hz <= 0xffff_ffff,
            frame_us <= 65_535,
    ;
    let per_channel: u64 = (rate_hz as u64 * frame_us as u64) / 1_000_000;
    let channels: u64 = w.channels as u64;
    assert(per_channel * channels <= 281_474_976 * 255) by (nonlinear_arith)
        requires
            per_channel <= 281_474_976,
            channels <= 255,
    ;
    let interleaved: u64 = per_channel * channels;
    let scratch: u64 = if lossless {
        interleaved
    } else {
        120 * per_ms
    };
    let frame_ms: u64 = (frame_us as u64 + 999) / 1000;
    Some(
        AudioPlan {
            lossless,
            channels: w.channels,
            rate_hz,
            frame_us,
            per_ms,
            scratch,
            frame_ms,
        },
    )
}

/// What decodes the plane.
#[derive(Debug, Clone, Copy, PartialEq, Eq, Structural)]
pub enum AudioKind {
    /// No codec; samples of this depth.
    Pcm { bits: u8 },
    Stereo,
    /// Several coupled streams.
    Surround,
}

/// What decodes the plane the host resolved.
pub fn audio_kind(w: &AudioWelcome) -> (r: AudioKind)
    ensures
        r == (if w.codec == AUDIO_CODEC_PCM {
            AudioKind::Pcm { bits: w.bits }
        } else if w.channels == 2 {
            AudioKind::Stereo
        } else {
            AudioKind::Surround
        }),
{
    if w.codec == AUDIO_CODEC_PCM {
        AudioKind::Pcm { bits: w.bits }
    } else if w.channels == 2 {
        AudioKind::Stereo
    } else {
        AudioKind::Surround
    }
}

/// Whatever a host states, nothing that is divided by or waited for is zero.
pub proof fn an_opened_plane_never_spins(w: AudioWelcome)
    requires
        decodes(w),
    ensures
        opened(w).rate_hz > 0,
        opened(w).frame_us >= 1_000,
        opened(w).per_ms > 0,
        opened(w).frame_ms >= 1,
{
    let khz = at_least(opened(w).rate_hz as int / 1000, 1);
    let ch = at_least(w.channels as int, 1);
    assert(0 < khz * ch <= 4_294_968 * 255) by (nonlinear_arith)
        requires
            0 < khz <= 4_294_968,
            0 < ch <= 255,
    ;
}

/// Interleaved samples of a per-channel count, which is how the decoder counts.
pub fn interleaved(per_channel: usize, channels: u8) -> (r: Option<usize>)
    ensures
        match r {
            Some(n) => n == per_channel * (if channels == 0 {
                1int
            } else {
                channels as int
            }),
            None => per_channel * (if channels == 0 {
                1int
            } else {
                channels as int
            }) > usize::MAX,
        },
{
    let ch: usize = if channels == 0 {
        1
    } else {
        channels as usize
    };
    per_channel.checked_mul(ch)
}

/// How much the decoder is asked to invent: as much as the last frame held, cut to the room
/// there is; nothing before a frame was decoded.
pub fn concealed_len(last_frame: usize, room: usize) -> (r: Option<usize>)
    ensures
        r == (if last_frame == 0 || room == 0 {
            None
        } else if last_frame < room {
            Some(last_frame)
        } else {
            Some(room)
        }),
{
    let n: usize = if last_frame < room {
        last_frame
    } else {
        room
    };
    if n == 0 {
        None
    } else {
        Some(n)
    }
}

/// The pull loop's own state.
#[derive(Debug, Clone, Copy, PartialEq, Eq, Structural)]
pub struct AudioLoop {
    /// Interleaved samples of the last frame decoded; zero before the first.
    pub frame_samples: usize,
}

impl AudioLoop {
    /// A loop that decoded nothing.
    pub fn new() -> (l: AudioLoop)
        ensures
            l.frame_samples == 0,
    {
        AudioLoop { frame_samples: 0 }
    }

    /// How long to wait for a packet: one frame while there is a stream to protect, else
    /// longer.
    pub fn wait_ms(&self, plan: &AudioPlan) -> (r: u64)
        ensures
            r == (if self.frame_samples > 0 {
                plan.frame_ms
            } else {
                100
            }),
    {
        if self.frame_samples > 0 {
            plan.frame_ms
        } else {
            100
        }
    }

    /// How many lost frames to invent before a packet: those missing, less those a drought
    /// already covered; none before a frame was decoded.
    pub fn conceal_before(&self, missing: u32, already: u32) -> (r: u32)
        ensures
            r == (if self.frame_samples == 0 || missing <= already {
                0int
            } else {
                missing - already
            }),
    {
        if self.frame_samples == 0 {
            return 0;
        }
        missing.saturating_sub(already)
    }

    /// A packet was decoded, or lost to a failure that leaves the last length standing.
    pub fn on_decoded(&mut self, samples: Option<usize>)
        ensures
            final(self).frame_samples == (match samples {
                Some(n) => n,
                None => old(self).frame_samples,
            }),
    {
        match samples {
            Some(n) => {
                self.frame_samples = n;
            },
            None => {},
        }
    }
}

/// What a packet does, in order: the ring's depth is told, the packet is placed against the
/// picture, what was lost before it is invented, and then it is decoded.
#[derive(Debug, Clone, Copy, PartialEq, Eq, Structural)]
pub struct PacketStep {
    /// Milliseconds the ring holds.
    pub buffer_ms: u32,
    /// Hold the packet against the picture.
    pub observe: bool,
    /// How far the picture is behind the host; `None` before anything is on the screen.
    pub video_e2e_ns: Option<u64>,
    /// Frames to invent first.
    pub conceal: u32,
}

/// What a silent wire does.
#[derive(Debug, Clone, Copy, PartialEq, Eq, Structural)]
pub enum QuietStep {
    Wait,
    /// Ask whether the ring, this many milliseconds deep, is running dry.
    AskDrought { depth_ms: u32 },
}

impl AudioLoop {
    /// A packet arrived, `missing` frames after the one before it, `already` of which a silence
    /// covered. The ring holds `depth` samples; `video_e2e` is zero before the first picture.
    pub fn on_packet(
        &self,
        plan: &AudioPlan,
        av_sync: bool,
        depth: u64,
        video_e2e: u64,
        missing: u32,
        already: u32,
    ) -> (r: PacketStep)
        requires
            plan.per_ms > 0,
        ensures
            r == (PacketStep {
                buffer_ms: ((depth / plan.per_ms) % 0x1_0000_0000) as u32,
                observe: av_sync,
                video_e2e_ns: if av_sync && video_e2e > 0 {
                    Some(video_e2e)
                } else {
                    None
                },
                conceal: (if self.frame_samples == 0 || missing <= already {
                    0int
                } else {
                    missing - already
                }) as u32,
            }),
    {
        PacketStep {
            buffer_ms: buffer_ms(depth, plan.per_ms),
            observe: av_sync,
            video_e2e_ns: if av_sync && video_e2e > 0 {
                Some(video_e2e)
            } else {
                None
            },
            conceal: self.conceal_before(missing, already),
        }
    }

    /// Nothing arrived within a frame. Before a frame was decoded there is nothing to cover.
    pub fn on_quiet(&self, plan: &AudioPlan, depth: u64) -> (r: QuietStep)
        requires
            plan.per_ms > 0,
        ensures
            r == (if self.frame_samples == 0 {
                QuietStep::Wait
            } else {
                QuietStep::AskDrought { depth_ms: ((depth / plan.per_ms) % 0x1_0000_0000) as u32 }
            }),
    {
        if self.frame_samples == 0 {
            QuietStep::Wait
        } else {
            QuietStep::AskDrought { depth_ms: buffer_ms(depth, plan.per_ms) }
        }
    }
}

/// Milliseconds a ring holds.
pub fn buffer_ms(depth: u64, per_ms: u64) -> (r: u32)
    requires
        per_ms > 0,
    ensures
        r == (depth / per_ms) % 0x1_0000_0000,
{
    ((depth / per_ms) % 0x1_0000_0000) as u32
}

/// Whether picture and sound are kept together; the environment may switch that off.
pub fn av_sync_enabled(env: Option<&str>) -> (r: bool)
    ensures
        r == !(env is Some && (env->Some_0@ == "1"@ || env->Some_0@ == "true"@)),
{
    match env {
        Some(v) => !(crate::text::same(v, "1") || crate::text::same(v, "true")),
        None => true,
    }
}

} // verus!
