//! The D3D11 hand-off: which shared slot a decoded surface goes to and what the frame carries.

use vstd::prelude::*;
use crate::frame::ColorDesc;

verus! {

/// Pixel format of a hand-off slot.
#[derive(Clone, Copy, Debug, PartialEq, Eq, Structural)]
pub enum SlotFormat {
    /// Video-processor output, sRGB.
    Bgra8,
    /// Video-processor output, PQ pass-through.
    Rgb10a2,
    /// A two-plane copy of an 8-bit picture.
    Nv12,
    /// A two-plane copy of a 10-bit picture.
    P010,
}

/// One decoded frame in a shared slot.
#[derive(Clone, Copy, Debug, PartialEq, Eq, Structural)]
pub struct D3d11Frame {
    pub width: u32,
    pub height: u32,
    pub color: ColorDesc,
    pub format: SlotFormat,
    pub keyframe: bool,
    pub references_clean: bool,
    pub slot: usize,
    pub generation: u32,
}

/// Slots of a ring: the pump holds two frames and the presenter one, so three are out.
pub const RING_SLOTS: usize = 6;

/// A wait for a slot at least this long met the presenter still reading it.
pub const ACQUIRE_STALL_NS: u64 = 1_000_000;

/// Blit timings in flight at once.
pub const TIMER_SETS: usize = 4;

/// Format of a decode pool.
#[derive(Clone, Copy, Debug, PartialEq, Eq, Structural)]
pub enum PoolFormat {
    Nv12,
    P010,
    Other,
}

/// A decoded picture about to be handed over.
#[derive(Clone, Copy, Debug, PartialEq, Eq, Structural)]
pub struct HandoffSource {
    /// Identity of the decode pool.
    pub pool: u64,
    pub pool_format: PoolFormat,
    /// Slices of the pool.
    pub slices: u32,
    /// The picture's slice.
    pub array_slice: u32,
    /// Size of the frame, not of the aligned surface.
    pub width: u32,
    pub height: u32,
    /// Per-frame signalling; the host may switch it in band.
    pub color: ColorDesc,
    pub keyframe: bool,
    pub references_clean: bool,
}

/// Colour space the video processor reads a surface in.
#[derive(Clone, Copy, Debug, PartialEq, Eq, Structural)]
pub enum InputSpace {
    StudioPq2020,
    Studio2020,
    Full2020,
    Studio601,
    Full601,
    Studio709,
    Full709,
}

/// The colour space of a stream's signalling. PQ is studio range whatever is signalled: no
/// full-range PQ space exists.
pub open spec fn space_of(color: ColorDesc) -> InputSpace {
    if color.transfer == 16 {
        InputSpace::StudioPq2020
    } else if color.matrix == 9 || color.matrix == 10 {
        if color.full_range {
            InputSpace::Full2020
        } else {
            InputSpace::Studio2020
        }
    } else if color.matrix == 5 || color.matrix == 6 {
        if color.full_range {
            InputSpace::Full601
        } else {
            InputSpace::Studio601
        }
    } else if color.full_range {
        InputSpace::Full709
    } else {
        InputSpace::Studio709
    }
}

/// The colour space of a stream's signalling.
pub fn input_space(color: ColorDesc) -> (r: InputSpace)
    ensures
        r == space_of(color),
        color.transfer == 16 ==> r == InputSpace::StudioPq2020,
        color.transfer != 16 && (color.matrix == 9 || color.matrix == 10) ==> r == (
        if color.full_range {
            InputSpace::Full2020
        } else {
            InputSpace::Studio2020
        }),
        color.transfer != 16 && (color.matrix == 5 || color.matrix == 6) ==> r == (
        if color.full_range {
            InputSpace::Full601
        } else {
            InputSpace::Studio601
        }),
        color.transfer != 16 && color.matrix != 5 && color.matrix != 6 && color.matrix != 9
            && color.matrix != 10 ==> r == (if color.full_range {
            InputSpace::Full709
        } else {
            InputSpace::Studio709
        }),
{
    match (color.transfer, color.matrix, color.full_range) {
        (16, _, _) => InputSpace::StudioPq2020,
        (_, 9, false) => InputSpace::Studio2020,
        (_, 10, false) => InputSpace::Studio2020,
        (_, 9, true) => InputSpace::Full2020,
        (_, 10, true) => InputSpace::Full2020,
        (_, 5, false) => InputSpace::Studio601,
        (_, 6, false) => InputSpace::Studio601,
        (_, 5, true) => InputSpace::Full601,
        (_, 6, true) => InputSpace::Full601,
        (_, _, true) => InputSpace::Full709,
        _ => InputSpace::Studio709,
    }
}

/// Colour of a slot once the video processor wrote it: PQ or sRGB, full range RGB.
pub open spec fn output_color(pq_out: bool) -> ColorDesc {
    ColorDesc {
        primaries: if pq_out {
            9
        } else {
            1
        },
        transfer: if pq_out {
            16
        } else {
            13
        },
        matrix: 0,
        full_range: true,
    }
}

/// The ring the video processor writes.
#[derive(Clone, Copy, Debug, PartialEq, Eq)]
pub struct RgbRing {
    pub width: u32,
    pub height: u32,
    pub next: usize,
    pub generation: u32,
    pub pq_out: bool,
    /// The pool whose slices have input views.
    pub bound: Option<(u64, u32)>,
    /// The input space last set.
    pub space: Option<InputSpace>,
}

/// The ring of two-plane copies.
#[derive(Clone, Copy, Debug, PartialEq, Eq)]
pub struct PlanarRing {
    pub width: u32,
    pub height: u32,
    pub format: SlotFormat,
    pub next: usize,
    pub generation: u32,
}

/// The hand-off rings.
#[derive(Debug, PartialEq, Eq)]
pub struct HandoffRing {
    pub rgb: Option<RgbRing>,
    pub planar: Option<PlanarRing>,
    /// The presenter shows PQ.
    pub hdr10_out: bool,
    /// The presenter imports two-plane copies of these formats.
    pub planar_nv12: bool,
    pub planar_p010: bool,
    /// Generation of the next ring, shared by both kinds.
    pub generation: u32,
}

/// What has to happen before the video processor can write a slot.
#[derive(Clone, Copy, Debug, PartialEq, Eq, Structural)]
pub struct RgbPlan {
    pub pq_out: bool,
    /// A ring of this generation has to be built.
    pub rebuild: Option<u32>,
}

/// What the video processor is told before it writes.
#[derive(Clone, Copy, Debug, PartialEq, Eq, Structural)]
pub struct RgbStep {
    /// The input space has to be set.
    pub set_space: Option<InputSpace>,
    pub slot: usize,
}

/// The slice asked for is not one of the pool's.
#[derive(Clone, Copy, Debug, PartialEq, Eq, Structural)]
pub struct SliceOutside {
    pub slice: u32,
    pub slices: u32,
}

/// A size rounded up to even.
pub open spec fn even(n: u32) -> int {
    n + n % 2
}

/// How a ring's textures are made.
#[derive(Clone, Copy, Debug, PartialEq, Eq, Structural)]
pub struct RingDesc {
    pub width: u32,
    pub height: u32,
    pub format: SlotFormat,
    pub slots: usize,
    /// The processor writes them; copies need no more than to be read.
    pub render_target: bool,
}

/// How the processor's ring is made: one plane, in the flavour of its output, the size of the
/// frame without the surface's padding.
pub fn rgb_ring(source: &HandoffSource, pq_out: bool) -> (d: RingDesc)
    ensures
        d == (RingDesc {
            width: source.width,
            height: source.height,
            format: if pq_out {
                SlotFormat::Rgb10a2
            } else {
                SlotFormat::Bgra8
            },
            slots: RING_SLOTS,
            render_target: true,
        }),
        d.slots == 6,
{
    RingDesc {
        width: source.width,
        height: source.height,
        format: if pq_out {
            SlotFormat::Rgb10a2
        } else {
            SlotFormat::Bgra8
        },
        slots: RING_SLOTS,
        render_target: true,
    }
}

/// Colour space the video processor writes a slot in: full range RGB, PQ or sRGB.
#[derive(Clone, Copy, Debug, PartialEq, Eq, Structural)]
pub enum OutputSpace {
    PqFull2020,
    SrgbFull709,
}

/// How the video processor of a ring is set up, for the ring's whole life.
#[derive(Clone, Copy, Debug, PartialEq, Eq, Structural)]
pub struct ProcessorDesc {
    /// Read and written at this size: the presenter scales.
    pub width: u32,
    pub height: u32,
    /// Only this part of the surface is read. Without it the surface's padding would show.
    pub crop_width: u32,
    pub crop_height: u32,
    pub output: OutputSpace,
    /// The driver's own enhancements.
    pub auto_processing: bool,
}

/// How the video processor of a ring is set up.
pub fn ring_processor(source: &HandoffSource, pq_out: bool) -> (d: ProcessorDesc)
    ensures
        d == (ProcessorDesc {
            width: source.width,
            height: source.height,
            crop_width: source.width,
            crop_height: source.height,
            output: if pq_out {
                OutputSpace::PqFull2020
            } else {
                OutputSpace::SrgbFull709
            },
            auto_processing: false,
        }),
{
    ProcessorDesc {
        width: source.width,
        height: source.height,
        crop_width: source.width,
        crop_height: source.height,
        output: if pq_out {
            OutputSpace::PqFull2020
        } else {
            OutputSpace::SrgbFull709
        },
        auto_processing: false,
    }
}

/// How the ring of copies is made: in the pool's own format, with even sides.
pub fn planar_ring(source: &HandoffSource, format: SlotFormat) -> (d: RingDesc)
    requires
        source.width < u32::MAX,
        source.height < u32::MAX,
    ensures
        d.width == even(source.width),
        d.height == even(source.height),
        d.format == format,
        d.slots == RING_SLOTS,
        !d.render_target,
        d.slots == 6,
        d.width % 2 == 0 && source.width <= d.width <= source.width + 1,
        d.height % 2 == 0 && source.height <= d.height <= source.height + 1,
{
    RingDesc {
        width: source.width + source.width % 2,
        height: source.height + source.height % 2,
        format,
        slots: RING_SLOTS,
        render_target: false,
    }
}

impl HandoffRing {
    /// Every ring has its slots, and carries a generation that was given out before.
    pub open spec fn wf(self) -> bool {
        &&& self.rgb matches Some(r) ==> r.next < RING_SLOTS && r.generation < self.generation
        &&& self.planar matches Some(r) ==> r.next < RING_SLOTS && r.generation < self.generation
            && (r.format == SlotFormat::Nv12 || r.format == SlotFormat::P010)
        &&& self.rgb is None || self.planar is None
    }

    /// Rings not built yet.
    pub fn new(hdr10_out: bool) -> (h: HandoffRing)
        ensures
            h.wf(),
            h.rgb is None,
            h.planar is None,
            h.hdr10_out == hdr10_out,
            !h.planar_nv12,
            !h.planar_p010,
            h.generation == 0,
    {
        HandoffRing {
            rgb: None,
            planar: None,
            hdr10_out,
            planar_nv12: false,
            planar_p010: false,
            generation: 0,
        }
    }

    /// Copy pools of these formats into two-plane slots from the next frame on.
    pub fn set_planar(&mut self, nv12: bool, p010: bool)
        requires
            old(self).wf(),
        ensures
            final(self).wf(),
            *final(self) == (HandoffRing { planar_nv12: nv12, planar_p010: p010, ..*old(self) }),
    {
        self.planar_nv12 = nv12;
        self.planar_p010 = p010;
    }

    /// The two-plane format of a pool, where copying is on for it.
    pub open spec fn copies(self, pool: PoolFormat) -> Option<SlotFormat> {
        if pool == PoolFormat::Nv12 && self.planar_nv12 {
            Some(SlotFormat::Nv12)
        } else if pool == PoolFormat::P010 && self.planar_p010 {
            Some(SlotFormat::P010)
        } else {
            None
        }
    }

    /// The two-plane format of a pool, where copying is on for it.
    pub fn planar_format(&self, pool: PoolFormat) -> (r: Option<SlotFormat>)
        ensures
            r == self.copies(pool),
            pool == PoolFormat::Nv12 && self.planar_nv12 ==> r == Some(SlotFormat::Nv12),
            pool == PoolFormat::P010 && self.planar_p010 ==> r == Some(SlotFormat::P010),
            pool == PoolFormat::Nv12 && !self.planar_nv12 ==> r is None,
            pool == PoolFormat::P010 && !self.planar_p010 ==> r is None,
            pool == PoolFormat::Other ==> r is None,
    {
        match pool {
            PoolFormat::Nv12 => if self.planar_nv12 {
                Some(SlotFormat::Nv12)
            } else {
                None
            },
            PoolFormat::P010 => if self.planar_p010 {
                Some(SlotFormat::P010)
            } else {
                None
            },
            PoolFormat::Other => None,
        }
    }

    /// Whether the ring of copies fits a picture.
    pub open spec fn planar_fits(self, source: HandoffSource, format: SlotFormat) -> bool {
        self.planar matches Some(r) && r.width == even(source.width) && r.height == even(
            source.height,
        ) && r.format == format
    }

    /// Whether the processor's ring fits a picture. Bit depth alone does not matter: both SDR
    /// depths come out alike.
    pub open spec fn rgb_fits(self, source: HandoffSource) -> bool {
        self.rgb matches Some(r) && r.width == source.width && r.height == source.height && r.pq_out
            == self.passes_pq(source.color)
    }

    /// Whether a picture goes through as PQ.
    pub open spec fn passes_pq(self, color: ColorDesc) -> bool {
        self.hdr10_out && color.spec_pq()
    }

    /// Start a two-plane copy: the generation of the ring to build, or none where the ring at
    /// hand fits. A generation is used up whether or not the build succeeds.
    pub fn plan_planar(&mut self, source: &HandoffSource, format: SlotFormat) -> (r: Option<u32>)
        requires
            old(self).wf(),
            old(self).generation < u32::MAX,
            source.width < u32::MAX,
            source.height < u32::MAX,
        ensures
            final(self).wf(),
            r == (if old(self).planar_fits(*source, format) {
                None
            } else {
                Some(old(self).generation)
            }),
            r is None <==> (old(self).planar matches Some(ring) && ring.format == format
                && ring.width == source.width + source.width % 2 && ring.height == source.height
                + source.height % 2),
            r is Some ==> r->Some_0 == old(self).generation,
            *final(self) == (HandoffRing {
                generation: if r is Some {
                    (old(self).generation + 1) as u32
                } else {
                    old(self).generation
                },
                ..*old(self)
            }),
    {
        let width: u32 = source.width + source.width % 2;
        let height: u32 = source.height + source.height % 2;
        let fits: bool = match self.planar {
            Some(r) => r.width == width && r.height == height && r.format == format,
            None => false,
        };
        if fits {
            return None;
        }
        let generation: u32 = self.generation;
        self.generation = generation + 1;
        Some(generation)
    }

    /// The ring of copies was built; the other ring goes.
    pub fn planar_built(&mut self, source: &HandoffSource, format: SlotFormat, generation: u32)
        requires
            old(self).wf(),
            generation < old(self).generation,
            format == SlotFormat::Nv12 || format == SlotFormat::P010,
            source.width < u32::MAX,
            source.height < u32::MAX,
        ensures
            final(self).wf(),
            *final(self) == (HandoffRing {
                planar: Some(
                    PlanarRing {
                        width: even(source.width) as u32,
                        height: even(source.height) as u32,
                        format,
                        next: 0,
                        generation,
                    },
                ),
                rgb: None,
                ..*old(self)
            }),
            final(self).planar_fits(*source, format),
    {
        let width: u32 = source.width + source.width % 2;
        let height: u32 = source.height + source.height % 2;
        self.planar = Some(PlanarRing { width, height, format, next: 0, generation });
        self.rgb = None;
    }

    /// Take the next slot for a copy. The frame carries the stream's own colour; the
    /// presenter converts it.
    pub fn take_planar(&mut self, source: &HandoffSource, format: SlotFormat) -> (f: D3d11Frame)
        requires
            old(self).wf(),
            old(self).planar_fits(*source, format),
        ensures
            final(self).wf(),
            ({
                let ring = old(self).planar->Some_0;
                &&& f == (D3d11Frame {
                    width: ring.width,
                    height: ring.height,
                    color: source.color,
                    format,
                    keyframe: source.keyframe,
                    references_clean: source.references_clean,
                    slot: ring.next,
                    generation: ring.generation,
                })
                &&& *final(self) == (HandoffRing {
                    planar: Some(
                        PlanarRing { next: ((ring.next + 1) % RING_SLOTS as int) as usize, ..ring },
                    ),
                    ..*old(self)
                })
            }),
            f.color == source.color && f.format == format && f.keyframe == source.keyframe
                && f.references_clean == source.references_clean,
            f.slot == old(self).planar->Some_0.next,
            f.slot < 5 ==> final(self).planar->Some_0.next == f.slot + 1,
            f.slot == 5 ==> final(self).planar->Some_0.next == 0,
    {
        match self.planar {
            Some(ring) => {
                let slot: usize = ring.next;
                self.planar = Some(
                    PlanarRing {
                        width: ring.width,
                        height: ring.height,
                        format: ring.format,
                        next: (slot + 1) % RING_SLOTS,
                        generation: ring.generation,
                    },
                );
                D3d11Frame {
                    width: ring.width,
                    height: ring.height,
                    color: source.color,
                    format,
                    keyframe: source.keyframe,
                    references_clean: source.references_clean,
                    slot,
                    generation: ring.generation,
                }
            },
            None => {
                assert(false);
                D3d11Frame {
                    width: 0,
                    height: 0,
                    color: source.color,
                    format,
                    keyframe: false,
                    references_clean: false,
                    slot: 0,
                    generation: 0,
                }
            },
        }
    }

    /// The state once a copy failed.
    pub open spec fn copy_failed(self, format: SlotFormat) -> HandoffRing {
        HandoffRing {
            planar: None,
            planar_p010: self.planar_p010 && format != SlotFormat::P010,
            planar_nv12: self.planar_nv12 && format == SlotFormat::P010,
            ..self
        }
    }

    /// A copy failed: this format takes the processor from now on.
    pub fn planar_failed(&mut self, format: SlotFormat)
        requires
            old(self).wf(),
        ensures
            final(self).wf(),
            *final(self) == old(self).copy_failed(format),
            final(self).planar is None,
            final(self).planar_p010 == (old(self).planar_p010 && format != SlotFormat::P010),
            final(self).planar_nv12 == (old(self).planar_nv12 && format == SlotFormat::P010),
            final(self).rgb == old(self).rgb && final(self).generation == old(self).generation
                && final(self).hdr10_out == old(self).hdr10_out,
    {
        match format {
            SlotFormat::P010 => {
                self.planar_p010 = false;
            },
            _ => {
                self.planar_nv12 = false;
            },
        }
        self.planar = None;
    }

    /// Start a blit: the flavour of its output, and the generation of the ring to build.
    pub fn plan_rgb(&mut self, source: &HandoffSource) -> (r: RgbPlan)
        requires
            old(self).wf(),
            old(self).generation < u32::MAX,
        ensures
            final(self).wf(),
            r.pq_out == old(self).passes_pq(source.color),
            r.rebuild == (if old(self).rgb_fits(*source) {
                None
            } else {
                Some(old(self).generation)
            }),
            r.pq_out == (old(self).hdr10_out && source.color.transfer == 16),
            r.rebuild is None <==> (old(self).rgb matches Some(ring) && ring.width == source.width
                && ring.height == source.height && ring.pq_out == r.pq_out),
            r.rebuild is Some ==> r.rebuild->Some_0 == old(self).generation,
            *final(self) == (HandoffRing {
                generation: if r.rebuild is Some {
                    (old(self).generation + 1) as u32
                } else {
                    old(self).generation
                },
                ..*old(self)
            }),
    {
        let pq_out: bool = self.hdr10_out && source.color.is_pq();
        let fits: bool = match self.rgb {
            Some(r) => r.width == source.width && r.height == source.height && r.pq_out == pq_out,
            None => false,
        };
        if fits {
            return RgbPlan { pq_out, rebuild: None };
        }
        let generation: u32 = self.generation;
        self.generation = generation + 1;
        RgbPlan { pq_out, rebuild: Some(generation) }
    }

    /// The processor's ring was built; the other ring goes.
    pub fn rgb_built(&mut self, source: &HandoffSource, generation: u32)
        requires
            old(self).wf(),
            generation < old(self).generation,
        ensures
            final(self).wf(),
            *final(self) == (HandoffRing {
                rgb: Some(
                    RgbRing {
                        width: source.width,
                        height: source.height,
                        next: 0,
                        generation,
                        pq_out: old(self).passes_pq(source.color),
                        bound: None,
                        space: None,
                    },
                ),
                planar: None,
                ..*old(self)
            }),
            final(self).rgb_fits(*source),
    {
        let pq_out: bool = self.hdr10_out && source.color.is_pq();
        self.rgb = Some(
            RgbRing {
                width: source.width,
                height: source.height,
                next: 0,
                generation,
                pq_out,
                bound: None,
                space: None,
            },
        );
        self.planar = None;
    }

    /// Whether the picture's pool has no input views in this ring yet.
    pub fn needs_pool(&self, source: &HandoffSource) -> (r: bool)
        ensures
            r == !(self.rgb matches Some(ring) && ring.bound matches Some(b) && b.0 == source.pool),
    {
        match self.rgb {
            Some(ring) => match ring.bound {
                Some((pool, _)) => pool != source.pool,
                None => true,
            },
            None => true,
        }
    }

    /// The pool's slices got their input views.
    pub fn pool_bound(&mut self, source: &HandoffSource)
        requires
            old(self).wf(),
        ensures
            final(self).wf(),
            *final(self) == (HandoffRing {
                rgb: match old(self).rgb {
                    Some(r) => Some(
                        RgbRing { bound: Some((source.pool, source.slices)), ..r },
                    ),
                    None => None,
                },
                ..*old(self)
            }),
    {
        match self.rgb {
            Some(r) => {
                self.rgb = Some(
                    RgbRing {
                        width: r.width,
                        height: r.height,
                        next: r.next,
                        generation: r.generation,
                        pq_out: r.pq_out,
                        bound: Some((source.pool, source.slices)),
                        space: r.space,
                    },
                );
            },
            None => {},
        }
    }

    /// Ready the processor for a picture: which input space to set, if it changed, and which
    /// slot to write. A slice outside the pool is refused.
    pub fn begin_rgb(&mut self, source: &HandoffSource) -> (r: Result<RgbStep, SliceOutside>)
        requires
            old(self).wf(),
            old(self).rgb matches Some(ring) && ring.bound matches Some(b) && b.0 == source.pool,
        ensures
            final(self).wf(),
            ({
                let ring = old(self).rgb->Some_0;
                let slices = ring.bound->Some_0.1;
                let space = space_of(source.color);
                match r {
                    Ok(step) => {
                        &&& source.array_slice < slices
                        &&& step.slot == ring.next
                        &&& step.set_space == (if ring.space == Some(space) {
                            None
                        } else {
                            Some(space)
                        })
                        &&& *final(self) == (HandoffRing {
                            rgb: Some(
                                RgbRing {
                                    space: Some(space),
                                    next: ((ring.next + 1) % RING_SLOTS as int) as usize,
                                    ..ring
                                },
                            ),
                            ..*old(self)
                        })
                    },
                    Err(e) => {
                        &&& source.array_slice >= slices
                        &&& e == (SliceOutside { slice: source.array_slice, slices })
                        &&& *final(self) == *old(self)
                    },
                }
            }),
    {
        match self.rgb {
            Some(ring) => {
                let slices: u32 = match ring.bound {
                    Some((_, n)) => n,
                    None => 0,
                };
                if source.array_slice >= slices {
                    return Err(SliceOutside { slice: source.array_slice, slices });
                }
                let space: InputSpace = input_space(source.color);
                let known: bool = match ring.space {
                    Some(s) => s == space,
                    None => false,
                };
                let slot: usize = ring.next;
                self.rgb = Some(
                    RgbRing {
                        width: ring.width,
                        height: ring.height,
                        next: (slot + 1) % RING_SLOTS,
                        generation: ring.generation,
                        pq_out: ring.pq_out,
                        bound: ring.bound,
                        space: Some(space),
                    },
                );
                Ok(
                    RgbStep {
                        set_space: if known {
                            None
                        } else {
                            Some(space)
                        },
                        slot,
                    },
                )
            },
            None => Err(SliceOutside { slice: source.array_slice, slices: 0 }),
        }
    }

    /// The frame a blit made: its colour is the slot's, not the stream's.
    pub fn rgb_frame(&self, source: &HandoffSource, slot: usize) -> (f: D3d11Frame)
        requires
            self.rgb is Some,
        ensures
            ({
                let ring = self.rgb->Some_0;
                f == (D3d11Frame {
                    width: source.width,
                    height: source.height,
                    color: output_color(ring.pq_out),
                    format: if ring.pq_out {
                        SlotFormat::Rgb10a2
                    } else {
                        SlotFormat::Bgra8
                    },
                    keyframe: source.keyframe,
                    references_clean: source.references_clean,
                    slot,
                    generation: ring.generation,
                })
            }),
            self.rgb->Some_0.pq_out ==> f.color.primaries == 9 && f.color.transfer == 16,
            !self.rgb->Some_0.pq_out ==> f.color.primaries == 1 && f.color.transfer == 13,
            f.color.matrix == 0 && f.color.full_range,
    {
        let (pq_out, generation): (bool, u32) = match self.rgb {
            Some(r) => (r.pq_out, r.generation),
            None => (false, 0),
        };
        let color = if pq_out {
            ColorDesc { primaries: 9, transfer: 16, matrix: 0, full_range: true }
        } else {
            ColorDesc { primaries: 1, transfer: 13, matrix: 0, full_range: true }
        };
        D3d11Frame {
            width: source.width,
            height: source.height,
            color,
            format: if pq_out {
                SlotFormat::Rgb10a2
            } else {
                SlotFormat::Bgra8
            },
            keyframe: source.keyframe,
            references_clean: source.references_clean,
            slot,
            generation,
        }
    }
}

/// The next thing to do to hand a picture over.
#[derive(Clone, Copy, Debug, PartialEq, Eq, Structural)]
pub enum HandoffStep {
    /// Build the ring of copies.
    BuildPlanar { format: SlotFormat, generation: u32 },
    /// Copy the picture into this frame's slot. That ends it, unless the copy fails.
    CopyPlanar { format: SlotFormat, frame: D3d11Frame },
    /// Build the processor's ring.
    BuildRgb { pq_out: bool, generation: u32 },
    /// Make input views of the picture's pool.
    BindPool,
    /// Blit the picture into this frame's slot. That ends it.
    Blit { set_space: Option<InputSpace>, frame: D3d11Frame },
    /// The picture's slice is not one of its pool's.
    Refused(SliceOutside),
}

impl HandoffRing {
    /// Whether the picture's pool has its input views.
    pub open spec fn pool_ready(self, source: HandoffSource) -> bool {
        self.rgb matches Some(ring) && ring.bound matches Some(b) && b.0 == source.pool
    }

    /// The next thing to do, in kind: a copy where the presenter takes the pool's format, a
    /// blit otherwise, and first whatever either is missing.
    pub open spec fn step_fits(self, source: HandoffSource, step: HandoffStep) -> bool {
        match self.copies(source.pool_format) {
            Some(want) => if self.planar_fits(source, want) {
                step matches HandoffStep::CopyPlanar { format, frame } && format == want && frame
                    == (D3d11Frame {
                    width: self.planar->Some_0.width,
                    height: self.planar->Some_0.height,
                    color: source.color,
                    format,
                    keyframe: source.keyframe,
                    references_clean: source.references_clean,
                    slot: self.planar->Some_0.next,
                    generation: self.planar->Some_0.generation,
                })
            } else {
                step == (HandoffStep::BuildPlanar { format: want, generation: self.generation })
            },
            None => if !self.rgb_fits(source) {
                step == (HandoffStep::BuildRgb {
                    pq_out: self.passes_pq(source.color),
                    generation: self.generation,
                })
            } else if !self.pool_ready(source) {
                step == HandoffStep::BindPool
            } else if source.array_slice < self.rgb->Some_0.bound->Some_0.1 {
                step matches HandoffStep::Blit { set_space, frame } && set_space == (if
                self.rgb->Some_0.space == Some(space_of(source.color)) {
                    None
                } else {
                    Some(space_of(source.color))
                }) && frame == (D3d11Frame {
                    width: source.width,
                    height: source.height,
                    color: output_color(self.rgb->Some_0.pq_out),
                    format: if self.rgb->Some_0.pq_out {
                        SlotFormat::Rgb10a2
                    } else {
                        SlotFormat::Bgra8
                    },
                    keyframe: source.keyframe,
                    references_clean: source.references_clean,
                    slot: self.rgb->Some_0.next,
                    generation: self.rgb->Some_0.generation,
                })
            } else {
                step == HandoffStep::Refused(
                    SliceOutside {
                        slice: source.array_slice,
                        slices: self.rgb->Some_0.bound->Some_0.1,
                    },
                )
            },
        }
    }

    /// The state once a step is given out: a generation or a slot is used up.
    pub open spec fn after_step(self, source: HandoffSource, step: HandoffStep) -> HandoffRing {
        match step {
            HandoffStep::BuildPlanar { .. } | HandoffStep::BuildRgb { .. } => HandoffRing {
                generation: (self.generation + 1) as u32,
                ..self
            },
            HandoffStep::CopyPlanar { .. } => HandoffRing {
                planar: Some(
                    PlanarRing {
                        next: ((self.planar->Some_0.next + 1) % RING_SLOTS as int) as usize,
                        ..self.planar->Some_0
                    },
                ),
                ..self
            },
            HandoffStep::Blit { .. } => HandoffRing {
                rgb: Some(
                    RgbRing {
                        space: Some(space_of(source.color)),
                        next: ((self.rgb->Some_0.next + 1) % RING_SLOTS as int) as usize,
                        ..self.rgb->Some_0
                    },
                ),
                ..self
            },
            _ => self,
        }
    }

    /// The next thing to do to hand a picture over. The caller does it, says how it went
    /// (`planar_built`, `planar_failed`, `rgb_built`, `pool_bound`), and asks again until a copy
    /// or a blit is done.
    pub fn present(&mut self, source: &HandoffSource) -> (r: HandoffStep)
        requires
            old(self).wf(),
            old(self).generation < u32::MAX,
            source.width < u32::MAX,
            source.height < u32::MAX,
        ensures
            final(self).wf(),
            old(self).step_fits(*source, r),
            *final(self) == old(self).after_step(*source, r),
            ({
                let copied = (source.pool_format == PoolFormat::Nv12 && old(self).planar_nv12) || (
                source.pool_format == PoolFormat::P010 && old(self).planar_p010);
                let planar_fits = old(self).planar matches Some(ring) && ring.width == source.width
                    + source.width % 2 && ring.height == source.height + source.height % 2 && (
                ring.format == SlotFormat::Nv12 <==> source.pool_format == PoolFormat::Nv12);
                let pq = old(self).hdr10_out && source.color.transfer == 16;
                let rgb_fits = old(self).rgb matches Some(ring) && ring.width == source.width
                    && ring.height == source.height && ring.pq_out == pq;
                let bound = rgb_fits && old(self).rgb->Some_0.bound is Some && old(
                    self,
                ).rgb->Some_0.bound->Some_0.0 == source.pool;
                let inside = source.array_slice < old(self).rgb->Some_0.bound->Some_0.1;
                &&& r is CopyPlanar <==> copied && planar_fits
                &&& r is BuildPlanar <==> copied && !planar_fits
                &&& r is BuildRgb <==> !copied && !rgb_fits
                &&& r is BindPool <==> !copied && rgb_fits && !bound
                &&& r is Blit <==> !copied && rgb_fits && bound && inside
                &&& r is Refused <==> !copied && rgb_fits && bound && !inside
                &&& r matches HandoffStep::BuildRgb { pq_out, generation } ==> pq_out == pq
                    && generation == old(self).generation
                &&& r matches HandoffStep::BuildPlanar { format, generation } ==> generation == old(
                    self,
                ).generation && (format == SlotFormat::Nv12 <==> source.pool_format
                    == PoolFormat::Nv12)
                &&& r matches HandoffStep::CopyPlanar { format, frame } ==> frame.color
                    == source.color && frame.keyframe == source.keyframe && frame.references_clean
                    == source.references_clean && frame.slot == old(self).planar->Some_0.next
                    && frame.generation == old(self).planar->Some_0.generation
                &&& r matches HandoffStep::Blit { set_space, frame } ==> frame.keyframe
                    == source.keyframe && frame.references_clean == source.references_clean
                    && frame.width == source.width && frame.height == source.height && frame.slot
                    == old(self).rgb->Some_0.next && frame.generation == old(
                    self,
                ).rgb->Some_0.generation && frame.color.transfer == (if pq {
                    16u8
                } else {
                    13u8
                })
                &&& (r is BuildPlanar || r is BuildRgb) ==> final(self).generation == old(
                    self,
                ).generation + 1
                &&& !(r is BuildPlanar || r is BuildRgb) ==> final(self).generation == old(
                    self,
                ).generation
            }),
    {
        match self.planar_format(source.pool_format) {
            Some(format) => match self.plan_planar(source, format) {
                Some(generation) => HandoffStep::BuildPlanar { format, generation },
                None => {
                    let frame = self.take_planar(source, format);
                    HandoffStep::CopyPlanar { format, frame }
                },
            },
            None => {
                let plan = self.plan_rgb(source);
                match plan.rebuild {
                    Some(generation) => HandoffStep::BuildRgb { pq_out: plan.pq_out, generation },
                    None => {
                        if self.needs_pool(source) {
                            return HandoffStep::BindPool;
                        }
                        match self.begin_rgb(source) {
                            Ok(step) => {
                                let frame = self.rgb_frame(source, step.slot);
                                HandoffStep::Blit { set_space: step.set_space, frame }
                            },
                            Err(e) => HandoffStep::Refused(e),
                        }
                    },
                }
            },
        }
    }

    /// Steps still ahead of a picture, at most.
    pub open spec fn steps_left(self, source: HandoffSource) -> nat {
        match self.copies(source.pool_format) {
            Some(format) => if self.planar_fits(source, format) {
                4
            } else {
                5
            },
            None => if !self.rgb_fits(source) {
                3
            } else if !self.pool_ready(source) {
                2
            } else {
                1
            },
        }
    }
}

/// A hand-off ends: whatever a step comes to, fewer are left. A format whose copy failed is
/// not copied again, and its picture still arrives through the processor.
pub proof fn a_hand_off_always_ends(h: HandoffRing, source: HandoffSource, step: HandoffStep)
    requires
        h.wf(),
        h.step_fits(source, step),
    ensures
        h.steps_left(source) <= 5,
        match step {
            HandoffStep::BuildPlanar { format, generation } => {
                let built = HandoffRing {
                    planar: Some(
                        PlanarRing {
                            width: even(source.width) as u32,
                            height: even(source.height) as u32,
                            format,
                            next: 0,
                            generation,
                        },
                    ),
                    rgb: None,
                    ..h.after_step(source, step)
                };
                let failed = h.after_step(source, step).copy_failed(format);
                &&& source.width < u32::MAX && source.height < u32::MAX ==> built.steps_left(source)
                    < h.steps_left(source)
                &&& failed.steps_left(source) < h.steps_left(source)
                &&& failed.copies(source.pool_format) is None
            },
            HandoffStep::CopyPlanar { format, .. } => {
                let failed = h.after_step(source, step).copy_failed(format);
                &&& failed.steps_left(source) < h.steps_left(source)
                &&& failed.copies(source.pool_format) is None
            },
            HandoffStep::BuildRgb { generation, .. } => {
                let built = HandoffRing {
                    rgb: Some(
                        RgbRing {
                            width: source.width,
                            height: source.height,
                            next: 0,
                            generation,
                            pq_out: h.passes_pq(source.color),
                            bound: None,
                            space: None,
                        },
                    ),
                    planar: None,
                    ..h.after_step(source, step)
                };
                built.steps_left(source) < h.steps_left(source)
            },
            HandoffStep::BindPool => {
                let bound = HandoffRing {
                    rgb: Some(
                        RgbRing {
                            bound: Some((source.pool, source.slices)),
                            ..h.rgb->Some_0
                        },
                    ),
                    ..h
                };
                bound.steps_left(source) < h.steps_left(source)
            },
            _ => true,
        },
{
}

/// A ring never gets the generation of a ring that exists: a presenter that keeps imports by
/// generation and slot never mistakes a new one for an old one.
pub proof fn no_generation_comes_back(h: HandoffRing, built: u32)
    requires
        h.wf(),
        built == h.generation,
    ensures
        h.rgb matches Some(r) ==> r.generation != built,
        h.planar matches Some(r) ==> r.generation != built,
{
}

/// A PQ frame is marked PQ only where the presenter can show it; otherwise it leaves the
/// processor as sRGB.
pub proof fn pq_reaches_only_an_hdr_presenter(h: HandoffRing, color: ColorDesc)
    ensures
        output_color(h.passes_pq(color)).spec_pq() ==> h.hdr10_out && color.spec_pq(),
        !h.hdr10_out ==> output_color(h.passes_pq(color)).transfer == 13,
{
}

/// Whether an acquire took the slot. A timeout and an abandoned lock are reported as
/// successes of another kind; only zero owns the slot.
pub fn keyed_acquired(code: i32) -> (r: Result<(), i32>)
    ensures
        r == (if code == 0 {
            Ok::<(), i32>(())
        } else {
            Err(code)
        }),
{
    if code == 0 {
        Ok(())
    } else {
        Err(code)
    }
}

/// Whether the processor turns PQ into sRGB. Only a definite no counts: a machine on which
/// the probe fails also fails to decode this way.
pub fn pq_tonemap_supported(probe: Option<bool>) -> (r: bool)
    ensures
        r == (probe != Some(false)),
{
    match probe {
        Some(answer) => answer,
        None => true,
    }
}

/// Which timing is read and armed next.
#[derive(Debug, PartialEq, Eq)]
pub struct BltTimer {
    pub armed: [bool; 4],
    pub next: usize,
}

impl BltTimer {
    /// The timings cycle.
    pub open spec fn wf(self) -> bool {
        self.next < TIMER_SETS
    }

    /// Nothing armed.
    pub fn new() -> (t: BltTimer)
        ensures
            t.wf(),
            t.next == 0,
            forall|i: int| 0 <= i < 4 ==> !(#[trigger] t.armed@[i]),
    {
        BltTimer { armed: [false; 4], next: 0 }
    }

    /// Arm the oldest timing. Answers which one, and whether it holds a figure to read first.
    pub fn begin(&mut self) -> (r: (usize, bool))
        requires
            old(self).wf(),
        ensures
            final(self).wf(),
            r.0 == old(self).next,
            r.1 == old(self).armed@[r.0 as int],
            final(self).next == (old(self).next + 1) % TIMER_SETS as int,
            final(self).armed@ == old(self).armed@.update(r.0 as int, true),
    {
        let i: usize = self.next;
        let mut armed: [bool; 4] = self.armed;
        let read: bool = armed[i];
        armed[i] = true;
        self.armed = armed;
        self.next = (i + 1) % TIMER_SETS;
        (i, read)
    }

    /// The timing [`begin`](Self::begin) armed last.
    pub fn current(&self) -> (r: usize)
        requires
            self.wf(),
        ensures
            r < TIMER_SETS,
            (r + 1) % TIMER_SETS as int == self.next,
    {
        (self.next + TIMER_SETS - 1) % TIMER_SETS
    }
}

/// Time of a blit from its two timestamps, in microseconds. A clock that jumped, stands
/// still or runs backwards gives no figure.
pub open spec fn blit_us(disjoint: bool, frequency: u64, t0: u64, t1: u64) -> Option<u32> {
    if disjoint || frequency == 0 || t1 < t0 {
        None
    } else {
        let us = (t1 - t0) * 1_000_000 / frequency as int;
        if us <= u32::MAX {
            Some(us as u32)
        } else {
            None
        }
    }
}

/// Time of a blit from its two timestamps, in microseconds.
pub fn read_blt_us(disjoint: bool, frequency: u64, t0: u64, t1: u64) -> (r: Option<u32>)
    ensures
        r == blit_us(disjoint, frequency, t0, t1),
        r is Some ==> !disjoint && frequency > 0 && t0 <= t1 && r->Some_0 == (t1 - t0) * 1_000_000
            / frequency as int,
        r is None ==> disjoint || frequency == 0 || t1 < t0 || (t1 - t0) * 1_000_000
            / frequency as int > u32::MAX,
{
    if disjoint || frequency == 0 || t1 < t0 {
        return None;
    }
    let ticks: u128 = (t1 - t0) as u128;
    let us: u128 = ticks * 1_000_000 / frequency as u128;
    if us <= u32::MAX as u128 {
        Some(us as u32)
    } else {
        None
    }
}

/// One second of hand-off costs.
#[derive(Debug)]
pub struct HandoffWindow {
    pub start: u64,
    pub frames: u32,
    pub acquire_stalls: u32,
    pub acquire_wait: u64,
    pub begin_retries: u32,
    pub begin_wait: u64,
    pub blt_us: Vec<u32>,
    pub debug: bool,
}

/// The figures of one window.
#[derive(Debug)]
pub struct HandoffReport {
    pub frames: u32,
    pub blt_us: Vec<u32>,
    pub acquire_stalls: u32,
    pub acquire_wait_us: u64,
    pub begin_retries: u32,
    pub begin_wait_us: u64,
    /// Worth a line of its own: asked for, or something stalled.
    pub loud: bool,
}

/// One more, where there is room.
pub open spec fn one_more(n: u32) -> u32 {
    if n < u32::MAX {
        (n + 1) as u32
    } else {
        n
    }
}

/// A sum that stops at the top.
pub open spec fn topped(a: int, b: int, top: int) -> int {
    if a + b > top {
        top
    } else {
        a + b
    }
}

impl HandoffWindow {
    /// An empty window.
    pub fn new(now: u64, debug: bool) -> (w: HandoffWindow)
        ensures
            w.start == now,
            w.frames == 0,
            w.acquire_stalls == 0,
            w.acquire_wait == 0,
            w.begin_retries == 0,
            w.begin_wait == 0,
            w.blt_us@.len() == 0,
            w.debug == debug,
    {
        HandoffWindow {
            start: now,
            frames: 0,
            acquire_stalls: 0,
            acquire_wait: 0,
            begin_retries: 0,
            begin_wait: 0,
            blt_us: Vec::new(),
            debug,
        }
    }

    /// A frame was handed over.
    pub fn note_frame(&mut self, acquire_wait: u64, blt_us: Option<u32>)
        ensures
            final(self).start == old(self).start,
            final(self).debug == old(self).debug,
            final(self).begin_retries == old(self).begin_retries,
            final(self).begin_wait == old(self).begin_wait,
            final(self).frames == one_more(old(self).frames),
            final(self).acquire_wait == topped(
                old(self).acquire_wait as int,
                acquire_wait as int,
                u64::MAX as int,
            ),
            final(self).acquire_stalls == (if acquire_wait >= ACQUIRE_STALL_NS {
                one_more(old(self).acquire_stalls)
            } else {
                old(self).acquire_stalls
            }),
            final(self).blt_us@ == (match blt_us {
                Some(us) => old(self).blt_us@.push(us),
                None => old(self).blt_us@,
            }),
            old(self).frames < u32::MAX ==> final(self).frames == old(self).frames + 1,
            old(self).acquire_wait + acquire_wait <= u64::MAX ==> final(self).acquire_wait == old(
                self,
            ).acquire_wait + acquire_wait,
            acquire_wait >= 1_000_000 && old(self).acquire_stalls < u32::MAX
                ==> final(self).acquire_stalls == old(self).acquire_stalls + 1,
            acquire_wait < 1_000_000 ==> final(self).acquire_stalls == old(self).acquire_stalls,
    {
        self.frames = self.frames.saturating_add(1);
        self.acquire_wait = self.acquire_wait.saturating_add(acquire_wait);
        if acquire_wait >= ACQUIRE_STALL_NS {
            self.acquire_stalls = self.acquire_stalls.saturating_add(1);
        }
        match blt_us {
            Some(us) => {
                self.blt_us.push(us);
            },
            None => {},
        }
    }

    /// A frame's start met a busy decoder this often, for this long.
    pub fn note_begin_frame(&mut self, retries: u32, waited: u64)
        ensures
            final(self).start == old(self).start,
            final(self).debug == old(self).debug,
            final(self).frames == old(self).frames,
            final(self).acquire_stalls == old(self).acquire_stalls,
            final(self).acquire_wait == old(self).acquire_wait,
            final(self).blt_us == old(self).blt_us,
            final(self).begin_retries == topped(
                old(self).begin_retries as int,
                retries as int,
                u32::MAX as int,
            ),
            final(self).begin_wait == topped(
                old(self).begin_wait as int,
                waited as int,
                u64::MAX as int,
            ),
            old(self).begin_retries + retries <= u32::MAX ==> final(self).begin_retries == old(
                self,
            ).begin_retries + retries,
            old(self).begin_wait + waited <= u64::MAX ==> final(self).begin_wait == old(
                self,
            ).begin_wait + waited,
    {
        self.begin_retries = self.begin_retries.saturating_add(retries);
        self.begin_wait = self.begin_wait.saturating_add(waited);
    }

    /// Whether the window is over: a second passed and a frame went through it.
    pub open spec fn is_due(self, now: u64) -> bool {
        self.frames > 0 && now - self.start >= 1_000_000_000
    }

    /// Close the window if it is over, and start the next.
    pub fn flush_if_due(&mut self, now: u64) -> (r: Option<HandoffReport>)
        ensures
            match r {
                Some(w) => {
                    &&& old(self).is_due(now)
                    &&& w.frames == old(self).frames
                    &&& w.blt_us@ == old(self).blt_us@
                    &&& w.acquire_stalls == old(self).acquire_stalls
                    &&& w.acquire_wait_us == old(self).acquire_wait / 1000
                    &&& w.begin_retries == old(self).begin_retries
                    &&& w.begin_wait_us == old(self).begin_wait / 1000
                    &&& w.loud == (old(self).debug || old(self).begin_retries > 0 || old(
                        self,
                    ).acquire_stalls > 0)
                    &&& final(self).start == now
                    &&& final(self).frames == 0
                    &&& final(self).acquire_stalls == 0
                    &&& final(self).acquire_wait == 0
                    &&& final(self).begin_retries == 0
                    &&& final(self).begin_wait == 0
                    &&& final(self).blt_us@.len() == 0
                    &&& final(self).debug == old(self).debug
                },
                None => !old(self).is_due(now) && *final(self) == *old(self),
            },
            r is Some <==> old(self).frames > 0 && now >= old(self).start + 1_000_000_000,
    {
        if self.frames == 0 || now.saturating_sub(self.start) < 1_000_000_000 {
            return None;
        }
        let mut samples: Vec<u32> = Vec::new();
        std::mem::swap(&mut samples, &mut self.blt_us);
        let r = HandoffReport {
            frames: self.frames,
            blt_us: samples,
            acquire_stalls: self.acquire_stalls,
            acquire_wait_us: self.acquire_wait / 1000,
            begin_retries: self.begin_retries,
            begin_wait_us: self.begin_wait / 1000,
            loud: self.debug || self.begin_retries > 0 || self.acquire_stalls > 0,
        };
        self.start = now;
        self.frames = 0;
        self.acquire_stalls = 0;
        self.acquire_wait = 0;
        self.begin_retries = 0;
        self.begin_wait = 0;
        Some(r)
    }
}

/// A graphics adapter.
#[derive(Clone, Copy, Debug, PartialEq, Eq)]
pub struct Adapter {
    /// A renderer in software, which cannot decode.
    pub software: bool,
    pub luid: [u8; 8],
}

fn same_luid(a: &[u8; 8], b: &[u8; 8]) -> (r: bool)
    ensures
        r == (a@ == b@),
{
    let mut i: usize = 0;
    while i < 8
        invariant
            i <= 8,
            a@.len() == 8,
            b@.len() == 8,
            forall|j: int| 0 <= j < i ==> a@[j] == b@[j],
        decreases 8 - i,
    {
        if a[i] != b[i] {
            return false;
        }
        i = i + 1;
    }
    assert(a@ =~= b@);
    true
}

/// The adapter to decode on: the first hardware one with the wanted id, else
/// the first hardware one.
pub open spec fn is_decode_adapter(
    adapters: Seq<Adapter>,
    want: Option<[u8; 8]>,
    r: Option<usize>,
) -> bool {
    let hits = |i: int|
        0 <= i < adapters.len() && !adapters[i].software && want is Some && adapters[i].luid@
            == want->Some_0@;
    match r {
        Some(k) => {
            &&& k < adapters.len()
            &&& !adapters[k as int].software
            &&& if hits(k as int) {
                forall|j: int| 0 <= j < k ==> !#[trigger] hits(j)
            } else {
                &&& forall|j: int| !#[trigger] hits(j)
                &&& forall|j: int| 0 <= j < k ==> (#[trigger] adapters[j]).software
            }
        },
        None => forall|j: int| 0 <= j < adapters.len() ==> (#[trigger] adapters[j]).software,
    }
}

/// The adapter to decode on: the presenter's, so that shared surfaces stay on one card, else
/// the first hardware one. A machine that renders in software has none.
pub fn choose_adapter(adapters: &Vec<Adapter>, want: Option<[u8; 8]>) -> (r: Option<usize>)
    ensures
        is_decode_adapter(adapters@, want, r),
        r is None <==> forall|j: int| 0 <= j < adapters@.len() ==> (#[trigger] adapters@[j]).software,
        r matches Some(k) ==> k < adapters@.len() && !adapters@[k as int].software,
        r matches Some(k) ==> forall|j: int|
            0 <= j < k && !(#[trigger] adapters@[j]).software ==> want is Some
                && adapters@[k as int].luid@ == want->Some_0@ && adapters@[j].luid@
                != want->Some_0@,
        r matches Some(k) ==> forall|j: int|
            k < j < adapters@.len() && !(#[trigger] adapters@[j]).software && want is Some
                && adapters@[j].luid@ == want->Some_0@ ==> adapters@[k as int].luid@
                == want->Some_0@,
{
    let mut fallback: Option<usize> = None;
    let mut i: usize = 0;
    while i < adapters.len()
        invariant
            i <= adapters@.len(),
            forall|j: int|
                0 <= j < i ==> (#[trigger] adapters@[j]).software || want is None
                    || adapters@[j].luid@ != want->Some_0@,
            match fallback {
                Some(k) => k < i && !adapters@[k as int].software && forall|j: int|
                    0 <= j < k ==> (#[trigger] adapters@[j]).software,
                None => forall|j: int| 0 <= j < i ==> (#[trigger] adapters@[j]).software,
            },
        decreases adapters@.len() - i,
    {
        if !adapters[i].software {
            if fallback.is_none() {
                fallback = Some(i);
            }
            match want {
                Some(luid) => {
                    if same_luid(&adapters[i].luid, &luid) {
                        return Some(i);
                    }
                },
                None => {},
            }
        }
        i = i + 1;
    }
    fallback
}

/// The first adapter with an id.
pub fn adapter_of_luid(adapters: &Vec<Adapter>, luid: &[u8; 8]) -> (r: Option<usize>)
    ensures
        match r {
            Some(k) => k < adapters@.len() && adapters@[k as int].luid@ == luid@ && forall|j: int|
                0 <= j < k ==> (#[trigger] adapters@[j]).luid@ != luid@,
            None => forall|j: int|
                0 <= j < adapters@.len() ==> (#[trigger] adapters@[j]).luid@ != luid@,
        },
{
    let mut i: usize = 0;
    while i < adapters.len()
        invariant
            i <= adapters@.len(),
            forall|j: int| 0 <= j < i ==> (#[trigger] adapters@[j]).luid@ != luid@,
        decreases adapters@.len() - i,
    {
        if same_luid(&adapters[i].luid, luid) {
            return Some(i);
        }
        i = i + 1;
    }
    None
}

/// A screen's place on the desktop.
#[derive(Clone, Copy, Debug, PartialEq, Eq, Structural)]
pub struct ScreenRect {
    pub left: i32,
    pub right: i32,
    pub top: i32,
    pub bottom: i32,
}

impl ScreenRect {
    /// Whether a point is on the screen.
    pub open spec fn contains(self, x: i32, y: i32) -> bool {
        self.left <= x < self.right && self.top <= y < self.bottom
    }

    fn holds(&self, x: i32, y: i32) -> (r: bool)
        ensures
            r == self.contains(x, y),
            r == (self.left <= x && x < self.right && self.top <= y && y < self.bottom),
    {
        x >= self.left && x < self.right && y >= self.top && y < self.bottom
    }
}

/// The screen at the desktop's origin: the last that contains it, else the first.
pub open spec fn origin_screen(screens: Seq<ScreenRect>) -> Option<int>
    decreases screens.len(),
{
    if screens.len() == 0 {
        None
    } else if screens.last().contains(0, 0) || screens.len() == 1 {
        Some(screens.len() - 1)
    } else {
        origin_screen(screens.drop_last())
    }
}

/// The screen whose colours are told to the host: the first that contains the window, else
/// the one at the desktop's origin.
pub fn choose_screen(screens: &Vec<ScreenRect>, pos: Option<(i32, i32)>) -> (r: Option<usize>)
    ensures
        match r {
            Some(k) => {
                &&& k < screens@.len()
                &&& if pos is Some && screens@[k as int].contains(
                    pos->Some_0.0,
                    pos->Some_0.1,
                ) {
                    forall|j: int|
                        0 <= j < k ==> !(#[trigger] screens@[j]).contains(
                            pos->Some_0.0,
                            pos->Some_0.1,
                        )
                } else {
                    &&& pos matches Some(p) ==> forall|j: int|
                        0 <= j < screens@.len() ==> !(#[trigger] screens@[j]).contains(p.0, p.1)
                    &&& origin_screen(screens@) == Some(k as int)
                }
            },
            None => screens@.len() == 0,
        },
        pos is None && r is Some ==> ({
            let k = r->Some_0 as int;
            let at_origin = |j: int|
                screens@[j].left <= 0 && 0 < screens@[j].right && screens@[j].top <= 0 && 0
                    < screens@[j].bottom;
            &&& forall|j: int| k < j < screens@.len() ==> !#[trigger] at_origin(j)
            &&& at_origin(k) || k == 0
        }),
{
    let mut fallback: Option<usize> = None;
    let mut i: usize = 0;
    while i < screens.len()
        invariant
            i <= screens@.len(),
            pos matches Some(p) ==> forall|j: int|
                0 <= j < i ==> !(#[trigger] screens@[j]).contains(p.0, p.1),
            match fallback {
                Some(k) => k < i && origin_screen(screens@.take(i as int)) == Some(k as int) && (
                screens@[k as int].contains(0, 0) || k == 0) && forall|j: int|
                    k < j < i ==> !(#[trigger] screens@[j]).contains(0, 0),
                None => i == 0,
            },
        decreases screens@.len() - i,
    {
        match pos {
            Some((x, y)) => {
                if screens[i].holds(x, y) {
                    return Some(i);
                }
            },
            None => {},
        }
        assert(screens@.take(i + 1).drop_last() =~= screens@.take(i as int));
        assert(screens@.take(i + 1).last() == screens@[i as int]);
        if fallback.is_none() || screens[i].holds(0, 0) {
            fallback = Some(i);
        }
        i = i + 1;
    }
    assert(screens@.take(i as int) =~= screens@);
    fallback
}

} // verus!
