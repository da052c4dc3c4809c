//! Decoded pictures on their way to the presenter, and what each rung knows of them.

use vstd::prelude::*;
use crate::handoff::D3d11Frame;
use crate::planar::CpuPlanarFrame;
use crate::wire::TRANSFER_PQ;

verus! {

/// Colour signalling as H.273 code points.
#[derive(Debug, Clone, Copy, PartialEq, Eq, Structural)]
pub struct ColorDesc {
    pub primaries: u8,
    pub transfer: u8,
    pub matrix: u8,
    pub full_range: bool,
}

impl ColorDesc {
    /// Whether the transfer is PQ.
    pub open spec fn spec_pq(self) -> bool {
        self.transfer == TRANSFER_PQ
    }

    /// Whether the transfer is PQ.
    pub fn is_pq(&self) -> (r: bool)
        ensures
            r == self.spec_pq(),
            r == (self.transfer == 16),
    {
        self.transfer == TRANSFER_PQ
    }
}

/// An intra-refresh recovery the stream itself signalled, as the freeze gate's code for it.
#[derive(Debug, Clone, Copy, PartialEq, Eq, Structural)]
pub struct LocalRecovery {
    pub code: u32,
}

impl LocalRecovery {
    /// No recovery signalled.
    pub open spec fn spec_none() -> LocalRecovery {
        LocalRecovery { code: 0 }
    }

    /// No recovery signalled.
    pub fn none() -> (r: LocalRecovery)
        ensures
            r == Self::spec_none(),
            r.code == 0,
    {
        LocalRecovery { code: 0 }
    }
}

/// What a rung says of a host's recovery anchor. Silence is not refutation.
#[derive(Debug, Clone, Copy, PartialEq, Eq, Structural)]
pub enum AnchorEvidence {
    Unavailable,
    ReferencesClean,
    ReferencesDamaged,
}

/// Raw `VkFormat` code point. A type of its own: a frame carries other 32-bit numbers too.
#[derive(Debug, Clone, Copy, PartialEq, Eq, Hash)]
pub struct RawVkFormat(pub i32);

/// Layout a decoded layer is in when its semaphore signals.
#[derive(Debug, Clone, Copy, PartialEq, Eq, Structural)]
pub enum NativeVkLayout {
    /// The next decode into this slot discards the layer.
    DecodeDst,
    /// A reference slot, possibly still live: whoever samples it restores the layout.
    DecodeDpb,
}

/// What a presented or dropped frame hands back to the decoder.
#[derive(Debug, Clone, Copy, PartialEq, Eq, Structural)]
pub struct NativeReleaseToken {
    pub seq: u64,
    pub generation: u64,
    /// The sampling submit, with its timeline signal, was enqueued.
    pub presented: bool,
}

/// Holds a frame's release token until it is handed back, once. It has no copies, so nobody
/// else can hand the same token back.
#[derive(Debug, PartialEq, Eq)]
pub struct NativeReleaseGuard {
    token: Option<NativeReleaseToken>,
}

impl NativeReleaseGuard {
    /// The token still owed to the decoder.
    pub closed spec fn owed(self) -> Option<NativeReleaseToken> {
        self.token
    }

    /// A guard that owes this token.
    pub fn new(token: NativeReleaseToken) -> (g: NativeReleaseGuard)
        ensures
            g.owed() == Some(token),
    {
        NativeReleaseGuard { token: Some(token) }
    }

    /// The sampling submit was enqueued, so the decoder waits for its write-back.
    pub fn mark_presented(&mut self)
        ensures
            final(self).owed() == (match old(self).owed() {
                Some(t) => Some(NativeReleaseToken { presented: true, ..t }),
                None => None,
            }),
    {
        match self.token {
            Some(t) => {
                self.token = Some(
                    NativeReleaseToken { seq: t.seq, generation: t.generation, presented: true },
                );
            },
            None => {},
        }
    }

    /// Hand the token back. A second call has nothing to hand back.
    pub fn release(&mut self) -> (r: Option<NativeReleaseToken>)
        ensures
            r == old(self).owed(),
            final(self).owed() is None,
    {
        let t = self.token;
        self.token = None;
        t
    }
}

/// One natively decoded frame on the presenter's device. Handles are raw values.
pub struct NativeVkFrame {
    pub image: u64,
    /// What the image was created with; never inferred from the codec.
    pub vk_format: RawVkFormat,
    pub plane_views: [u64; 2],
    pub layer: u32,
    pub layout: NativeVkLayout,
    pub semaphore: u64,
    pub semaphore_value: u64,
    pub generation: u64,
    /// Display size.
    pub width: u32,
    pub height: u32,
    /// Allocated size, at least the display size.
    pub coded_width: u32,
    pub coded_height: u32,
    pub crop_x: u32,
    pub crop_y: u32,
    pub color: ColorDesc,
    pub keyframe: bool,
    pub poc: i32,
    pub recovery: LocalRecovery,
    pub references_clean: bool,
    /// Strictly increasing over a session.
    pub decode_order: u64,
    pub guard: NativeReleaseGuard,
}

/// A surface's ticket back to its decoder's pool, good until the frame is dropped.
#[derive(Debug, PartialEq, Eq)]
pub struct DrmFrameGuard(pub u64);

/// One plane of an exported surface.
#[derive(Debug, Clone, Copy, PartialEq, Eq, Structural)]
pub struct DmabufPlane {
    pub fd: i32,
    pub offset: u32,
    pub stride: u32,
}

/// A VAAPI surface exported for the presenter to import.
pub struct DmabufFrame {
    pub width: u32,
    pub height: u32,
    pub coded_width: u32,
    pub coded_height: u32,
    pub fourcc: u32,
    pub modifier: u64,
    pub planes: Vec<DmabufPlane>,
    pub color: ColorDesc,
    pub keyframe: bool,
    pub references_clean: bool,
    /// The decode's write fences. Empty means the decoder already waited.
    pub sync_fds: Vec<i32>,
    /// Identity of the surface over the pool's life; the high half changes with the pool.
    pub pool_key: u64,
    pub guard: DrmFrameGuard,
}

/// A PyroWave picture: three plane views on the presenter's device.
pub struct PyroWavePlanarFrame {
    pub width: u32,
    pub height: u32,
    pub plane_views: [u64; 3],
    pub color: ColorDesc,
    pub keyframe: bool,
}

/// A decoded picture.
pub enum DecodedImage {
    Cpu(CpuPlanarFrame),
    NativeDmabuf(DmabufFrame),
    D3d11(D3d11Frame),
    PyroWave(PyroWavePlanarFrame),
    NativeVk(NativeVkFrame),
}

/// One decoded frame with its capture and decode stamps.
pub struct DecodedFrame {
    /// Host-clock capture time.
    pub pts_ns: u64,
    /// Local time the decoder emitted this image.
    pub decoded_ns: u64,
    pub image: DecodedImage,
}

impl DecodedImage {
    /// Intra keyframe: the re-anchor after a loss. Not an intra-refresh recovery point.
    pub fn is_keyframe(&self) -> (r: bool)
        ensures
            r == (match *self {
                DecodedImage::Cpu(f) => f.keyframe,
                DecodedImage::NativeDmabuf(f) => f.keyframe,
                DecodedImage::D3d11(f) => f.keyframe,
                DecodedImage::PyroWave(f) => f.keyframe,
                DecodedImage::NativeVk(f) => f.keyframe,
            }),
    {
        match self {
            DecodedImage::Cpu(f) => f.keyframe,
            DecodedImage::NativeDmabuf(f) => f.keyframe,
            DecodedImage::D3d11(f) => f.keyframe,
            DecodedImage::PyroWave(f) => f.keyframe,
            DecodedImage::NativeVk(f) => f.keyframe,
        }
    }

    /// Intra-refresh recovery. Only rungs with a parser of their own answer.
    pub fn local_recovery(&self) -> (r: LocalRecovery)
        ensures
            r == (match *self {
                DecodedImage::NativeVk(f) => f.recovery,
                DecodedImage::Cpu(f) => f.recovery,
                _ => LocalRecovery::spec_none(),
            }),
            !(*self is NativeVk || *self is Cpu) ==> r.code == 0,
    {
        match self {
            DecodedImage::NativeVk(f) => f.recovery,
            DecodedImage::Cpu(f) => f.recovery,
            _ => LocalRecovery::none(),
        }
    }

    /// Corroboration for a host's recovery anchor. Only a rung that planned the picture knows
    /// its references.
    pub fn anchor_evidence(&self) -> (r: AnchorEvidence)
        ensures
            r == (match *self {
                DecodedImage::NativeVk(f) => evidence_of(f.references_clean),
                DecodedImage::NativeDmabuf(f) => evidence_of(f.references_clean),
                DecodedImage::D3d11(f) => evidence_of(f.references_clean),
                _ => AnchorEvidence::Unavailable,
            }),
            r == AnchorEvidence::ReferencesClean <==> (match *self {
                DecodedImage::NativeVk(f) => f.references_clean,
                DecodedImage::NativeDmabuf(f) => f.references_clean,
                DecodedImage::D3d11(f) => f.references_clean,
                _ => false,
            }),
            r == AnchorEvidence::Unavailable <==> *self is Cpu || *self is PyroWave,
    {
        let clean: bool = match self {
            DecodedImage::NativeVk(f) => f.references_clean,
            DecodedImage::NativeDmabuf(f) => f.references_clean,
            DecodedImage::D3d11(f) => f.references_clean,
            _ => {
                return AnchorEvidence::Unavailable;
            },
        };
        if clean {
            AnchorEvidence::ReferencesClean
        } else {
            AnchorEvidence::ReferencesDamaged
        }
    }

    /// Decode-order ordinal where the rung knows one.
    pub fn decode_order(&self) -> (r: Option<u64>)
        ensures
            r == (match *self {
                DecodedImage::NativeVk(f) => Some(f.decode_order),
                _ => None,
            }),
    {
        match self {
            DecodedImage::NativeVk(f) => Some(f.decode_order),
            _ => None,
        }
    }

    /// Display size in pixels.
    pub fn dimensions(&self) -> (r: (u32, u32))
        ensures
            r == (match *self {
                DecodedImage::Cpu(f) => (f.width, f.height),
                DecodedImage::NativeDmabuf(f) => (f.width, f.height),
                DecodedImage::D3d11(f) => (f.width, f.height),
                DecodedImage::PyroWave(f) => (f.width, f.height),
                DecodedImage::NativeVk(f) => (f.width, f.height),
            }),
    {
        match self {
            DecodedImage::Cpu(f) => (f.width, f.height),
            DecodedImage::NativeDmabuf(f) => (f.width, f.height),
            DecodedImage::D3d11(f) => (f.width, f.height),
            DecodedImage::PyroWave(f) => (f.width, f.height),
            DecodedImage::NativeVk(f) => (f.width, f.height),
        }
    }

    /// The decode path's name in statistics.
    pub fn path_tag(&self) -> (r: &'static str)
        ensures
            r@ == (match *self {
                DecodedImage::Cpu(_) => "software"@,
                DecodedImage::NativeDmabuf(_) => "native-vaapi"@,
                DecodedImage::D3d11(_) => "native-d3d11va"@,
                DecodedImage::PyroWave(_) => "pyrowave"@,
                DecodedImage::NativeVk(_) => "native-vulkan"@,
            }),
    {
        match self {
            DecodedImage::Cpu(_) => "software",
            DecodedImage::NativeDmabuf(_) => "native-vaapi",
            DecodedImage::D3d11(_) => "native-d3d11va",
            DecodedImage::PyroWave(_) => "pyrowave",
            DecodedImage::NativeVk(_) => "native-vulkan",
        }
    }

    /// The semaphore and value that mark the decode's end, where it runs on after the picture
    /// is handed over.
    pub fn hw_fence(&self) -> (r: Option<(u64, u64)>)
        ensures
            r == (match *self {
                DecodedImage::NativeVk(f) => Some((f.semaphore, f.semaphore_value)),
                _ => None,
            }),
    {
        match self {
            DecodedImage::NativeVk(f) => Some((f.semaphore, f.semaphore_value)),
            _ => None,
        }
    }
}

/// Evidence from a reference chain.
pub open spec fn evidence_of(clean: bool) -> AnchorEvidence {
    if clean {
        AnchorEvidence::ReferencesClean
    } else {
        AnchorEvidence::ReferencesDamaged
    }
}

} // verus!
