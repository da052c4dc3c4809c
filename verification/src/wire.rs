//! Code points this client exchanges with a host, and the bit facts about them.

use vstd::prelude::*;

verus! {

/// H.264, as a codec bit.
pub const CODEC_H264: u8 = 1;

/// HEVC, as a codec bit.
pub const CODEC_HEVC: u8 = 2;

/// AV1, as a codec bit.
pub const CODEC_AV1: u8 = 4;

/// PyroWave, as a codec bit. A host picks it only when the client names it.
pub const CODEC_PYROWAVE: u8 = 8;

/// 10-bit video, as a capability bit.
pub const VIDEO_CAP_10BIT: u8 = 1;

/// PQ video, as a capability bit.
pub const VIDEO_CAP_HDR: u8 = 2;

/// 4:4:4 chroma, as a capability bit.
pub const VIDEO_CAP_444: u8 = 4;

/// Several slices per picture, as a capability bit.
pub const VIDEO_CAP_MULTI_SLICE: u8 = 8;

/// The client draws the host's cursor.
pub const CLIENT_CAP_CURSOR: u8 = 1;

/// The client reports its panel's latch grid.
pub const CLIENT_CAP_PHASE_LOCK: u8 = 2;

/// The client renders a controller's audio streams.
pub const CLIENT_CAP_PAD_AUDIO: u8 = 4;

/// The host keeps its own playback device.
pub const CLIENT_CAP_KEEP_HOST_AUDIO: u8 = 8;

/// The Opus audio plane.
pub const AUDIO_CODEC_OPUS: u8 = 0;

/// The lossless audio plane.
pub const AUDIO_CODEC_PCM: u8 = 1;

/// Opus runs at this rate and no other.
pub const SAMPLE_RATE_HZ: u32 = 48_000;

/// One Opus frame.
pub const OPUS_FRAME_US: u32 = 5_000;

/// PQ transfer (SMPTE ST 2084), as an H.273 code point.
pub const TRANSFER_PQ: u8 = 16;

/// NVIDIA, as a PCI vendor id.
pub const VENDOR_NVIDIA: u32 = 0x10de;

/// AMD, as a PCI vendor id.
pub const VENDOR_AMD: u32 = 0x1002;

/// Intel, as a PCI vendor id.
pub const VENDOR_INTEL: u32 = 0x8086;

/// Vulkan Video decodes H.264 (`VK_VIDEO_CODEC_OPERATION_DECODE_H264_BIT_KHR`).
pub const VIDEO_CODEC_OP_DECODE_H264: u32 = 1;

/// Vulkan Video decodes H.265 (`VK_VIDEO_CODEC_OPERATION_DECODE_H265_BIT_KHR`).
pub const VIDEO_CODEC_OP_DECODE_H265: u32 = 2;

/// Vulkan Video decodes AV1 (`VK_VIDEO_CODEC_OPERATION_DECODE_AV1_BIT_KHR`).
pub const VIDEO_CODEC_OP_DECODE_AV1: u32 = 4;

/// Whether `mask` holds any bit of `bit`.
pub open spec fn has8(mask: u8, bit: u8) -> bool {
    mask & bit != 0
}

/// Whether `mask` holds any bit of `bit`.
pub open spec fn has32(mask: u32, bit: u32) -> bool {
    mask & bit != 0
}

/// A mask of four independent switches.
pub open spec fn mask4(b0: bool, b1: bool, b2: bool, b3: bool) -> u8 {
    ((if b0 { 1int } else { 0 }) + (if b1 { 2int } else { 0 }) + (if b2 { 4int } else { 0 }) + (if b3 {
        8int
    } else {
        0
    })) as u8
}

/// The bits of four independent switches, and no other bit.
pub proof fn mask4_bits(b0: bool, b1: bool, b2: bool, b3: bool)
    ensures
        has8(mask4(b0, b1, b2, b3), 1) == b0,
        has8(mask4(b0, b1, b2, b3), 2) == b1,
        has8(mask4(b0, b1, b2, b3), 4) == b2,
        has8(mask4(b0, b1, b2, b3), 8) == b3,
        mask4(b0, b1, b2, b3) < 16,
{
    let m: u8 = mask4(b0, b1, b2, b3);
    let a: u8 = if b0 { 1 } else { 0 };
    let b: u8 = if b1 { 2 } else { 0 };
    let c: u8 = if b2 { 4 } else { 0 };
    let d: u8 = if b3 { 8 } else { 0 };
    assert((m & 1 != 0) == (a == 1) && (m & 2 != 0) == (b == 2) && (m & 4 != 0) == (c == 4) && (m
        & 8 != 0) == (d == 8)) by (bit_vector)
        requires
            m == a + b + c + d,
            a == 0 || a == 1,
            b == 0 || b == 2,
            c == 0 || c == 4,
            d == 0 || d == 8,
    ;
}

/// Builds a mask of four independent switches.
pub fn make_mask4(b0: bool, b1: bool, b2: bool, b3: bool) -> (m: u8)
    ensures
        m == mask4(b0, b1, b2, b3),
{
    let a: u8 = if b0 { 1 } else { 0 };
    let b: u8 = if b1 { 2 } else { 0 };
    let c: u8 = if b2 { 4 } else { 0 };
    let d: u8 = if b3 { 8 } else { 0 };
    a + b + c + d
}

/// Taking a part of a mask out of it leaves the rest, and taking the rest out leaves the part.
pub proof fn excluding_the_rest_leaves_the_part(whole: u8, keep: u8, drop: u8)
    requires
        keep & !whole == 0,
        keep & drop == 0,
    ensures
        whole & !(whole & !keep) == keep,
        keep & drop == 0,
{
    assert(whole & !(whole & !keep) == keep) by (bit_vector)
        requires
            keep & !whole == 0,
    ;
}

} // verus!
