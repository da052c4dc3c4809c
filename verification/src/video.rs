//! Which decode rungs this device has, which codecs it may promise a host, and what happens
//! when the last rung runs out.

use vstd::prelude::*;
use crate::text::{decimal, join, same, to_decimal, trim, trimmed};
use crate::wire::{
    excluding_the_rest_leaves_the_part, has32, has8, make_mask4, mask4, mask4_bits, CODEC_AV1,
    CODEC_H264, CODEC_HEVC, CODEC_PYROWAVE, VENDOR_AMD, VENDOR_INTEL, VENDOR_NVIDIA,
    VIDEO_CODEC_OP_DECODE_AV1, VIDEO_CODEC_OP_DECODE_H264, VIDEO_CODEC_OP_DECODE_H265,
};

verus! {

/// The desktop this client runs on. It decides which platform rung exists.
#[derive(Debug, Clone, Copy, PartialEq, Eq, Structural)]
pub enum Platform {
    /// VAAPI is the platform rung.
    Linux,
    /// D3D11VA is the platform rung.
    Windows,
}

/// What the presenter's device can do, as far as choosing a decoder depends on it.
#[derive(Debug, Clone, Copy, PartialEq, Eq)]
pub struct VulkanDecodeDevice {
    pub vendor_id: u32,
    /// The decode family runs Vulkan Video.
    pub video_decode: bool,
    /// Codec operations the decode family advertises.
    pub decode_video_caps: u32,
    /// The compute probe for PyroWave passed.
    pub pyrowave_decode: bool,
    /// The device reports when a picture reached the glass.
    pub present_timing: bool,
    /// The device imports D3D11 textures.
    pub d3d11_import: bool,
    /// The device imports dma-bufs.
    pub dmabuf_import: bool,
    /// The VAAPI node on this adapter decodes AV1.
    pub vaapi_av1_decode: bool,
    /// The device shows a PQ D3D11 texture as HDR10.
    pub d3d11_hdr10: bool,
    pub d3d11_nv12: bool,
    pub d3d11_p010: bool,
    /// The device decodes HEVC 4:4:4 at 8 bits.
    pub hevc_444_8: bool,
    /// The device decodes HEVC 4:4:4 at 10 bits.
    pub hevc_444_10: bool,
    pub adapter_luid: Option<[u8; 8]>,
}

impl VulkanDecodeDevice {
    /// Whether automatic choice tries Vulkan Video before the platform rung.
    pub open spec fn vulkan_first(self) -> bool {
        self.vendor_id == VENDOR_NVIDIA || self.vendor_id == VENDOR_AMD
    }

    /// Whether automatic choice tries Vulkan Video before the platform rung: NVIDIA and AMD.
    pub fn prefer_vulkan_first(&self) -> (r: bool)
        ensures
            r == self.vulkan_first(),
            r == (self.vendor_id == 0x10de || self.vendor_id == 0x1002),
    {
        self.vendor_id == VENDOR_NVIDIA || self.vendor_id == VENDOR_AMD
    }
}

/// A decoder implementation for one codec.
#[derive(Debug, Clone, Copy, PartialEq, Eq, Structural)]
pub enum NativeCodec {
    H264,
    H265,
    Av1,
}

/// The decoder a wire codec needs and the Vulkan codec operation that goes with it.
pub open spec fn codec_of(wire: u8) -> Option<(NativeCodec, u32)> {
    if wire == CODEC_H264 {
        Some((NativeCodec::H264, VIDEO_CODEC_OP_DECODE_H264))
    } else if wire == CODEC_HEVC {
        Some((NativeCodec::H265, VIDEO_CODEC_OP_DECODE_H265))
    } else if wire == CODEC_AV1 {
        Some((NativeCodec::Av1, VIDEO_CODEC_OP_DECODE_AV1))
    } else {
        None
    }
}

/// Native decoder for a wire codec plus the operation the decode family must advertise.
/// Returned together: splitting them admits a codec on a family that cannot run it.
pub fn native_codec(wire: u8) -> (r: Option<(NativeCodec, u32)>)
    ensures
        r == codec_of(wire),
        wire == 1 ==> r == Some((NativeCodec::H264, 1u32)),
        wire == 2 ==> r == Some((NativeCodec::H265, 2u32)),
        wire == 4 ==> r == Some((NativeCodec::Av1, 4u32)),
        (r is Some) == (wire == 1 || wire == 2 || wire == 4),
{
    match wire {
        CODEC_H264 => Some((NativeCodec::H264, VIDEO_CODEC_OP_DECODE_H264)),
        CODEC_HEVC => Some((NativeCodec::H265, VIDEO_CODEC_OP_DECODE_H265)),
        CODEC_AV1 => Some((NativeCodec::Av1, VIDEO_CODEC_OP_DECODE_AV1)),
        _ => None,
    }
}

/// Whether automatic choice may enter the VAAPI rung with this presenter.
pub open spec fn vaapi_allowed(vk: Option<VulkanDecodeDevice>) -> bool {
    match vk {
        Some(v) => v.dmabuf_import && v.vendor_id != VENDOR_NVIDIA,
        None => true,
    }
}

/// May automatic choice enter the VAAPI rung with this presenter? The device must import
/// dma-bufs and must not be NVIDIA. A pin bypasses this; no presenter is no reason to refuse.
pub fn vaapi_auto_ok(vk: Option<&VulkanDecodeDevice>) -> (r: bool)
    ensures
        r == vaapi_allowed(opt_device(vk)),
        vk is None ==> r,
        vk is Some ==> r == (vk->Some_0.dmabuf_import && vk->Some_0.vendor_id != 0x10de),
{
    match vk {
        Some(v) => v.dmabuf_import && v.vendor_id != VENDOR_NVIDIA,
        None => true,
    }
}

/// The device behind an optional reference.
pub open spec fn opt_device(vk: Option<&VulkanDecodeDevice>) -> Option<VulkanDecodeDevice> {
    match vk {
        Some(v) => Some(*v),
        None => None,
    }
}

/// One decode rung.
#[derive(Debug, Clone, Copy, PartialEq, Eq, Structural)]
pub enum NativeRung {
    /// Vulkan Video on the presenter's device.
    Vulkan,
    /// D3D11VA, on Windows.
    D3d11va,
    /// VAAPI, on Linux.
    Vaapi,
    /// The CPU decoders.
    Software,
}

impl NativeRung {
    /// A rung's name in logs, pins and statistics.
    pub open spec fn spec_name(self) -> Seq<char> {
        match self {
            NativeRung::Vulkan => "native-vulkan"@,
            NativeRung::D3d11va => "native-d3d11va"@,
            NativeRung::Vaapi => "native-vaapi"@,
            NativeRung::Software => "software"@,
        }
    }

    /// A rung's name in logs, pins and statistics.
    pub fn name(self) -> (r: &'static str)
        ensures
            r@ == self.spec_name(),
            self == NativeRung::Vulkan ==> r@ == "native-vulkan"@,
            self == NativeRung::D3d11va ==> r@ == "native-d3d11va"@,
            self == NativeRung::Vaapi ==> r@ == "native-vaapi"@,
            self == NativeRung::Software ==> r@ == "software"@,
    {
        match self {
            NativeRung::Vulkan => "native-vulkan",
            NativeRung::D3d11va => "native-d3d11va",
            NativeRung::Vaapi => "native-vaapi",
            NativeRung::Software => "software",
        }
    }
}

/// Evidence for automatic rung ordering.
#[derive(Debug, Clone, Copy, PartialEq, Eq)]
pub struct RungEvidence {
    /// Whether automatic choice may put this pair before a usable rung below it.
    pub verified: bool,
    /// Hardware coverage and its remaining gap, said verbatim in the session log.
    pub note: &'static str,
}

/// The rung and codec pairs whose coverage meets the bar.
pub open spec fn proven(rung: NativeRung, wire: u8) -> bool {
    &&& rung == NativeRung::Vulkan || rung == NativeRung::D3d11va
    &&& wire == CODEC_H264 || wire == CODEC_HEVC || wire == CODEC_AV1
}

/// What a pair's evidence says.
pub open spec fn evidence_note(rung: NativeRung, wire: u8) -> Seq<char> {
    match rung {
        NativeRung::Vulkan => if wire == CODEC_H264 {
            "bit-exact vs libavcodec, 250/250 AUs on three drivers + 92-min soak (M2 WP-D)"@
        } else if wire == CODEC_HEVC {
            "bit-exact vs libavcodec incl. Main10/4:4:4, three drivers + HDR and Deck legs (M3)"@
        } else if wire == CODEC_AV1 {
            "250/250 bit-identical to libavcodec on an RTX 5070 Ti (M7) - one vendor, no soak"@
        } else {
            "no hardware run recorded for this rung and codec"@
        },
        NativeRung::D3d11va => if wire == CODEC_H264 || wire == CODEC_HEVC {
            "frame-hash parity on an RTX 4090 and an AMD iGPU + 30-min soak (M5)"@
        } else if wire == CODEC_AV1 {
            "250/250 delivered frames bit-identical to libavcodec on an RTX 3500 Ada AND an Intel Arc (2026-08-07), after fixing a decode target that aliased a reference surface on 268 of 274 frames - two vendors, no soak (M7)"@
        } else {
            "no hardware run recorded for this rung and codec"@
        },
        NativeRung::Vaapi =>
            "7 legs bit-identical to libavcodec on RDNA3 (Mesa 26.0.3, 2026-08-08) and Intel Xe-LP (iHD 26.1.2, 2026-09-24) - H.264, H.265, HEVC Main 10 and AV1, on both the conformance vectors and our own host's low-delay streams - but never soaked, and `verified` here would move `auto` off Vulkan Video on every Linux AMD/Intel client (M6/M7)"@,
        NativeRung::Software => if wire == CODEC_H264 || wire == CODEC_AV1 {
            "openh264 has never run on glass; rav1d decodes 1080p and 4K60 AV1 there and survives a mid-stream reference loss, but has no parity check or soak (M8)"@
        } else {
            "no hardware run recorded for this rung and codec"@
        },
    }
}

/// Evidence table for automatic priority. An unknown pair is unverified: a new codec leg must
/// not inherit a neighbour's confidence.
pub fn native_evidence(rung: NativeRung, wire: u8) -> (r: RungEvidence)
    ensures
        r.verified == proven(rung, wire),
        r.note@ == evidence_note(rung, wire),
        rung == NativeRung::Vulkan || rung == NativeRung::D3d11va ==> r.verified == (wire == 1
            || wire == 2 || wire == 4),
        rung == NativeRung::Vaapi || rung == NativeRung::Software ==> !r.verified,
{
    match (rung, wire) {
        (NativeRung::Vulkan, CODEC_H264) => RungEvidence {
            verified: true,
            note: "bit-exact vs libavcodec, 250/250 AUs on three drivers + 92-min soak (M2 WP-D)",
        },
        (NativeRung::Vulkan, CODEC_HEVC) => RungEvidence {
            verified: true,
            note: "bit-exact vs libavcodec incl. Main10/4:4:4, three drivers + HDR and Deck legs (M3)",
        },
        (NativeRung::Vulkan, CODEC_AV1) => RungEvidence {
            verified: true,
            note: "250/250 bit-identical to libavcodec on an RTX 5070 Ti (M7) - one vendor, no soak",
        },
        (NativeRung::D3d11va, CODEC_H264 | CODEC_HEVC) => RungEvidence {
            verified: true,
            note: "frame-hash parity on an RTX 4090 and an AMD iGPU + 30-min soak (M5)",
        },
        (NativeRung::D3d11va, CODEC_AV1) => RungEvidence {
            verified: true,
            note: "250/250 delivered frames bit-identical to libavcodec on an RTX 3500 Ada AND an Intel Arc (2026-08-07), after fixing a decode target that aliased a reference surface on 268 of 274 frames - two vendors, no soak (M7)",
        },
        (NativeRung::Vaapi, _) => RungEvidence {
            verified: false,
            note: "7 legs bit-identical to libavcodec on RDNA3 (Mesa 26.0.3, 2026-08-08) and Intel Xe-LP (iHD 26.1.2, 2026-09-24) - H.264, H.265, HEVC Main 10 and AV1, on both the conformance vectors and our own host's low-delay streams - but never soaked, and `verified` here would move `auto` off Vulkan Video on every Linux AMD/Intel client (M6/M7)",
        },
        (NativeRung::Software, CODEC_H264 | CODEC_AV1) => RungEvidence {
            verified: false,
            note: "openh264 has never run on glass; rav1d decodes 1080p and 4K60 AV1 there and survives a mid-stream reference loss, but has no parity check or soak (M8)",
        },
        _ => RungEvidence {
            verified: false,
            note: "no hardware run recorded for this rung and codec",
        },
    }
}

/// Whether a device runs native Vulkan for a wire codec.
pub open spec fn vulkan_runs(wire: u8, video_decode: bool, caps: u32) -> bool {
    &&& codec_of(wire) is Some
    &&& video_decode
    &&& has32(caps, codec_of(wire)->Some_0.1)
}

/// Whether a decoder choice leaves the rung to the device.
pub open spec fn auto_family(choice: Seq<char>) -> bool {
    choice == "auto"@ || choice == ""@ || choice == "hardware"@
}

/// Can this device run native Vulkan for this wire codec?
pub fn native_vulkan_usable(wire: u8, video_decode: bool, decode_video_caps: u32) -> (r: bool)
    ensures
        r == vulkan_runs(wire, video_decode, decode_video_caps),
        r == (video_decode && (wire == 1 && decode_video_caps & 1 != 0 || wire == 2
            && decode_video_caps & 2 != 0 || wire == 4 && decode_video_caps & 4 != 0)),
{
    native_vulkan_gate("auto", wire, video_decode, decode_video_caps)
}

/// Native Vulkan admission: the choice is `native-vulkan` or leaves it open, the wire codec has
/// a native decoder, and the decode family advertises that codec's operation.
pub fn native_vulkan_gate(choice: &str, wire: u8, video_decode: bool, decode_video_caps: u32) -> (r:
    bool)
    ensures
        r == ((choice@ == "native-vulkan"@ || auto_family(choice@)) && vulkan_runs(
            wire,
            video_decode,
            decode_video_caps,
        )),
{
    match native_codec(wire) {
        None => false,
        Some((_, codec_op)) => {
            let chosen: bool = same(choice, "native-vulkan") || is_auto_family(choice);
            chosen && video_decode && decode_video_caps & codec_op != 0
        },
    }
}

/// Whether a decoder choice leaves the rung to the device.
pub fn is_auto_family(choice: &str) -> (r: bool)
    ensures
        r == auto_family(choice@),
        r == (choice@ == "auto"@ || choice@ == ""@ || choice@ == "hardware"@),
{
    same(choice, "auto") || same(choice, "") || same(choice, "hardware")
}

/// Whether automatic choice may take a rung with `below` usable under it.
pub open spec fn rung_admitted(rung: NativeRung, wire: u8, below: Option<NativeRung>) -> bool {
    proven(rung, wire) || !(below is Some && proven(below->Some_0, wire))
}

/// Whether automatic choice may take this rung for this codec. A proven rung always; an
/// unproven one yields only to a usable proven rung below it.
pub fn native_rung_admitted(rung: NativeRung, wire: u8, below: Option<NativeRung>) -> (r: bool)
    ensures
        r == rung_admitted(rung, wire, below),
{
    let under: bool = match below {
        Some(b) => native_evidence(b, wire).verified,
        None => false,
    };
    native_evidence(rung, wire).verified || !under
}

/// An unproven rung yields to a proven one and to nothing else; a proven one yields to nothing.
pub proof fn only_proof_makes_a_rung_yield(rung: NativeRung, wire: u8, below: Option<NativeRung>)
    ensures
        !rung_admitted(rung, wire, below) <==> !proven(rung, wire) && below is Some && proven(
            below->Some_0,
            wire,
        ),
        rung_admitted(rung, wire, None),
        rung_admitted(rung, wire, Some(NativeRung::Software)),
{
}

/// The name of a codec bit.
pub open spec fn codec_name(wire: u8) -> Seq<char> {
    if wire == CODEC_H264 {
        "H.264"@
    } else if wire == CODEC_HEVC {
        "HEVC"@
    } else if wire == CODEC_AV1 {
        "AV1"@
    } else if wire == CODEC_PYROWAVE {
        "PyroWave"@
    } else {
        "?"@
    }
}

/// Human name of a codec bit. `?` for an unknown bit: it must not print as a known codec.
pub fn wire_codec_name(wire: u8) -> (r: &'static str)
    ensures
        r@ == codec_name(wire),
        wire == 1 ==> r@ == "H.264"@,
        wire == 2 ==> r@ == "HEVC"@,
        wire == 4 ==> r@ == "AV1"@,
        wire == 8 ==> r@ == "PyroWave"@,
        wire != 1 && wire != 2 && wire != 4 && wire != 8 ==> r@ == "?"@,
{
    match wire {
        CODEC_H264 => "H.264",
        CODEC_HEVC => "HEVC",
        CODEC_AV1 => "AV1",
        CODEC_PYROWAVE => "PyroWave",
        _ => "?",
    }
}

/// The codecs with a CPU decoder: H.264 and AV1.
pub open spec fn cpu_codecs() -> u8 {
    5
}

/// The codecs a host picks without being told to: H.264, HEVC and AV1.
pub open spec fn pickable_codecs() -> u8 {
    7
}

/// Codec bits this build can decode on the CPU, the last rung: what a session is guaranteed
/// to finish.
pub fn software_decodable_codecs() -> (r: u8)
    ensures
        r == cpu_codecs(),
        r == mask4(true, false, true, false),
        r == 5,
{
    make_mask4(true, false, true, false)
}

/// Whether a wire codec has a CPU decoder.
pub fn has_software_rung(wire: u8) -> (r: bool)
    ensures
        r == (wire == CODEC_H264 || wire == CODEC_AV1),
{
    wire == CODEC_H264 || wire == CODEC_AV1
}

/// What to do when the last rung has no decoder for this codec.
#[derive(Debug, Clone, Copy, PartialEq, Eq, Structural)]
pub enum LastRungVerdict {
    /// Reconnect advertising these capabilities.
    Retry { caps: u8 },
    /// Nothing left to advertise.
    Dead,
}

/// Why the last rung had no answer.
#[derive(Debug, Clone, Copy, PartialEq, Eq, Structural)]
pub enum RungLoss {
    /// This codec has no CPU rung. A retry may only offer codecs that have one.
    Codec,
    /// The codec has a CPU rung; this picture shape is outside it.
    Shape,
}

/// What a retry could advertise.
pub open spec fn retry_set(negotiated: u8, advertised: u8, loss: RungLoss) -> u8 {
    match loss {
        RungLoss::Codec => advertised & !negotiated & cpu_codecs(),
        RungLoss::Shape => advertised & !negotiated,
    }
}

/// The answer for an exhausted codec.
pub open spec fn verdict(negotiated: u8, advertised: u8, loss: RungLoss) -> LastRungVerdict {
    let caps = retry_set(negotiated, advertised, loss);
    if has8(caps, pickable_codecs()) {
        LastRungVerdict::Retry { caps }
    } else {
        LastRungVerdict::Dead
    }
}

/// Reconnect rule when the last rung has no decoder. The codec is fixed once negotiated, so the
/// lever is what the next connect advertises. A retry the host cannot pick is not a retry.
pub fn last_rung_verdict(negotiated: u8, advertised: u8, loss: RungLoss) -> (r: LastRungVerdict)
    ensures
        r == verdict(negotiated, advertised, loss),
{
    let survivors: u8 = advertised & !negotiated;
    let caps: u8 = match loss {
        RungLoss::Codec => survivors & software_decodable_codecs(),
        RungLoss::Shape => survivors,
    };
    if caps & 7 == 0 {
        LastRungVerdict::Dead
    } else {
        LastRungVerdict::Retry { caps }
    }
}

/// A retry is owed exactly where a codec that the host picks by itself was on the table beside
/// the one that failed and, after a codec loss, the CPU can finish it; and it advertises every
/// such codec and no other.
pub proof fn a_retry_offers_all_that_is_left(negotiated: u8, advertised: u8, loss: RungLoss)
    ensures
        ({
            let left = |bit: u8|
                advertised & bit != 0 && negotiated & bit == 0 && (loss == RungLoss::Codec ==> bit
                    == 1 || bit == 4);
            let v = verdict(negotiated, advertised, loss);
            &&& (v is Retry) == (left(1) || left(2) || left(4))
            &&& v matches LastRungVerdict::Retry { caps } ==> (caps & 1 != 0) == left(1) && (caps
                & 2 != 0) == left(2) && (caps & 4 != 0) == left(4) && (caps & 8 != 0) == left(8)
        }),
{
    let s = advertised & !negotiated;
    assert((s & 1 != 0) == (advertised & 1 != 0 && negotiated & 1 == 0) && (s & 2 != 0) == (
    advertised & 2 != 0 && negotiated & 2 == 0) && (s & 4 != 0) == (advertised & 4 != 0 && negotiated
        & 4 == 0) && (s & 8 != 0) == (advertised & 8 != 0 && negotiated & 8 == 0) && (s & 7 != 0)
        == (s & 1 != 0 || s & 2 != 0 || s & 4 != 0)) by (bit_vector)
        requires
            s == advertised & !negotiated,
    ;
    let t = s & 5u8;
    assert((t & 1 != 0) == (s & 1 != 0) && t & 2 == 0 && (t & 4 != 0) == (s & 4 != 0) && t & 8 == 0
        && (t & 7 != 0) == (t & 1 != 0 || t & 4 != 0)) by (bit_vector)
        requires
            t == s & 5u8,
    ;
}

/// A retry never re-offers the codec that failed, offers only what was on the table, always
/// offers something a host picks, and after a codec loss only what the CPU can finish.
/// Dropping everything else from the table leaves exactly what the retry advertises.
pub proof fn a_retry_never_reoffers(negotiated: u8, advertised: u8, loss: RungLoss)
    ensures
        verdict(negotiated, advertised, loss) matches LastRungVerdict::Retry { caps } ==> {
            &&& caps & negotiated == 0
            &&& caps & !advertised == 0
            &&& has8(caps, pickable_codecs())
            &&& caps != 0
            &&& loss == RungLoss::Codec ==> caps & !cpu_codecs() == 0
            &&& advertised & !(advertised & !caps) == caps
        },
{
    let caps = retry_set(negotiated, advertised, loss);
    let s = advertised & !negotiated;
    assert(s & negotiated == 0 && s & !advertised == 0) by (bit_vector)
        requires
            s == advertised & !negotiated,
    ;
    let t = s & 5u8;
    assert(t & negotiated == 0 && t & !advertised == 0 && t & !5u8 == 0) by (bit_vector)
        requires
            s == advertised & !negotiated,
            t == s & 5u8,
    ;
    excluding_the_rest_leaves_the_part(advertised, caps, negotiated);
    assert(0u8 & 7u8 == 0) by (bit_vector);
}

/// The rewritten spelling of a stored decoder preference.
pub open spec fn migrated(pref: Seq<char>) -> Seq<char> {
    if pref == "vulkan"@ {
        "native-vulkan"@
    } else if pref == "vaapi"@ {
        "native-vaapi"@
    } else if pref == "d3d11va"@ {
        "native-d3d11va"@
    } else {
        pref
    }
}

/// Rewrites the three retired spellings of a stored preference onto the native rung for the
/// same hardware path; anything else, unknown values included, is unchanged.
pub fn migrate_decoder_pref(pref: &str) -> (r: String)
    ensures
        r@ == migrated(pref@),
        pref@ == "vulkan"@ ==> r@ == "native-vulkan"@,
        pref@ == "vaapi"@ ==> r@ == "native-vaapi"@,
        pref@ == "d3d11va"@ ==> r@ == "native-d3d11va"@,
        pref@ != "vulkan"@ && pref@ != "vaapi"@ && pref@ != "d3d11va"@ ==> r@ == pref@,
{
    proof {
        reveal_strlit("vulkan");
        reveal_strlit("vaapi");
        reveal_strlit("d3d11va");
        assert("vulkan"@.len() == 6);
        assert("vaapi"@.len() == 5);
        assert("d3d11va"@.len() == 7);
    }
    if same(pref, "vulkan") {
        "native-vulkan".to_owned()
    } else if same(pref, "vaapi") {
        "native-vaapi".to_owned()
    } else if same(pref, "d3d11va") {
        "native-d3d11va".to_owned()
    } else {
        pref.to_owned()
    }
}

/// The decoder preference in force.
pub open spec fn pref_in_force(env: Option<Seq<char>>, pref: Seq<char>) -> Seq<char> {
    match env {
        Some(v) => if trimmed(v).len() > 0 {
            trimmed(v)
        } else {
            pref
        },
        None => pref,
    }
}

/// The view of an optional string slice.
pub open spec fn opt_str(s: Option<&str>) -> Option<Seq<char>> {
    match s {
        Some(t) => Some(t@),
        None => None,
    }
}

/// The environment's decoder if it carries a value, else the stored setting. Trimmed: a pin with
/// stray white space is still a pin, and white space alone is no value.
pub fn resolve_decoder_pref(env: Option<&str>, pref: &str) -> (r: String)
    ensures
        r@ == pref_in_force(opt_str(env), pref@),
        env is None ==> r@ == pref@,
        env is Some && trimmed(env->Some_0@).len() == 0 ==> r@ == pref@,
        env is Some && trimmed(env->Some_0@).len() > 0 ==> r@ == trimmed(env->Some_0@),
{
    match env {
        Some(v) => {
            let t: String = trim(v);
            if t.as_str().unicode_len() > 0 {
                t
            } else {
                pref.to_owned()
            }
        },
        None => pref.to_owned(),
    }
}

/// Whether decode is pinned to the CPU rung. The same precedence as the ladder's.
pub fn decode_pinned_to_software(env: Option<&str>, pref: &str) -> (r: bool)
    ensures
        r == (pref_in_force(opt_str(env), pref@) == "software"@),
        env is None ==> r == (pref@ == "software"@),
        env is Some && trimmed(env->Some_0@).len() > 0 ==> r == (trimmed(env->Some_0@)
            == "software"@),
{
    let choice: String = resolve_decoder_pref(env, pref);
    same(choice.as_str(), "software")
}

/// Codecs this build can decode, asked before a device exists: the native codecs and the CPU's.
pub fn decodable_codecs() -> (r: u8)
    ensures
        r == pickable_codecs(),
        r == mask4(true, true, true, false),
        r == 7,
{
    make_mask4(true, true, true, false)
}

/// The decode operations left on native Vulkan: Linux Intel keeps AV1 off it.
pub open spec fn ops_for(platform: Platform, vendor_id: u32, advertised: u32) -> u32 {
    if platform == Platform::Linux && vendor_id == VENDOR_INTEL {
        advertised & !VIDEO_CODEC_OP_DECODE_AV1
    } else {
        advertised
    }
}

/// The decode operations the native Vulkan rung may use, from what the device advertises.
pub fn usable_decode_ops(platform: Platform, vendor_id: u32, advertised: u32) -> (r: u32)
    ensures
        r == ops_for(platform, vendor_id, advertised),
{
    if platform == Platform::Linux && vendor_id == VENDOR_INTEL {
        advertised & !VIDEO_CODEC_OP_DECODE_AV1
    } else {
        advertised
    }
}

/// On Linux Intel the AV1 operation is gone and every other one stays; anywhere else nothing
/// changes.
pub proof fn only_intel_on_linux_loses_av1(platform: Platform, vendor_id: u32, advertised: u32, op: u32)
    requires
        op == VIDEO_CODEC_OP_DECODE_H264 || op == VIDEO_CODEC_OP_DECODE_H265 || op
            == VIDEO_CODEC_OP_DECODE_AV1,
    ensures
        has32(ops_for(platform, vendor_id, advertised), op) == (has32(advertised, op) && !(platform
            == Platform::Linux && vendor_id == VENDOR_INTEL && op == VIDEO_CODEC_OP_DECODE_AV1)),
{
    assert((advertised & !4u32) & op == (if op == 4u32 { 0u32 } else { advertised & op })) by (bit_vector)
        requires
            op == 1u32 || op == 2u32 || op == 4u32,
    ;
}

/// Does the presenter's VAAPI node decode AV1, where its Vulkan does not? `node_decodes` is the
/// node's own answer. NVIDIA never counts: the ladder never enters its VAAPI.
pub fn vaapi_av1_decodable(vendor_id: u32, vulkan_av1: bool, node_decodes: bool) -> (r: bool)
    ensures
        r == (!vulkan_av1 && vendor_id != VENDOR_NVIDIA && node_decodes),
{
    !vulkan_av1 && vendor_id != VENDOR_NVIDIA && node_decodes
}

/// Whether the device decodes AV1 in hardware.
pub open spec fn av1_in_hardware(platform: Platform, vk: Option<VulkanDecodeDevice>) -> bool {
    match vk {
        Some(v) => {
            ||| v.video_decode && has32(v.decode_video_caps, VIDEO_CODEC_OP_DECODE_AV1)
            ||| match platform {
                Platform::Windows => v.d3d11_import,
                Platform::Linux => v.vaapi_av1_decode && vaapi_allowed(vk),
            }
        },
        None => false,
    }
}

/// Can this machine decode AV1 in hardware? Device facts only, never a decoder existing.
pub fn av1_hardware_decodable(platform: Platform, vk: Option<&VulkanDecodeDevice>) -> (r: bool)
    ensures
        r == av1_in_hardware(platform, opt_device(vk)),
        vk is None ==> !r,
        vk is Some ==> r == (vk->Some_0.video_decode && vk->Some_0.decode_video_caps & 4 != 0 || (
        platform == Platform::Windows && vk->Some_0.d3d11_import) || (platform == Platform::Linux
            && vk->Some_0.vaapi_av1_decode && vk->Some_0.dmabuf_import && vk->Some_0.vendor_id
            != 0x10de)),
{
    match vk {
        Some(v) => {
            if v.video_decode && v.decode_video_caps & VIDEO_CODEC_OP_DECODE_AV1 != 0 {
                return true;
            }
            match platform {
                Platform::Windows => v.d3d11_import,
                Platform::Linux => v.vaapi_av1_decode && vaapi_auto_ok(vk),
            }
        },
        None => false,
    }
}

/// Can this client decode 4:4:4 HEVC? Both depths are required: HDR may resolve 4:4:4 at
/// 10 bits.
pub fn hevc_444_hardware_decodable(vk: Option<&VulkanDecodeDevice>) -> (r: bool)
    ensures
        r == (vk is Some && vk->Some_0.hevc_444_8 && vk->Some_0.hevc_444_10),
{
    match vk {
        Some(v) => v.hevc_444_8 && v.hevc_444_10,
        None => false,
    }
}

/// Can this client present a PQ stream? On Windows the D3D11 rung shows PQ as HDR10 or through
/// the video processor's tone map, whose support is `tonemap`; elsewhere the shader converts.
pub fn hdr_presentable(platform: Platform, vk: Option<&VulkanDecodeDevice>, tonemap: bool) -> (r: bool)
    ensures
        r == (platform == Platform::Linux || vk is None || !vk->Some_0.d3d11_import
            || vk->Some_0.d3d11_hdr10 || tonemap),
{
    match platform {
        Platform::Linux => true,
        Platform::Windows => match vk {
            Some(v) => !v.d3d11_import || v.d3d11_hdr10 || tonemap,
            None => true,
        },
    }
}

/// Whether a driver version is older than the first that renders PQ right from the Vulkan rung
/// (32.0.21025.0).
pub open spec fn older_driver(v: Seq<u16>) -> bool {
    ||| v[0] < 32
    ||| v[0] == 32 && v[1] == 0 && v[2] < 21025
}

/// The text of the driver notice.
pub open spec fn driver_line(v: Seq<u16>) -> Seq<char> {
    "This AMD graphics driver ("@ + decimal(v[0] as nat) + "."@ + decimal(v[1] as nat) + "."@
        + decimal(v[2] as nat) + "."@ + decimal(v[3] as nat)
        + ") can show HDR as a green picture. Update it to AMD Software 25.9.1 or newer, or switch the decoder to Direct3D 11 in Settings."@
}

/// The first AMD Windows driver seen rendering a PQ stream from the Vulkan rung correctly, as
/// the four Device Manager fields.
pub fn amd_vulkan_hdr_driver_floor() -> (r: [u16; 4])
    ensures
        r@ == seq![32u16, 0u16, 21025u16, 0u16],
{
    let r: [u16; 4] = [32, 0, 21025, 0];
    assert(r@ =~= seq![32u16, 0u16, 21025u16, 0u16]);
    r
}

/// Toast for an HDR session on the Vulkan rung whose AMD driver is too old; nothing otherwise,
/// including an unknown driver.
pub fn amd_vulkan_hdr_driver_notice(
    driver: Option<[u16; 4]>,
    native_vulkan: bool,
    pq: bool,
) -> (r: Option<String>)
    ensures
        (r is Some) == (driver is Some && native_vulkan && pq && older_driver(driver->Some_0@)),
        r is Some ==> r->Some_0@ == driver_line(driver->Some_0@),
        r is Some <==> driver is Some && native_vulkan && pq && (driver->Some_0@[0] < 32 || (
        driver->Some_0@[0] == 32 && driver->Some_0@[1] == 0 && driver->Some_0@[2] < 21025)),
        r is Some ==> r->Some_0@ == "This AMD graphics driver ("@ + decimal(
            driver->Some_0@[0] as nat,
        ) + "."@ + decimal(driver->Some_0@[1] as nat) + "."@ + decimal(driver->Some_0@[2] as nat)
            + "."@ + decimal(driver->Some_0@[3] as nat)
            + ") can show HDR as a green picture. Update it to AMD Software 25.9.1 or newer, or switch the decoder to Direct3D 11 in Settings."@,
{
    let v: [u16; 4] = match driver {
        Some(v) => v,
        None => {
            return None;
        },
    };
    let older: bool = v[0] < 32 || (v[0] == 32 && v[1] == 0 && v[2] < 21025);
    if !native_vulkan || !pq || !older {
        return None;
    }
    let mut out: String = "This AMD graphics driver (".to_owned();
    out = join(out.as_str(), to_decimal(v[0] as u64).as_str());
    out = join(out.as_str(), ".");
    out = join(out.as_str(), to_decimal(v[1] as u64).as_str());
    out = join(out.as_str(), ".");
    out = join(out.as_str(), to_decimal(v[2] as u64).as_str());
    out = join(out.as_str(), ".");
    out = join(out.as_str(), to_decimal(v[3] as u64).as_str());
    out = join(out.as_str(), ") can show HDR as a green picture. Update it to AMD Software 25.9.1 or newer, or switch the decoder to Direct3D 11 in Settings.");
    Some(out)
}

/// The video capabilities the user's switches ask for. Several slices per picture are always
/// fine here; `ten_bit_sdr` asks for the depth alone, and HDR implies it.
pub fn video_caps_for(hdr_enabled: bool, ten_bit_sdr: bool, want_444: bool) -> (r: u8)
    ensures
        r == mask4(hdr_enabled || ten_bit_sdr, hdr_enabled, want_444, true),
        has8(r, crate::wire::VIDEO_CAP_10BIT) == (hdr_enabled || ten_bit_sdr),
        has8(r, crate::wire::VIDEO_CAP_HDR) == hdr_enabled,
        has8(r, crate::wire::VIDEO_CAP_444) == want_444,
        has8(r, crate::wire::VIDEO_CAP_MULTI_SLICE),
        r < 16,
{
    proof {
        mask4_bits(hdr_enabled || ten_bit_sdr, hdr_enabled, want_444, true);
    }
    make_mask4(hdr_enabled || ten_bit_sdr, hdr_enabled, want_444, true)
}

/// Whether this adapter decodes HEVC in hardware.
pub open spec fn hevc_in_hardware(vk: Option<VulkanDecodeDevice>, dxva_hevc: bool) -> bool {
    match vk {
        Some(v) => {
            ||| v.video_decode && has32(v.decode_video_caps, VIDEO_CODEC_OP_DECODE_H265)
            ||| v.d3d11_import && dxva_hevc
        },
        None => false,
    }
}

/// Can this adapter decode HEVC in hardware? Vulkan, or a DXVA profile (`dxva_hevc`) on an
/// adapter whose textures the presenter imports.
pub fn hevc_hardware_decodable(vk: Option<&VulkanDecodeDevice>, dxva_hevc: bool) -> (r: bool)
    ensures
        r == hevc_in_hardware(opt_device(vk), dxva_hevc),
        vk is None ==> !r,
        vk is Some ==> r == (vk->Some_0.video_decode && vk->Some_0.decode_video_caps & 2 != 0
            || vk->Some_0.d3d11_import && dxva_hevc),
{
    match vk {
        Some(v) => (v.video_decode && v.decode_video_caps & VIDEO_CODEC_OP_DECODE_H265 != 0) || (
        v.d3d11_import && dxva_hevc),
        None => false,
    }
}

/// Whether HEVC stays on the table: not under a software pin, which has no HEVC, and on Windows
/// only with hardware for it.
pub open spec fn hevc_promised(
    platform: Platform,
    vk: Option<VulkanDecodeDevice>,
    pinned: bool,
    dxva_hevc: bool,
) -> bool {
    &&& !pinned
    &&& platform == Platform::Windows ==> hevc_in_hardware(vk, dxva_hevc)
}

/// The codecs promised on a device, under an environment override and a setting.
pub open spec fn promised(
    platform: Platform,
    vk: Option<VulkanDecodeDevice>,
    env: Option<Seq<char>>,
    pref: Seq<char>,
    dxva_hevc: bool,
) -> u8 {
    mask4(
        true,
        hevc_promised(platform, vk, pref_in_force(env, pref) == "software"@, dxva_hevc),
        av1_in_hardware(platform, vk),
        vk is Some && vk->Some_0.pyrowave_decode,
    )
}

/// What this client advertises it can decode on this device: H.264 always, AV1 on a hardware
/// fact, HEVC where a rung for it can be reached, PyroWave where its probe passed.
pub fn decodable_codecs_for(
    platform: Platform,
    vk: Option<&VulkanDecodeDevice>,
    env: Option<&str>,
    decoder_pref: &str,
    dxva_hevc: bool,
) -> (r: u8)
    ensures
        r == promised(platform, opt_device(vk), opt_str(env), decoder_pref@, dxva_hevc),
        has8(r, 1),
        has8(r, 2) == (!(pref_in_force(opt_str(env), decoder_pref@) == "software"@) && (platform
            == Platform::Linux || (vk is Some && (vk->Some_0.video_decode
            && vk->Some_0.decode_video_caps & 2 != 0 || vk->Some_0.d3d11_import && dxva_hevc)))),
        has8(r, 4) == (vk is Some && (vk->Some_0.video_decode && vk->Some_0.decode_video_caps & 4
            != 0 || (platform == Platform::Windows && vk->Some_0.d3d11_import) || (platform
            == Platform::Linux && vk->Some_0.vaapi_av1_decode && vk->Some_0.dmabuf_import
            && vk->Some_0.vendor_id != 0x10de))),
        has8(r, 8) == (vk is Some && vk->Some_0.pyrowave_decode),
        r < 16,
{
    proof {
        mask4_bits(
            true,
            hevc_promised(
                platform,
                opt_device(vk),
                pref_in_force(opt_str(env), decoder_pref@) == "software"@,
                dxva_hevc,
            ),
            av1_in_hardware(platform, opt_device(vk)),
            vk is Some && vk->Some_0.pyrowave_decode,
        );
    }
    let pinned: bool = decode_pinned_to_software(env, decoder_pref);
    let hevc: bool = !pinned && (match platform {
        Platform::Windows => hevc_hardware_decodable(vk, dxva_hevc),
        Platform::Linux => true,
    });
    let pyrowave: bool = match vk {
        Some(v) => v.pyrowave_decode,
        None => false,
    };
    make_mask4(true, hevc, av1_hardware_decodable(platform, vk), pyrowave)
}

/// Whatever the device, pin and platform, the advertisement is never empty (an empty one reads
/// as HEVC alone), a software pin never promises HEVC, and AV1 is promised only on hardware.
pub proof fn the_advertisement_keeps_its_promises(
    platform: Platform,
    vk: Option<VulkanDecodeDevice>,
    pinned: bool,
    dxva_hevc: bool,
    pyrowave: bool,
)
    ensures
        ({
            let bits = mask4(
                true,
                hevc_promised(platform, vk, pinned, dxva_hevc),
                av1_in_hardware(platform, vk),
                pyrowave,
            );
            &&& has8(bits, CODEC_H264)
            &&& pinned ==> !has8(bits, CODEC_HEVC)
            &&& has8(bits, CODEC_AV1) ==> av1_in_hardware(platform, vk)
            &&& has8(bits, CODEC_PYROWAVE) == pyrowave
        }),
{
    mask4_bits(
        true,
        hevc_promised(platform, vk, pinned, dxva_hevc),
        av1_in_hardware(platform, vk),
        pyrowave,
    );
}

} // verus!
