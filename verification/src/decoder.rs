//! The decode ladder: which rungs a session tries and in what order, and when a failing rung
//! gives way to the next.
//!
//! The application builds the rungs. It walks the list it is given and installs the first that
//! builds; software stands under every list and may refuse a codec it has no decoder for.

use vstd::prelude::*;
use crate::text::same;
use crate::video::{
    auto_family, codec_of, has_software_rung, is_auto_family, migrate_decoder_pref, migrated,
    native_codec, native_evidence, native_rung_admitted, native_vulkan_usable,
    opt_device, opt_str, pref_in_force, proven, resolve_decoder_pref, rung_admitted, vaapi_allowed,
    vaapi_auto_ok, vulkan_runs, NativeRung, Platform, RungEvidence, VulkanDecodeDevice,
};
use crate::video_types::{DecodeHealth, StreamFormat};

verus! {

/// A decoder the session can run on.
#[derive(Debug, Clone, Copy, PartialEq, Eq, Structural)]
pub enum Backend {
    NativeVulkan,
    NativeVaapi,
    NativeD3d11va,
    /// Nothing else decodes PyroWave, so it never demotes.
    PyroWave,
    /// Last in every ladder, so it never demotes.
    Software,
}

/// Native Vulkan ran this session.
pub const RUNG_BIT_NATIVE_VULKAN: u8 = 1;

/// The native platform rung ran this session.
pub const RUNG_BIT_NATIVE_PLATFORM: u8 = 2;

/// Consecutive decode errors before a hardware rung gives way.
pub const DEMOTE_AFTER: u32 = 3;

/// Youngest error streak that demotes: an asked-for keyframe gets this long to arrive.
pub const DEMOTE_MIN_STREAK_NS: u64 = 1_000_000_000;

/// The bit of the rungs-entered set a backend claims.
pub open spec fn bit_of(backend: Backend) -> u8 {
    match backend {
        Backend::NativeVulkan => RUNG_BIT_NATIVE_VULKAN,
        Backend::NativeVaapi => RUNG_BIT_NATIVE_PLATFORM,
        Backend::NativeD3d11va => RUNG_BIT_NATIVE_PLATFORM,
        _ => 0,
    }
}

/// The bit of the rungs-entered set a backend claims; 0 for those that cannot be a demotion
/// target twice.
pub fn rung_bit(backend: Backend) -> (r: u8)
    ensures
        r == bit_of(backend),
        backend == Backend::NativeVulkan ==> r == 1,
        backend == Backend::NativeVaapi || backend == Backend::NativeD3d11va ==> r == 2,
        backend == Backend::Software || backend == Backend::PyroWave ==> r == 0,
{
    match backend {
        Backend::NativeVulkan => RUNG_BIT_NATIVE_VULKAN,
        Backend::NativeVaapi => RUNG_BIT_NATIVE_PLATFORM,
        Backend::NativeD3d11va => RUNG_BIT_NATIVE_PLATFORM,
        _ => 0,
    }
}

/// May this answer clear the demotion streak? A delivered frame proves the decoder works, and
/// so does a clean empty answer; concealment proves nothing.
pub fn clears_demotion_streak(delivered: bool, concealed: bool) -> (r: bool)
    ensures
        r == (delivered || !concealed),
{
    delivered || !concealed
}

/// The platform's own hardware rung.
pub open spec fn platform_backend(platform: Platform) -> Backend {
    match platform {
        Platform::Linux => Backend::NativeVaapi,
        Platform::Windows => Backend::NativeD3d11va,
    }
}

/// The platform rung as the evidence table knows it.
pub open spec fn platform_rung(platform: Platform) -> NativeRung {
    match platform {
        Platform::Linux => NativeRung::Vaapi,
        Platform::Windows => NativeRung::D3d11va,
    }
}

/// Whether the presenter can show what the platform rung decodes.
pub open spec fn platform_shows(platform: Platform, vk: Option<VulkanDecodeDevice>) -> bool {
    match platform {
        Platform::Linux => vaapi_allowed(vk),
        Platform::Windows => vk is Some && vk->Some_0.d3d11_import,
    }
}

/// Whether the device runs native Vulkan for this codec.
pub open spec fn device_vulkan(wire: u8, vk: Option<VulkanDecodeDevice>) -> bool {
    vk is Some && vulkan_runs(wire, vk->Some_0.video_decode, vk->Some_0.decode_video_caps)
}

/// Whether Vulkan Video is this device's established first answer.
pub open spec fn vulkan_leads(vk: Option<VulkanDecodeDevice>) -> bool {
    vk is Some && vk->Some_0.video_decode && vk->Some_0.vulkan_first()
}

/// One rung, or none.
pub open spec fn rung_if(cond: bool, backend: Backend) -> Seq<Backend> {
    if cond {
        seq![backend]
    } else {
        Seq::empty()
    }
}

/// Whether a pin names the platform rung.
pub open spec fn pins_platform(platform: Platform, choice: Seq<char>) -> bool {
    choice == platform_rung(platform).spec_name()
}

/// Whether a pin on the platform rung can be tried. On Linux a pin overrides the safety gate;
/// on Windows a texture nobody imports can never be shown.
pub open spec fn platform_pin_works(
    platform: Platform,
    wire: u8,
    vk: Option<VulkanDecodeDevice>,
) -> bool {
    codec_of(wire) is Some && (platform == Platform::Windows ==> platform_shows(platform, vk))
}

/// What is left of a choice once a pin has been tried: a failed pin continues as automatic.
pub open spec fn choice_after_pins(platform: Platform, choice: Seq<char>) -> Seq<char> {
    if pins_platform(platform, choice) || choice == "native-vulkan"@ {
        "auto"@
    } else {
        choice
    }
}

/// Whether the platform rung goes before Vulkan: an open choice, a device whose first answer is
/// not Vulkan, and, on Linux, no proven Vulkan rung for this codec under it.
pub open spec fn platform_leads(
    platform: Platform,
    wire: u8,
    choice: Seq<char>,
    vk: Option<VulkanDecodeDevice>,
) -> bool {
    &&& auto_family(choice_after_pins(platform, choice))
    &&& !vulkan_leads(vk)
    &&& match platform {
        Platform::Linux => rung_admitted(
            NativeRung::Vaapi,
            wire,
            if device_vulkan(wire, vk) {
                Some(NativeRung::Vulkan)
            } else {
                None
            },
        ),
        Platform::Windows => rung_admitted(NativeRung::D3d11va, wire, None),
    }
}

/// The hardware rungs a session tries, in order. Pins come first and skip vendor order; then
/// the platform rung where it leads, Vulkan, and the platform rung where it does not.
pub open spec fn rungs(
    platform: Platform,
    wire: u8,
    choice: Seq<char>,
    vk: Option<VulkanDecodeDevice>,
) -> Seq<Backend> {
    let after = choice_after_pins(platform, choice);
    let vulkan_pinned = choice == "native-vulkan"@;
    let usable = platform_shows(platform, vk) && codec_of(wire) is Some;
    let leads = platform_leads(platform, wire, choice, vk);
    rung_if(
        pins_platform(platform, choice) && platform_pin_works(platform, wire, vk),
        platform_backend(platform),
    ) + rung_if(vulkan_pinned && device_vulkan(wire, vk), Backend::NativeVulkan) + rung_if(
        leads && usable,
        platform_backend(platform),
    ) + rung_if(
        auto_family(after) && device_vulkan(wire, vk) && !vulkan_pinned,
        Backend::NativeVulkan,
    ) + rung_if(after != "software"@ && !leads && usable, platform_backend(platform))
}

fn platform_is_usable(platform: Platform, wire: u8, vk: Option<&VulkanDecodeDevice>) -> (r: bool)
    ensures
        r == (platform_shows(platform, opt_device(vk)) && codec_of(wire) is Some),
{
    let shows: bool = match platform {
        Platform::Linux => vaapi_auto_ok(vk),
        Platform::Windows => match vk {
            Some(v) => v.d3d11_import,
            None => false,
        },
    };
    shows && native_codec(wire).is_some()
}

fn device_runs_vulkan(wire: u8, vk: Option<&VulkanDecodeDevice>) -> (r: bool)
    ensures
        r == device_vulkan(wire, opt_device(vk)),
{
    match vk {
        Some(v) => native_vulkan_usable(wire, v.video_decode, v.decode_video_caps),
        None => false,
    }
}

/// The rungs a session tries before software, in order. `choice` is the decoder preference in
/// force, with retired spellings rewritten.
pub fn ladder(
    platform: Platform,
    wire: u8,
    choice: &str,
    vk: Option<&VulkanDecodeDevice>,
) -> (r: Vec<Backend>)
    ensures
        r@ == rungs(platform, wire, choice@, opt_device(vk)),
{
    let ghost device = opt_device(vk);
    let plat: Backend = match platform {
        Platform::Linux => Backend::NativeVaapi,
        Platform::Windows => Backend::NativeD3d11va,
    };
    let pin_name: &'static str = match platform {
        Platform::Linux => NativeRung::Vaapi.name(),
        Platform::Windows => NativeRung::D3d11va.name(),
    };
    let usable: bool = platform_is_usable(platform, wire, vk);
    let vulkan: bool = device_runs_vulkan(wire, vk);
    let mut out: Vec<Backend> = Vec::new();
    let pinned: bool = same(choice, pin_name);
    if pinned {
        let works: bool = match platform {
            Platform::Linux => native_codec(wire).is_some(),
            Platform::Windows => usable,
        };
        if works {
            out.push(plat);
        }
    }
    let ghost one = out@;
    assert(one =~= rung_if(
        pins_platform(platform, choice@) && platform_pin_works(platform, wire, device),
        platform_backend(platform),
    ));
    let vulkan_pinned: bool = same(choice, "native-vulkan");
    if vulkan_pinned && vulkan {
        out.push(Backend::NativeVulkan);
    }
    let ghost two = out@;
    assert(two =~= one + rung_if(
        vulkan_pinned && device_vulkan(wire, device),
        Backend::NativeVulkan,
    ));
    let open: bool = pinned || vulkan_pinned || is_auto_family(choice);
    let vulkan_leads: bool = match vk {
        Some(v) => v.video_decode && v.prefer_vulkan_first(),
        None => false,
    };
    let rung_ok: bool = match platform {
        Platform::Linux => native_rung_admitted(
            NativeRung::Vaapi,
            wire,
            if vulkan {
                Some(NativeRung::Vulkan)
            } else {
                None
            },
        ),
        Platform::Windows => native_rung_admitted(NativeRung::D3d11va, wire, None),
    };
    let leads: bool = open && !vulkan_leads && rung_ok;
    assert(open == auto_family(choice_after_pins(platform, choice@)));
    assert(leads == platform_leads(platform, wire, choice@, device));
    if leads && usable {
        out.push(plat);
    }
    let ghost three = out@;
    assert(three =~= two + rung_if(leads && usable, platform_backend(platform)));
    if open && vulkan && !vulkan_pinned {
        out.push(Backend::NativeVulkan);
    }
    let ghost four = out@;
    assert(four =~= three + rung_if(
        open && device_vulkan(wire, device) && !vulkan_pinned,
        Backend::NativeVulkan,
    ));
    let software: bool = !pinned && !vulkan_pinned && same(choice, "software");
    assert(software == (choice_after_pins(platform, choice@) == "software"@)) by {
        reveal_strlit("auto");
        reveal_strlit("software");
        assert("auto"@.len() != "software"@.len());
    }
    if !software && !leads && usable {
        out.push(plat);
    }
    assert(out@ =~= four + rung_if(!software && !leads && usable, platform_backend(platform)));
    out
}

/// Whether this machine can put the platform rung on the screen for a codec.
pub open spec fn platform_can(platform: Platform, wire: u8, vk: Option<VulkanDecodeDevice>) -> bool {
    &&& wire == 1 || wire == 2 || wire == 4
    &&& platform == Platform::Linux ==> vk is None || (vk->Some_0.dmabuf_import
        && vk->Some_0.vendor_id != 0x10de)
    &&& platform == Platform::Windows ==> vk is Some && vk->Some_0.d3d11_import
}

/// Whether this machine's Vulkan decodes a codec.
pub open spec fn vulkan_can(wire: u8, vk: Option<VulkanDecodeDevice>) -> bool {
    vk is Some && vk->Some_0.video_decode && (wire == 1 && vk->Some_0.decode_video_caps & 1 != 0
        || wire == 2 && vk->Some_0.decode_video_caps & 2 != 0 || wire == 4
        && vk->Some_0.decode_video_caps & 4 != 0)
}

/// With the choice left open a session tries every rung that can work, each once. Where both
/// can, Vulkan goes first on Linux, and on Windows where the device is NVIDIA's or AMD's;
/// any other Windows device goes through D3D11VA first.
pub proof fn an_open_choice_tries_all_that_can_work(
    platform: Platform,
    wire: u8,
    choice: Seq<char>,
    vk: Option<VulkanDecodeDevice>,
)
    requires
        choice == "auto"@ || choice == ""@ || choice == "hardware"@,
    ensures
        ({
            let own = if platform == Platform::Linux {
                Backend::NativeVaapi
            } else {
                Backend::NativeD3d11va
            };
            let v = vulkan_can(wire, vk);
            let p = platform_can(platform, wire, vk);
            let r = rungs(platform, wire, choice, vk);
            &&& !v && !p ==> r == Seq::<Backend>::empty()
            &&& v && !p ==> r == seq![Backend::NativeVulkan]
            &&& !v && p ==> r == seq![own]
            &&& v && p && (platform == Platform::Linux || vk->Some_0.vendor_id == 0x10de
                || vk->Some_0.vendor_id == 0x1002) ==> r == seq![Backend::NativeVulkan, own]
            &&& v && p && platform == Platform::Windows && vk->Some_0.vendor_id != 0x10de
                && vk->Some_0.vendor_id != 0x1002 ==> r == seq![own, Backend::NativeVulkan]
        }),
{
    distinct_choices();
    let own = platform_backend(platform);
    let r = rungs(platform, wire, choice, vk);
    let v = vulkan_can(wire, vk);
    let p = platform_can(platform, wire, vk);
    assert(v == device_vulkan(wire, vk));
    assert(p == (platform_shows(platform, vk) && codec_of(wire) is Some));
    if !v && !p {
        assert(r =~= Seq::<Backend>::empty());
    } else if v && !p {
        assert(r =~= seq![Backend::NativeVulkan]);
    } else if !v && p {
        assert(r =~= seq![own]);
    } else if platform == Platform::Linux || vulkan_leads(vk) {
        assert(r =~= seq![Backend::NativeVulkan, own]);
    } else {
        assert(r =~= seq![own, Backend::NativeVulkan]);
    }
}

/// A pin is tried first, whatever the vendor, and what follows is what an open choice would have
/// tried. A Vulkan pin needs a device that decodes the codec, the D3D11VA pin a presenter that
/// imports its textures, and the VAAPI pin no more than the codec.
pub proof fn a_pin_goes_first_and_then_the_choice_is_open(
    platform: Platform,
    wire: u8,
    vk: Option<VulkanDecodeDevice>,
)
    ensures
        vulkan_can(wire, vk) ==> {
            let r = rungs(platform, wire, "native-vulkan"@, vk);
            &&& r.len() > 0
            &&& r[0] == Backend::NativeVulkan
            &&& r.contains(platform_backend(platform)) == platform_can(platform, wire, vk)
            &&& r.len() <= 2
        },
        !vulkan_can(wire, vk) ==> rungs(platform, wire, "native-vulkan"@, vk) == rungs(
            platform,
            wire,
            "auto"@,
            vk,
        ),
        wire == 1 || wire == 2 || wire == 4 ==> rungs(
            Platform::Linux,
            wire,
            "native-vaapi"@,
            vk,
        ) == seq![Backend::NativeVaapi] + rungs(Platform::Linux, wire, "auto"@, vk),
        platform_can(Platform::Windows, wire, vk) ==> rungs(
            Platform::Windows,
            wire,
            "native-d3d11va"@,
            vk,
        ) == seq![Backend::NativeD3d11va] + rungs(Platform::Windows, wire, "auto"@, vk),
{
    distinct_choices();
    reveal_strlit("native-vulkan");
    reveal_strlit("native-vaapi");
    reveal_strlit("native-d3d11va");
    assert("native-vulkan"@.len() == 13);
    assert("native-vaapi"@.len() == 12);
    assert("native-d3d11va"@.len() == 14);
    let v = vulkan_can(wire, vk);
    let p = platform_can(platform, wire, vk);
    assert(v == device_vulkan(wire, vk));
    assert(p == (platform_shows(platform, vk) && codec_of(wire) is Some));
    let r = rungs(platform, wire, "native-vulkan"@, vk);
    if v {
        if p {
            assert(r =~= seq![Backend::NativeVulkan, platform_backend(platform)]);
            assert(r[1] == platform_backend(platform));
        } else {
            assert(r =~= seq![Backend::NativeVulkan]);
        }
    } else {
        assert(r =~= rungs(platform, wire, "auto"@, vk));
    }
    if wire == 1 || wire == 2 || wire == 4 {
        assert(rungs(Platform::Linux, wire, "native-vaapi"@, vk) =~= seq![Backend::NativeVaapi]
            + rungs(Platform::Linux, wire, "auto"@, vk));
    }
    if platform_can(Platform::Windows, wire, vk) {
        assert(rungs(Platform::Windows, wire, "native-d3d11va"@, vk) =~= seq![
            Backend::NativeD3d11va,
        ] + rungs(Platform::Windows, wire, "auto"@, vk));
    }
}

/// A spelling that is neither open, a pin of this platform nor software tries the platform rung
/// where it can work, and nothing else.
pub proof fn an_unknown_choice_tries_the_platform(
    platform: Platform,
    wire: u8,
    choice: Seq<char>,
    vk: Option<VulkanDecodeDevice>,
)
    requires
        choice != "auto"@ && choice != ""@ && choice != "hardware"@ && choice != "software"@,
        choice != "native-vulkan"@,
        platform == Platform::Linux ==> choice != "native-vaapi"@,
        platform == Platform::Windows ==> choice != "native-d3d11va"@,
    ensures
        platform_can(platform, wire, vk) ==> rungs(platform, wire, choice, vk) == seq![
            platform_backend(platform),
        ],
        !platform_can(platform, wire, vk) ==> rungs(platform, wire, choice, vk) == Seq::<
            Backend,
        >::empty(),
        platform_backend(Platform::Linux) == Backend::NativeVaapi,
        platform_backend(Platform::Windows) == Backend::NativeD3d11va,
{
    assert(platform_can(platform, wire, vk) == (platform_shows(platform, vk) && codec_of(wire)
        is Some));
    if platform_can(platform, wire, vk) {
        assert(rungs(platform, wire, choice, vk) =~= seq![platform_backend(platform)]);
    } else {
        assert(rungs(platform, wire, choice, vk) =~= Seq::<Backend>::empty());
    }
}

/// The decoder choice in force: the environment's or the stored one, with retired spellings
/// rewritten. The flag says the spelling was one of those.
pub fn decoder_choice(env: Option<&str>, pref: &str) -> (r: (String, bool))
    ensures
        r.0@ == migrated(pref_in_force(opt_str(env), pref@)),
        r.1 == (r.0@ != pref_in_force(opt_str(env), pref@)),
{
    let stored: String = resolve_decoder_pref(env, pref);
    let choice: String = migrate_decoder_pref(stored.as_str());
    let moved: bool = !same(choice.as_str(), stored.as_str());
    (choice, moved)
}

/// A software pin tries no hardware at all.
pub proof fn a_software_pin_tries_no_hardware(
    platform: Platform,
    wire: u8,
    vk: Option<VulkanDecodeDevice>,
)
    ensures
        rungs(platform, wire, "software"@, vk) == Seq::<Backend>::empty(),
{
    distinct_choices();
    assert(rungs(platform, wire, "software"@, vk) =~= Seq::<Backend>::empty());
}

/// A rung stands in a ladder only where it can work: the codec has a decoder, Vulkan needs the
/// device's own operation for it, and the platform rung needs a presenter that shows its frames
/// unless it is pinned on Linux.
pub proof fn every_rung_in_the_ladder_can_work(
    platform: Platform,
    wire: u8,
    choice: Seq<char>,
    vk: Option<VulkanDecodeDevice>,
    i: int,
)
    requires
        0 <= i < rungs(platform, wire, choice, vk).len(),
    ensures
        ({
            let b = rungs(platform, wire, choice, vk)[i];
            &&& codec_of(wire) is Some
            &&& b == Backend::NativeVulkan || b == platform_backend(platform)
            &&& b == Backend::NativeVulkan ==> device_vulkan(wire, vk)
            &&& b == platform_backend(platform) ==> platform_shows(platform, vk) || (platform
                == Platform::Linux && pins_platform(platform, choice))
        }),
{
}

/// Automatic choice on an NVIDIA presenter never tries VAAPI.
pub proof fn auto_never_tries_vaapi_on_nvidia(
    wire: u8,
    choice: Seq<char>,
    vk: VulkanDecodeDevice,
    i: int,
)
    requires
        vk.vendor_id == crate::wire::VENDOR_NVIDIA,
        auto_family(choice),
        0 <= i < rungs(Platform::Linux, wire, choice, Some(vk)).len(),
    ensures
        rungs(Platform::Linux, wire, choice, Some(vk))[i] == Backend::NativeVulkan,
{
    distinct_choices();
}

/// With the choice left open, an unproven platform rung is never tried before a Vulkan rung
/// that is proven for the codec and runs on this device.
pub proof fn an_unproven_rung_never_goes_first(
    platform: Platform,
    wire: u8,
    choice: Seq<char>,
    vk: Option<VulkanDecodeDevice>,
)
    requires
        auto_family(choice),
        device_vulkan(wire, vk),
        !proven(platform_rung(platform), wire),
    ensures
        rungs(platform, wire, choice, vk).len() > 0,
        rungs(platform, wire, choice, vk)[0] == Backend::NativeVulkan,
{
    distinct_choices();
    assert(!platform_leads(platform, wire, choice, vk));
}

/// The spellings a choice is compared with differ from each other.
proof fn distinct_choices()
    ensures
        "software"@ != "auto"@,
        "software"@ != ""@,
        "software"@ != "hardware"@,
        "software"@ != "native-vulkan"@,
        "software"@ != "native-vaapi"@,
        "software"@ != "native-d3d11va"@,
        "auto"@ != "native-vulkan"@,
        "auto"@ != "native-vaapi"@,
        "auto"@ != "native-d3d11va"@,
        ""@ != "native-vulkan"@,
        ""@ != "native-vaapi"@,
        ""@ != "native-d3d11va"@,
        "hardware"@ != "native-vulkan"@,
        "hardware"@ != "native-vaapi"@,
        "hardware"@ != "native-d3d11va"@,
{
    reveal_strlit("software");
    reveal_strlit("auto");
    reveal_strlit("");
    reveal_strlit("hardware");
    reveal_strlit("native-vulkan");
    reveal_strlit("native-vaapi");
    reveal_strlit("native-d3d11va");
    assert(""@.len() == 0);
    assert("software"@.len() == 8);
    assert("native-vulkan"@.len() == 13);
    assert("native-vaapi"@.len() == 12);
    assert("native-d3d11va"@.len() == 14);
    assert("software"@[0] == 's');
    assert("hardware"@[0] == 'h');
    assert("auto"@[0] == 'a');
    assert("native-vulkan"@[0] == 'n');
    assert("native-vaapi"@[0] == 'n');
    assert("native-d3d11va"@[0] == 'n');
}

/// A session's decoder: the rung it runs on and how that rung is doing.
#[derive(Debug, PartialEq, Eq)]
pub struct Decoder {
    pub backend: Backend,
    /// Negotiated codec bit. A demotion rebuilds for the same codec.
    pub wire_codec: u8,
    pub platform: Platform,
    /// The presenter's device, so a demotion can build on it.
    pub vk: Option<VulkanDecodeDevice>,
    /// Negotiated picture shape.
    pub stream: StreamFormat,
    /// Consecutive hardware decode errors.
    pub fails: u32,
    /// When the current error streak started.
    pub first_fail: Option<u64>,
    /// Needs a fresh keyframe, after an error or a demotion.
    pub want_keyframe: bool,
    /// This backend has delivered a frame.
    pub delivered: bool,
    /// Hardware rungs this session has run. An entered rung is never entered again.
    pub entered_rungs: u8,
}

impl Decoder {
    /// Whether the running rung is native hardware.
    pub open spec fn on_hardware(self) -> bool {
        self.backend == Backend::NativeVulkan || self.backend == Backend::NativeVaapi
            || self.backend == Backend::NativeD3d11va
    }

    /// The running rung is in the set of rungs entered.
    pub open spec fn wf(self) -> bool {
        self.on_hardware() ==> self.entered_rungs & bit_of(self.backend) != 0
    }

    /// A session's decoder on the rung that was built for it.
    pub fn new(
        backend: Backend,
        wire_codec: u8,
        platform: Platform,
        vk: Option<VulkanDecodeDevice>,
        stream: StreamFormat,
    ) -> (d: Decoder)
        ensures
            d == (Decoder {
                backend,
                wire_codec,
                platform,
                vk,
                stream,
                fails: 0,
                first_fail: None,
                want_keyframe: false,
                delivered: false,
                entered_rungs: bit_of(backend),
            }),
            d.wf(),
    {
        proof {
            assert(1u8 & 1u8 != 0 && 2u8 & 2u8 != 0) by (bit_vector);
        }
        Decoder {
            backend,
            wire_codec,
            platform,
            vk,
            stream,
            fails: 0,
            first_fail: None,
            want_keyframe: false,
            delivered: false,
            entered_rungs: rung_bit(backend),
        }
    }

    /// A PyroWave decoder: it never demotes, so what a demotion would need stays empty.
    pub fn new_pyrowave(platform: Platform) -> (d: Decoder)
        ensures
            d == (Decoder {
                backend: Backend::PyroWave,
                wire_codec: crate::wire::CODEC_PYROWAVE,
                platform,
                vk: None,
                stream: StreamFormat { chroma_format_idc: crate::video_types::CHROMA_IDC_420, bit_depth: 8 },
                fails: 0,
                first_fail: None,
                want_keyframe: false,
                delivered: false,
                entered_rungs: 0,
            }),
            d.wf(),
    {
        Decoder {
            backend: Backend::PyroWave,
            wire_codec: crate::wire::CODEC_PYROWAVE,
            platform,
            vk: None,
            stream: StreamFormat::sdr_420_8(),
            fails: 0,
            first_fail: None,
            want_keyframe: false,
            delivered: false,
            entered_rungs: 0,
        }
    }

    /// The active rung is native Vulkan. It can still demote later.
    pub fn on_native_vulkan(&self) -> (r: bool)
        ensures
            r == (self.backend == Backend::NativeVulkan),
    {
        self.backend == Backend::NativeVulkan
    }

    /// Whether a wait for a hardware decode gave a sample: `reached` is the timeline's answer,
    /// and only the native Vulkan rung has a timeline.
    pub fn wait_hw_decoded(&self, reached: bool) -> (r: bool)
        ensures
            r == (self.backend == Backend::NativeVulkan && reached),
    {
        self.backend == Backend::NativeVulkan && reached
    }

    /// Decode-integrity counters, or `None` where the rung cannot see corruption. `counters`
    /// are the native rung's.
    pub fn decode_health(&self, counters: DecodeHealth) -> (r: Option<DecodeHealth>)
        ensures
            r == (if self.on_hardware() {
                Some(counters)
            } else {
                None
            }),
            r == (if self.backend == Backend::Software || self.backend == Backend::PyroWave {
                None
            } else {
                Some(counters)
            }),
    {
        match self.backend {
            Backend::NativeVulkan | Backend::NativeVaapi | Backend::NativeD3d11va => Some(counters),
            _ => None,
        }
    }

    /// Newest planned decode-order ordinal; 0 on rungs without a parser of their own.
    pub fn decode_order(&self, newest: u64) -> (r: u64)
        ensures
            r == (if self.backend == Backend::NativeVulkan {
                newest
            } else {
                0
            }),
    {
        if self.backend == Backend::NativeVulkan {
            newest
        } else {
            0
        }
    }

    /// Whether the rung keeps damaged-chain marks to drop when intra refresh healed the picture.
    pub fn forgive_unclean(&self) -> (r: bool)
        ensures
            r == self.on_hardware(),
            r == (self.backend != Backend::Software && self.backend != Backend::PyroWave),
    {
        match self.backend {
            Backend::NativeVulkan | Backend::NativeVaapi | Backend::NativeD3d11va => true,
            _ => false,
        }
    }

    /// Drain the keyframe request.
    pub fn take_keyframe_request(&mut self) -> (r: bool)
        ensures
            r == old(self).want_keyframe,
            *final(self) == (Decoder { want_keyframe: false, ..*old(self) }),
    {
        let wanted: bool = self.want_keyframe;
        self.want_keyframe = false;
        wanted
    }

    /// The state once a backend is swapped in.
    pub open spec fn installed(self, backend: Backend) -> Decoder {
        Decoder {
            backend,
            entered_rungs: self.entered_rungs | bit_of(backend),
            fails: 0,
            first_fail: None,
            delivered: false,
            ..self
        }
    }

    /// Swap a backend in and reset the old one's record.
    pub fn install(&mut self, backend: Backend)
        ensures
            *final(self) == old(self).installed(backend),
            final(self).wf(),
    {
        proof {
            let e = self.entered_rungs;
            assert((e | 1u8) & 1u8 != 0 && (e | 2u8) & 2u8 != 0) by (bit_vector);
        }
        self.entered_rungs = self.entered_rungs | rung_bit(backend);
        self.backend = backend;
        self.fails = 0;
        self.first_fail = None;
        self.delivered = false;
    }

    /// The running rung is the platform's own.
    pub fn is_native_platform_rung(&self) -> (r: bool)
        ensures
            r == (self.backend == platform_backend(self.platform)),
            self.platform == Platform::Linux ==> r == (self.backend == Backend::NativeVaapi),
            self.platform == Platform::Windows ==> r == (self.backend == Backend::NativeD3d11va),
    {
        match self.platform {
            Platform::Linux => self.backend == Backend::NativeVaapi,
            Platform::Windows => self.backend == Backend::NativeD3d11va,
        }
    }

    /// Demote to software when the presenter cannot display hardware frames. `built` is what
    /// building the CPU decoder answered; its refusal is handed on. Nothing happens when
    /// already there.
    pub fn force_software(&mut self, built: Result<(), crate::video::RungLoss>) -> (r: Result<
        bool,
        crate::video::RungLoss,
    >)
        ensures
            old(self).backend == Backend::Software ==> r == Ok::<bool, crate::video::RungLoss>(
                false,
            ) && *final(self) == *old(self),
            old(self).backend != Backend::Software ==> match built {
                Ok(_) => r == Ok::<bool, crate::video::RungLoss>(true) && *final(self) == (Decoder {
                    want_keyframe: true,
                    ..old(self).installed(Backend::Software)
                }),
                Err(loss) => r == Err::<bool, crate::video::RungLoss>(loss) && *final(self)
                    == *old(self),
            },
            old(self).wf() ==> final(self).wf(),
    {
        if self.backend == Backend::Software {
            return Ok(false);
        }
        match built {
            Ok(_) => {
                self.install(Backend::Software);
                self.want_keyframe = true;
                Ok(true)
            },
            Err(loss) => Err(loss),
        }
    }

    /// The state after the rung answered without an error.
    pub open spec fn answered(self, delivered: bool, concealed: bool) -> Decoder {
        if self.on_hardware() {
            let proof_it_works = delivered || !concealed;
            Decoder {
                want_keyframe: self.want_keyframe || concealed,
                fails: if proof_it_works {
                    0
                } else {
                    self.fails
                },
                first_fail: if proof_it_works {
                    None
                } else {
                    self.first_fail
                },
                delivered: self.delivered || delivered,
                ..self
            }
        } else {
            self
        }
    }

    /// The rung answered without an error: a picture or nothing, and whether it concealed
    /// damage. The CPU and PyroWave rungs keep no record.
    pub fn on_answer(&mut self, delivered: bool, concealed: bool)
        ensures
            *final(self) == old(self).answered(delivered, concealed),
    {
        match self.backend {
            Backend::NativeVulkan | Backend::NativeVaapi | Backend::NativeD3d11va => {
                if concealed {
                    self.want_keyframe = true;
                }
                if clears_demotion_streak(delivered, concealed) {
                    self.fails = 0;
                    self.first_fail = None;
                }
                self.delivered = self.delivered || delivered;
            },
            _ => {},
        }
    }

    /// The state after a decode error on a hardware rung.
    pub open spec fn errored(self, now: u64) -> Decoder {
        Decoder {
            fails: if self.fails == u32::MAX {
                u32::MAX
            } else {
                (self.fails + 1) as u32
            },
            want_keyframe: true,
            first_fail: match self.first_fail {
                Some(t) => Some(t),
                None => Some(now),
            },
            ..self
        }
    }

    /// Whether the streak, this error counted, costs the rung its place. A device that cannot
    /// host the codec refuses every unit the same way, so it does not get to wait.
    pub open spec fn demotes(self, device_fact: bool, now: u64) -> bool {
        device_fact || (self.fails >= DEMOTE_AFTER && self.first_fail is Some && now
            - self.first_fail->Some_0 >= DEMOTE_MIN_STREAK_NS)
    }

    /// The rungs a demotion tries, in order; software last.
    pub open spec fn targets(self) -> Seq<Backend> {
        rung_if(
            self.entered_rungs & RUNG_BIT_NATIVE_PLATFORM == 0 && platform_shows(
                self.platform,
                self.vk,
            ) && codec_of(self.wire_codec) is Some,
            platform_backend(self.platform),
        ) + rung_if(
            self.entered_rungs & RUNG_BIT_NATIVE_VULKAN == 0 && self.backend == platform_backend(
                self.platform,
            ) && device_vulkan(self.wire_codec, self.vk),
            Backend::NativeVulkan,
        ) + seq![Backend::Software]
    }

    /// A decode error on a hardware rung. An empty answer keeps the rung; otherwise the
    /// application builds the first of these that it can and installs it.
    pub fn on_error(&mut self, device_fact: bool, now: u64) -> (r: Vec<Backend>)
        requires
            old(self).on_hardware(),
        ensures
            *final(self) == old(self).errored(now),
            r@ == (if old(self).errored(now).demotes(device_fact, now) {
                old(self).targets()
            } else {
                Seq::empty()
            }),
    {
        self.fails = self.fails.saturating_add(1);
        self.want_keyframe = true;
        let first: u64 = match self.first_fail {
            Some(t) => t,
            None => now,
        };
        self.first_fail = Some(first);
        let mut out: Vec<Backend> = Vec::new();
        if device_fact || (self.fails >= DEMOTE_AFTER && now.saturating_sub(first)
            >= DEMOTE_MIN_STREAK_NS) {
            let vk: Option<&VulkanDecodeDevice> = self.vk.as_ref();
            if self.entered_rungs & RUNG_BIT_NATIVE_PLATFORM == 0 && platform_is_usable(
                self.platform,
                self.wire_codec,
                vk,
            ) {
                match self.platform {
                    Platform::Linux => out.push(Backend::NativeVaapi),
                    Platform::Windows => out.push(Backend::NativeD3d11va),
                }
            }
            let ghost one = out@;
            assert(one =~= rung_if(
                self.entered_rungs & RUNG_BIT_NATIVE_PLATFORM == 0 && platform_shows(
                    self.platform,
                    self.vk,
                ) && codec_of(self.wire_codec) is Some,
                platform_backend(self.platform),
            ));
            if self.entered_rungs & RUNG_BIT_NATIVE_VULKAN == 0 && self.is_native_platform_rung()
                && device_runs_vulkan(self.wire_codec, vk) {
                out.push(Backend::NativeVulkan);
            }
            out.push(Backend::Software);
            assert(out@ =~= self.targets());
        }
        out
    }
}

/// What a rung made of an access unit.
#[derive(Debug, Clone, Copy, PartialEq, Eq, Structural)]
pub enum RungAnswer {
    /// No error: a picture or nothing, and whether it concealed damage.
    Answered { delivered: bool, concealed: bool },
    /// An error. `device_fact`: the device cannot host the codec.
    Failed { device_fact: bool },
}

/// What an access unit comes to.
#[derive(Debug, PartialEq, Eq)]
pub enum DecodeStep {
    /// The picture goes on.
    Deliver,
    /// No picture, no failure.
    Nothing,
    /// The error goes on: nothing stands below this rung.
    Fail,
    /// The rung gives way: build the first of these that builds, and install it.
    Demote(Vec<Backend>),
}

impl Decoder {
    /// The rung answered for an access unit. Errors of a hardware rung are not the session's:
    /// they are repaired by a keyframe, or by another rung.
    pub fn on_decoded(&mut self, answer: RungAnswer, now: u64) -> (r: DecodeStep)
        ensures
            match answer {
                RungAnswer::Answered { delivered, concealed } => {
                    &&& *final(self) == old(self).answered(delivered, concealed)
                    &&& r == (if delivered {
                        DecodeStep::Deliver
                    } else {
                        DecodeStep::Nothing
                    })
                },
                RungAnswer::Failed { device_fact } => if !old(self).on_hardware() {
                    r == DecodeStep::Fail && *final(self) == *old(self)
                } else {
                    &&& *final(self) == old(self).errored(now)
                    &&& if old(self).errored(now).demotes(device_fact, now) {
                        r matches DecodeStep::Demote(rungs) && rungs@ == old(self).targets()
                    } else {
                        r == DecodeStep::Nothing
                    }
                },
            },
            old(self).wf() ==> final(self).wf(),
    {
        match answer {
            RungAnswer::Answered { delivered, concealed } => {
                self.on_answer(delivered, concealed);
                if delivered {
                    DecodeStep::Deliver
                } else {
                    DecodeStep::Nothing
                }
            },
            RungAnswer::Failed { device_fact } => {
                match self.backend {
                    Backend::PyroWave | Backend::Software => {
                        return DecodeStep::Fail;
                    },
                    _ => {},
                }
                let rungs: Vec<Backend> = self.on_error(device_fact, now);
                if rungs.len() == 0 {
                    DecodeStep::Nothing
                } else {
                    DecodeStep::Demote(rungs)
                }
            },
        }
    }
}

/// A demotion never goes back to a rung this session has run, always ends at software, and
/// every hardware target it does offer is new. With two hardware rungs the walk is finite.
pub proof fn an_entered_rung_is_never_entered_again(d: Decoder, i: int)
    requires
        d.wf(),
        0 <= i < d.targets().len(),
    ensures
        ({
            let b = d.targets()[i];
            &&& d.targets().last() == Backend::Software
            &&& b != d.backend || b == Backend::Software
            &&& b != Backend::Software ==> {
                &&& d.entered_rungs & bit_of(b) == 0
                &&& d.installed(b).entered_rungs & bit_of(b) != 0
                &&& rungs_left(d.installed(b)) < rungs_left(d)
            }
        }),
{
    let e = d.entered_rungs;
    assert((e | 1u8) & 1u8 != 0 && (e | 2u8) & 2u8 != 0 && (e | 1u8) & 2u8 == e & 2u8 && (e | 2u8)
        & 1u8 == e & 1u8) by (bit_vector);
}

/// An error counts once, starts the streak where none ran, asks for a keyframe and changes
/// nothing else. The rung gives way on the third error in a row once the first is a second old,
/// and at once where the device cannot host the codec.
pub proof fn three_errors_over_a_second_cost_a_rung_its_place(d: Decoder, device_fact: bool, now: u64)
    requires
        d.fails < u32::MAX,
    ensures
        ({
            let e = d.errored(now);
            &&& e.fails == d.fails + 1
            &&& e.want_keyframe
            &&& d.first_fail is None ==> e.first_fail == Some(now)
            &&& d.first_fail is Some ==> e.first_fail == d.first_fail
            &&& e.backend == d.backend && e.entered_rungs == d.entered_rungs && e.delivered
                == d.delivered && e.wire_codec == d.wire_codec && e.vk == d.vk && e.stream
                == d.stream && e.platform == d.platform
            &&& e.demotes(true, now)
            &&& e.demotes(false, now) <==> d.fails >= 2 && d.first_fail is Some && now
                - d.first_fail->Some_0 >= 1_000_000_000
        }),
{
}

/// A demotion offers the platform rung where the session has not run it and it can be shown,
/// then, from the platform rung, Vulkan where the session has not run it and the device decodes
/// the codec, and at the end software, once.
pub proof fn a_demotion_offers_what_can_still_work(d: Decoder)
    ensures
        ({
            let own = platform_backend(d.platform);
            let p = d.entered_rungs & 2 == 0 && platform_can(d.platform, d.wire_codec, d.vk);
            let v = d.entered_rungs & 1 == 0 && d.backend == own && vulkan_can(d.wire_codec, d.vk);
            let t = d.targets();
            &&& own == (if d.platform == Platform::Linux {
                Backend::NativeVaapi
            } else {
                Backend::NativeD3d11va
            })
            &&& p && v ==> t == seq![own, Backend::NativeVulkan, Backend::Software]
            &&& p && !v ==> t == seq![own, Backend::Software]
            &&& !p && v ==> t == seq![Backend::NativeVulkan, Backend::Software]
            &&& !p && !v ==> t == seq![Backend::Software]
        }),
{
    let own = platform_backend(d.platform);
    let p = d.entered_rungs & 2 == 0 && platform_can(d.platform, d.wire_codec, d.vk);
    let v = d.entered_rungs & 1 == 0 && d.backend == own && vulkan_can(d.wire_codec, d.vk);
    if p && v {
        assert(d.targets() =~= seq![own, Backend::NativeVulkan, Backend::Software]);
    } else if p {
        assert(d.targets() =~= seq![own, Backend::Software]);
    } else if v {
        assert(d.targets() =~= seq![Backend::NativeVulkan, Backend::Software]);
    } else {
        assert(d.targets() =~= seq![Backend::Software]);
    }
}

/// A rung that is swapped in starts with a clean record and is remembered as run; the session's
/// codec, shape, device and outstanding keyframe request stay.
pub proof fn a_new_rung_starts_clean(d: Decoder, b: Backend)
    ensures
        ({
            let n = d.installed(b);
            &&& n.backend == b
            &&& n.fails == 0 && n.first_fail is None && !n.delivered
            &&& n.want_keyframe == d.want_keyframe
            &&& n.wire_codec == d.wire_codec && n.vk == d.vk && n.stream == d.stream && n.platform
                == d.platform
            &&& n.entered_rungs & 1 != 0 <==> d.entered_rungs & 1 != 0 || b == Backend::NativeVulkan
            &&& n.entered_rungs & 2 != 0 <==> d.entered_rungs & 2 != 0 || b == Backend::NativeVaapi
                || b == Backend::NativeD3d11va
        }),
{
    let e = d.entered_rungs;
    assert((e | 1u8) & 1u8 != 0 && (e | 2u8) & 2u8 != 0 && (e | 1u8) & 2u8 == e & 2u8 && (e | 2u8)
        & 1u8 == e & 1u8 && (e | 0u8) == e) by (bit_vector);
}

/// An answer without an error: on a hardware rung concealment asks for a keyframe, a picture
/// counts as delivered, and only proof that the rung works ends the streak; the other rungs keep
/// no record.
pub proof fn an_answer_is_held_to_its_rung(d: Decoder, delivered: bool, concealed: bool)
    ensures
        ({
            let a = d.answered(delivered, concealed);
            let hardware = d.backend != Backend::Software && d.backend != Backend::PyroWave;
            &&& !hardware ==> a == d
            &&& hardware ==> a.want_keyframe == (d.want_keyframe || concealed)
            &&& hardware ==> a.delivered == (d.delivered || delivered)
            &&& hardware && (delivered || !concealed) ==> a.fails == 0 && a.first_fail is None
            &&& hardware && !delivered && concealed ==> a.fails == d.fails && a.first_fail
                == d.first_fail
            &&& a.backend == d.backend && a.entered_rungs == d.entered_rungs && a.wire_codec
                == d.wire_codec && a.vk == d.vk && a.stream == d.stream && a.platform == d.platform
        }),
{
}

/// Hardware rungs a session has not run yet.
pub open spec fn rungs_left(d: Decoder) -> int {
    (if d.entered_rungs & RUNG_BIT_NATIVE_VULKAN == 0 {
        1int
    } else {
        0
    }) + (if d.entered_rungs & RUNG_BIT_NATIVE_PLATFORM == 0 {
        1int
    } else {
        0
    })
}

/// Concealment between errors does not save a failing rung: an answer without a picture that
/// concealed damage leaves the streak as it was, and still asks for a keyframe.
pub proof fn concealment_keeps_the_streak(d: Decoder)
    requires
        d.on_hardware(),
    ensures
        d.answered(false, true).fails == d.fails,
        d.answered(false, true).first_fail == d.first_fail,
        d.answered(false, true).want_keyframe,
        d.answered(true, true).fails == 0,
        d.answered(false, false).fails == 0,
{
}

/// A single error, or a burst younger than the minimum streak, never demotes by itself.
pub proof fn a_young_streak_keeps_the_rung(d: Decoder, now: u64)
    requires
        d.errored(now).fails < DEMOTE_AFTER || d.first_fail is None || now - d.first_fail->Some_0
            < DEMOTE_MIN_STREAK_NS,
    ensures
        !d.errored(now).demotes(false, now),
{
}

/// What the session log says of a rung: its name, and its evidence where the table has it.
pub struct RungLine {
    pub rung: &'static str,
    pub evidence: Option<RungEvidence>,
}

/// The table's rung for a backend. PyroWave is not in it.
pub open spec fn rung_of(backend: Backend) -> Option<NativeRung> {
    match backend {
        Backend::NativeVulkan => Some(NativeRung::Vulkan),
        Backend::NativeVaapi => Some(NativeRung::Vaapi),
        Backend::NativeD3d11va => Some(NativeRung::D3d11va),
        Backend::Software => Some(NativeRung::Software),
        Backend::PyroWave => None,
    }
}

/// What the session log says of the rung it landed on.
pub fn log_rung(backend: Backend, wire: u8) -> (r: RungLine)
    ensures
        match rung_of(backend) {
            Some(rung) => {
                &&& r.rung@ == rung.spec_name()
                &&& r.evidence is Some
                &&& r.evidence->Some_0.verified == proven(rung, wire)
                &&& r.evidence->Some_0.note@ == crate::video::evidence_note(rung, wire)
            },
            None => r.rung@ == "pyrowave"@ && r.evidence is None,
        },
        backend == Backend::NativeVulkan ==> r.rung@ == "native-vulkan"@,
        backend == Backend::NativeVaapi ==> r.rung@ == "native-vaapi"@,
        backend == Backend::NativeD3d11va ==> r.rung@ == "native-d3d11va"@,
        backend == Backend::Software ==> r.rung@ == "software"@,
        r.evidence is None <==> backend == Backend::PyroWave,
{
    let rung: NativeRung = match backend {
        Backend::NativeVulkan => NativeRung::Vulkan,
        Backend::NativeVaapi => NativeRung::Vaapi,
        Backend::NativeD3d11va => NativeRung::D3d11va,
        Backend::Software => NativeRung::Software,
        Backend::PyroWave => {
            return RungLine { rung: "pyrowave", evidence: None };
        },
    };
    RungLine { rung: rung.name(), evidence: Some(native_evidence(rung, wire)) }
}

/// Which decoder a session opens.
#[derive(Debug, Clone, Copy, PartialEq, Eq, Structural)]
pub enum Opening {
    /// The ladder, for a picture of this shape.
    Ladder { stream: StreamFormat },
    /// PyroWave on the presenter's device.
    PyroWave { chroma444: bool, hdr16: bool },
    /// PyroWave was negotiated and there is no device to run it on.
    NoDevice,
}

/// Which decoder a session opens, for the codec and shape the host resolved.
pub fn open_decoder(wire: u8, chroma_format: u8, bit_depth: u8, has_device: bool) -> (r: Opening)
    ensures
        r == (if wire != crate::wire::CODEC_PYROWAVE {
            Opening::Ladder { stream: StreamFormat { chroma_format_idc: chroma_format, bit_depth } }
        } else if has_device {
            Opening::PyroWave {
                chroma444: chroma_format == crate::video_types::CHROMA_IDC_444,
                hdr16: bit_depth >= 10,
            }
        } else {
            Opening::NoDevice
        }),
        r is Ladder <==> wire != 8,
        r is Ladder ==> r->stream.chroma_format_idc == chroma_format && r->stream.bit_depth
            == bit_depth,
        r is PyroWave <==> wire == 8 && has_device,
        r is PyroWave ==> r->chroma444 == (chroma_format == 3) && r->hdr16 == (bit_depth >= 10),
{
    if wire != crate::wire::CODEC_PYROWAVE {
        Opening::Ladder { stream: StreamFormat { chroma_format_idc: chroma_format, bit_depth } }
    } else if has_device {
        Opening::PyroWave {
            chroma444: chroma_format == crate::video_types::CHROMA_IDC_444,
            hdr16: bit_depth >= 10,
        }
    } else {
        Opening::NoDevice
    }
}

/// A walk down a list of rungs, one attempt at a time. Software stands under every list.
pub struct Walk {
    pub rungs: Vec<Backend>,
    pub tried: usize,
}

impl Walk {
    /// No more attempts than rungs.
    pub open spec fn wf(self) -> bool {
        self.tried <= self.rungs@.len()
    }

    /// The rung to build next.
    pub open spec fn next(self) -> Backend {
        if self.tried < self.rungs@.len() {
            self.rungs@[self.tried as int]
        } else {
            Backend::Software
        }
    }

    /// A walk at the top of a list.
    pub fn new(rungs: Vec<Backend>) -> (w: Walk)
        ensures
            w.wf(),
            w.rungs@ == rungs@,
            w.tried == 0,
    {
        Walk { rungs, tried: 0 }
    }

    /// The rung to build next.
    pub fn current(&self) -> (r: Backend)
        ensures
            r == self.next(),
            self.tried < self.rungs@.len() ==> r == self.rungs@[self.tried as int],
            self.tried >= self.rungs@.len() ==> r == Backend::Software,
    {
        if self.tried < self.rungs.len() {
            self.rungs[self.tried]
        } else {
            Backend::Software
        }
    }

    /// The rung to build did not build. False once software, the last one, has failed.
    pub fn failed(&mut self) -> (more: bool)
        requires
            old(self).wf(),
        ensures
            final(self).wf(),
            final(self).rungs@ == old(self).rungs@,
            more == (old(self).next() != Backend::Software),
            final(self).tried == (if more {
                old(self).tried + 1
            } else {
                old(self).tried as int
            }),
    {
        if self.tried >= self.rungs.len() || self.rungs[self.tried] == Backend::Software {
            return false;
        }
        self.tried = self.tried + 1;
        true
    }
}

/// How building a rung went.
#[derive(Debug, Clone, Copy, PartialEq, Eq, Structural)]
pub enum Built {
    Yes,
    No,
    /// The CPU rung has no decoder for the codec.
    NoRung(crate::video::RungLoss),
}

/// What follows an attempt to build a rung.
#[derive(Debug, Clone, Copy, PartialEq, Eq, Structural)]
pub enum WalkStep {
    /// The session runs on this rung.
    Running(Backend),
    /// Build this one next.
    Build(Backend),
    /// Nothing is left; a loss says why where it is known.
    Refused(Option<crate::video::RungLoss>),
}

impl Walk {
    /// An attempt to build the next rung ended. Only the last rung's failure is the walk's.
    pub fn on_built(&mut self, built: Built) -> (r: WalkStep)
        requires
            old(self).wf(),
        ensures
            final(self).wf(),
            final(self).rungs@ == old(self).rungs@,
            r == (if built == Built::Yes {
                WalkStep::Running(old(self).next())
            } else if old(self).next() != Backend::Software {
                WalkStep::Build(final(self).next())
            } else {
                WalkStep::Refused(
                    match built {
                        Built::NoRung(loss) => Some(loss),
                        _ => None,
                    },
                )
            }),
            final(self).tried == (if r is Build {
                old(self).tried + 1
            } else {
                old(self).tried as int
            }),
            old(self).tried < old(self).rungs@.len() && built == Built::Yes ==> r
                == WalkStep::Running(old(self).rungs@[old(self).tried as int]),
            old(self).tried == old(self).rungs@.len() && built == Built::Yes ==> r
                == WalkStep::Running(Backend::Software),
            old(self).tried + 1 < old(self).rungs@.len() && built != Built::Yes && old(
                self,
            ).rungs@[old(self).tried as int] != Backend::Software ==> r == WalkStep::Build(
                old(self).rungs@[old(self).tried + 1],
            ),
    {
        match built {
            Built::Yes => WalkStep::Running(self.current()),
            _ => {
                if self.failed() {
                    return WalkStep::Build(self.current());
                }
                match built {
                    Built::NoRung(loss) => WalkStep::Refused(Some(loss)),
                    _ => WalkStep::Refused(None),
                }
            },
        }
    }

    /// Attempts still ahead, this one counted.
    pub open spec fn attempts_left(self) -> int {
        self.rungs@.len() - self.tried + 1
    }
}

/// A walk ends: a rung that does not build leaves fewer attempts, and the last one is software,
/// whose failure ends it.
pub proof fn a_walk_ends(before: Walk, after: Walk)
    requires
        before.wf(),
        after.rungs@ == before.rungs@,
        before.next() != Backend::Software,
        after.tried == before.tried + 1,
    ensures
        after.wf(),
        1 <= after.attempts_left() < before.attempts_left(),
        after.attempts_left() == 1 ==> after.next() == Backend::Software,
{
}

/// Whether the CPU rung has a decoder for a codec, and why not.
pub fn software_rung(wire: u8) -> (r: Result<(), crate::video::RungLoss>)
    ensures
        r == (if wire == crate::wire::CODEC_H264 || wire == crate::wire::CODEC_AV1 {
            Ok::<(), crate::video::RungLoss>(())
        } else {
            Err(crate::video::RungLoss::Codec)
        }),
{
    if has_software_rung(wire) {
        Ok(())
    } else {
        Err(crate::video::RungLoss::Codec)
    }
}

} // verus!
