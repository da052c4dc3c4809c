//! What one session asks of a host, and how it ends.

use vstd::prelude::*;
use crate::pad_slot::GamepadPref;
use crate::plan::{ConnectPlan, ResolvedSpec, SpecState, DEFAULT_CONNECT_TIMEOUT_SECS};
use crate::settings::{codec_bit, MouseMode, Settings, SettingsState};
use crate::text::{
    copy_opt, join, lower, lowered, opt_view, parse_uint, parsed, same, split_is_unique, split_once,
    splits, trim, trimmed,
};
use crate::video::{
    a_retry_never_reoffers, amd_vulkan_hdr_driver_notice, codec_name, decodable_codecs_for,
    driver_line, last_rung_verdict, older_driver, opt_str, promised, verdict, video_caps_for,
    wire_codec_name, LastRungVerdict, Platform, RungLoss, VulkanDecodeDevice,
};
use crate::video_types::DecodeHealth;
use crate::wire::{
    has8, make_mask4, mask4, mask4_bits, CODEC_PYROWAVE, TRANSFER_PQ, VENDOR_AMD, VIDEO_CAP_444,
};

verus! {

/// A picture size and rate.
#[derive(Debug, Clone, Copy, PartialEq, Eq, Structural)]
pub struct Mode {
    pub width: u32,
    pub height: u32,
    pub refresh_hz: u32,
}

/// A panel's HDR volume.
#[derive(Debug, Clone, Copy, PartialEq, Eq, Default)]
pub struct HdrMeta {
    /// Green, blue and red, in units of 1/50000.
    pub display_primaries: [[u16; 2]; 3],
    pub white_point: [u16; 2],
    /// In units of 0.0001 candela per square metre.
    pub max_display_mastering_luminance: u32,
    pub min_display_mastering_luminance: u32,
    pub max_cll: u16,
    pub max_fall: u16,
}

/// A display's colours, already in the units a panel's volume is told in.
#[derive(Debug, Clone, Copy, PartialEq, Eq)]
pub struct OutputColours {
    /// The display is driven as PQ over BT.2020.
    pub pq: bool,
    pub red: [u16; 2],
    pub green: [u16; 2],
    pub blue: [u16; 2],
    pub white: [u16; 2],
    pub max_luminance: u32,
    pub min_luminance: u32,
    /// In whole candela per square metre.
    pub peak: u16,
    pub full_frame: u16,
}

impl HdrMeta {
    /// The volume of a display; one that shows no HDR has none. The primaries are told green,
    /// blue, red.
    pub fn of_output(d: &OutputColours) -> (r: Option<HdrMeta>)
        ensures
            (r is Some) == d.pq,
            r matches Some(m) ==> {
                &&& m.display_primaries@ == seq![d.green, d.blue, d.red]
                &&& m.white_point == d.white
                &&& m.max_display_mastering_luminance == d.max_luminance
                &&& m.min_display_mastering_luminance == d.min_luminance
                &&& m.max_cll == d.peak
                &&& m.max_fall == d.full_frame
            },
    {
        if !d.pq {
            return None;
        }
        let display_primaries: [[u16; 2]; 3] = [d.green, d.blue, d.red];
        assert(display_primaries@ =~= seq![d.green, d.blue, d.red]);
        Some(
            HdrMeta {
                display_primaries,
                white_point: d.white,
                max_display_mastering_luminance: d.max_luminance,
                min_display_mastering_luminance: d.min_luminance,
                max_cll: d.peak,
                max_fall: d.full_frame,
            },
        )
    }
}

/// How much the overlay shows.
#[derive(Debug, Clone, Copy, PartialEq, Eq, Structural)]
pub enum StatsVerbosity {
    Off,
    Compact,
    Detailed,
}

/// A session's parameters, as values.
#[verifier::ext_equal]
pub struct ParamsState {
    pub host: Seq<char>,
    pub port: u16,
    pub mode: Mode,
    pub compositor: Seq<char>,
    pub gamepad: GamepadPref,
    pub bitrate_kbps: u32,
    pub audio_channels: u8,
    pub audio_format: Seq<char>,
    pub preferred_codec: u8,
    pub exclude_codecs: u8,
    pub video_caps: u8,
    pub want_444: bool,
    pub display_hdr: Option<HdrMeta>,
    pub mic_enabled: bool,
    pub echo_cancel: bool,
    pub pad_haptics: bool,
    pub pad_speaker: Seq<char>,
    pub clipboard: bool,
    pub keep_host_audio: bool,
    pub video_fit: Seq<char>,
    pub cursor_forward: bool,
    pub decoder: Seq<char>,
    pub launch: Option<Seq<char>>,
    pub vulkan: Option<VulkanDecodeDevice>,
    pub pin: Option<[u8; 32]>,
    pub identity: (Seq<char>, Seq<char>),
    pub connect_timeout_secs: u64,
    pub preset: Option<Seq<char>>,
    pub preset_id: Option<Seq<char>>,
    pub stats_verbosity: StatsVerbosity,
    pub advanced_stats: bool,
    pub phase_lock: bool,
}

/// A session's parameters.
#[derive(Debug)]
pub struct SessionParams {
    pub host: String,
    pub port: u16,
    pub mode: Mode,
    /// The host's compositor, by the name in the settings.
    pub compositor: String,
    pub gamepad: GamepadPref,
    pub bitrate_kbps: u32,
    pub audio_channels: u8,
    /// A request; the host may still answer otherwise.
    pub audio_format: String,
    /// A codec bit; zero leaves the choice to the host.
    pub preferred_codec: u8,
    /// Codec bits an earlier attempt ruled out.
    pub exclude_codecs: u8,
    /// The video capabilities advertised.
    pub video_caps: u8,
    /// The full-chroma switch as set.
    pub want_444: bool,
    /// This panel's HDR volume.
    pub display_hdr: Option<HdrMeta>,
    pub mic_enabled: bool,
    pub echo_cancel: bool,
    pub pad_haptics: bool,
    /// Where a pad's speaker stream goes.
    pub pad_speaker: String,
    pub clipboard: bool,
    pub keep_host_audio: bool,
    pub video_fit: String,
    /// The client draws the host's cursor.
    pub cursor_forward: bool,
    pub decoder: String,
    /// What the host starts; none is the desktop.
    pub launch: Option<String>,
    /// The presenter's device.
    pub vulkan: Option<VulkanDecodeDevice>,
    /// The host's fingerprint; none is trust on first use.
    pub pin: Option<[u8; 32]>,
    pub identity: (String, String),
    /// Handshake budget.
    pub connect_timeout_secs: u64,
    /// The preset these were resolved with, for the overlay.
    pub preset: Option<String>,
    /// That preset's id, for the host.
    pub preset_id: Option<String>,
    /// How much the overlay shows.
    pub stats_verbosity: StatsVerbosity,
    pub advanced_stats: bool,
    /// The presenter knows when a picture reaches the glass.
    pub phase_lock: bool,
}

impl View for SessionParams {
    type V = ParamsState;

    open spec fn view(&self) -> ParamsState {
        ParamsState {
            host: self.host@,
            port: self.port,
            mode: self.mode,
            compositor: self.compositor@,
            gamepad: self.gamepad,
            bitrate_kbps: self.bitrate_kbps,
            audio_channels: self.audio_channels,
            audio_format: self.audio_format@,
            preferred_codec: self.preferred_codec,
            exclude_codecs: self.exclude_codecs,
            video_caps: self.video_caps,
            want_444: self.want_444,
            display_hdr: self.display_hdr,
            mic_enabled: self.mic_enabled,
            echo_cancel: self.echo_cancel,
            pad_haptics: self.pad_haptics,
            pad_speaker: self.pad_speaker@,
            clipboard: self.clipboard,
            keep_host_audio: self.keep_host_audio,
            video_fit: self.video_fit@,
            cursor_forward: self.cursor_forward,
            decoder: self.decoder@,
            launch: opt_view(self.launch),
            vulkan: self.vulkan,
            pin: self.pin,
            identity: (self.identity.0@, self.identity.1@),
            connect_timeout_secs: self.connect_timeout_secs,
            preset: opt_view(self.preset),
            preset_id: opt_view(self.preset_id),
            stats_verbosity: self.stats_verbosity,
            advanced_stats: self.advanced_stats,
            phase_lock: self.phase_lock,
        }
    }
}

/// The same parameters once more: a retry with another codec dials with them again.
impl Clone for SessionParams {
    fn clone(&self) -> (p: SessionParams)
        ensures
            p@ == self@,
    {
        let p = SessionParams {
            host: self.host.as_str().to_owned(),
            port: self.port,
            mode: self.mode,
            compositor: self.compositor.as_str().to_owned(),
            gamepad: self.gamepad,
            bitrate_kbps: self.bitrate_kbps,
            audio_channels: self.audio_channels,
            audio_format: self.audio_format.as_str().to_owned(),
            preferred_codec: self.preferred_codec,
            exclude_codecs: self.exclude_codecs,
            video_caps: self.video_caps,
            want_444: self.want_444,
            display_hdr: self.display_hdr,
            mic_enabled: self.mic_enabled,
            echo_cancel: self.echo_cancel,
            pad_haptics: self.pad_haptics,
            pad_speaker: self.pad_speaker.as_str().to_owned(),
            clipboard: self.clipboard,
            keep_host_audio: self.keep_host_audio,
            video_fit: self.video_fit.as_str().to_owned(),
            cursor_forward: self.cursor_forward,
            decoder: self.decoder.as_str().to_owned(),
            launch: copy_opt(&self.launch),
            vulkan: self.vulkan,
            pin: self.pin,
            identity: (
                self.identity.0.as_str().to_owned(),
                self.identity.1.as_str().to_owned(),
            ),
            connect_timeout_secs: self.connect_timeout_secs,
            preset: copy_opt(&self.preset),
            preset_id: copy_opt(&self.preset_id),
            stats_verbosity: self.stats_verbosity,
            advanced_stats: self.advanced_stats,
            phase_lock: self.phase_lock,
        };
        assert(p@ =~= self@);
        p
    }
}

/// Where one dial goes, as values.
#[verifier::ext_equal]
pub struct DialState {
    pub host: Seq<char>,
    pub port: u16,
    pub pin: [u8; 32],
    pub launch: Option<Seq<char>>,
    pub connect_timeout_secs: u64,
}

/// Where one dial goes.
#[derive(Debug)]
pub struct Dial {
    pub host: String,
    pub port: u16,
    pub pin: [u8; 32],
    pub launch: Option<String>,
    pub connect_timeout_secs: u64,
}

impl View for Dial {
    type V = DialState;

    open spec fn view(&self) -> DialState {
        DialState {
            host: self.host@,
            port: self.port,
            pin: self.pin,
            launch: opt_view(self.launch),
            connect_timeout_secs: self.connect_timeout_secs,
        }
    }
}

/// What this device is, as values.
#[verifier::ext_equal]
pub struct ProbesState {
    pub mode: Mode,
    pub vulkan: Option<VulkanDecodeDevice>,
    pub display_hdr: Option<HdrMeta>,
    pub hdr_enabled: bool,
    pub identity: (Seq<char>, Seq<char>),
    pub gamepad: GamepadPref,
    pub stats_verbosity: StatsVerbosity,
    pub hevc_444_hardware: bool,
}

/// What this device is: facts no plan carries.
#[derive(Debug)]
pub struct Probes {
    pub mode: Mode,
    pub vulkan: Option<VulkanDecodeDevice>,
    pub display_hdr: Option<HdrMeta>,
    /// This display shows HDR.
    pub hdr_enabled: bool,
    pub identity: (String, String),
    pub gamepad: GamepadPref,
    pub stats_verbosity: StatsVerbosity,
    /// This device decodes HEVC 4:4:4.
    pub hevc_444_hardware: bool,
}

impl View for Probes {
    type V = ProbesState;

    open spec fn view(&self) -> ProbesState {
        ProbesState {
            mode: self.mode,
            vulkan: self.vulkan,
            display_hdr: self.display_hdr,
            hdr_enabled: self.hdr_enabled,
            identity: (self.identity.0@, self.identity.1@),
            gamepad: self.gamepad,
            stats_verbosity: self.stats_verbosity,
            hevc_444_hardware: self.hevc_444_hardware,
        }
    }
}

/// The mode asked for: what the user set, and the display's own where that is nothing.
pub open spec fn asked_mode(s: SettingsState, display: Mode) -> Mode {
    Mode {
        width: if s.width == 0 {
            display.width
        } else {
            s.width
        },
        height: if s.height == 0 {
            display.height
        } else {
            s.height
        },
        refresh_hz: if s.refresh_hz != 0 {
            s.refresh_hz
        } else if display.refresh_hz < 30 {
            30
        } else {
            display.refresh_hz
        },
    }
}

/// The mode asked for, before the picture is scaled.
pub fn mode_for(s: &Settings, display: Mode) -> (m: Mode)
    ensures
        m == asked_mode(s@, display),
{
    Mode {
        width: if s.width == 0 {
            display.width
        } else {
            s.width
        },
        height: if s.height == 0 {
            display.height
        } else {
            s.height
        },
        refresh_hz: if s.refresh_hz != 0 {
            s.refresh_hz
        } else if display.refresh_hz < 30 {
            30
        } else {
            display.refresh_hz
        },
    }
}

/// Whether HDR is asked for: the user wants it and the display shows it.
pub open spec fn asks_hdr(s: SettingsState, probes: ProbesState) -> bool {
    s.hdr_enabled && probes.hdr_enabled
}

/// The capabilities a session advertises.
pub open spec fn asked_caps(s: SettingsState, probes: ProbesState) -> u8 {
    mask4(
        asks_hdr(s, probes) || s.ten_bit_sdr,
        asks_hdr(s, probes),
        s.enable_444 && probes.hevc_444_hardware,
        true,
    )
}

/// The parameters of a session.
pub open spec fn filled(
    spec: SpecState,
    dial: DialState,
    probes: ProbesState,
    scaled: Option<(u32, u32)>,
) -> ParamsState {
    let s = spec.settings;
    let mode = asked_mode(s, probes.mode);
    ParamsState {
        host: dial.host,
        port: dial.port,
        mode: match scaled {
            Some((width, height)) => Mode { width, height, ..mode },
            None => mode,
        },
        compositor: s.compositor,
        gamepad: probes.gamepad,
        bitrate_kbps: s.bitrate_kbps,
        audio_channels: s.audio_channels,
        audio_format: s.audio_format,
        preferred_codec: codec_bit(s.codec),
        exclude_codecs: 0,
        video_caps: asked_caps(s, probes),
        want_444: s.enable_444,
        display_hdr: if asks_hdr(s, probes) {
            probes.display_hdr
        } else {
            None
        },
        mic_enabled: s.mic_enabled,
        echo_cancel: s.echo_cancel,
        pad_haptics: s.pad_haptics,
        pad_speaker: s.pad_speaker,
        clipboard: spec.clipboard,
        keep_host_audio: s.keep_host_audio,
        video_fit: s.video_fit,
        cursor_forward: s.mouse == MouseMode::Desktop,
        decoder: s.decoder,
        launch: dial.launch,
        vulkan: probes.vulkan,
        pin: Some(dial.pin),
        identity: probes.identity,
        connect_timeout_secs: dial.connect_timeout_secs,
        preset: spec.preset,
        preset_id: spec.preset_id,
        stats_verbosity: probes.stats_verbosity,
        advanced_stats: s.advanced_stats,
        phase_lock: probes.vulkan matches Some(v) && v.present_timing,
    }
}

impl SessionParams {
    /// The parameters of a session. `scaled` is the size the render scale makes of the mode
    /// asked for. The panel's volume goes to the host's display, so it rides only with HDR on.
    pub fn from_plan(
        settings: &Settings,
        clipboard: bool,
        preset: Option<String>,
        preset_id: Option<String>,
        dial: Dial,
        probes: Probes,
        scaled: Option<(u32, u32)>,
    ) -> (p: SessionParams)
        ensures
            p@ == filled(
                (SpecState {
                    settings: settings@,
                    clipboard,
                    preset: opt_view(preset),
                    preset_id: opt_view(preset_id),
                }),
                dial@,
                probes@,
                scaled,
            ),
    {
        let mut mode: Mode = mode_for(settings, probes.mode);
        match scaled {
            Some((width, height)) => {
                mode = Mode { width, height, refresh_hz: mode.refresh_hz };
            },
            None => {},
        }
        let advertise_hdr: bool = settings.hdr_enabled && probes.hdr_enabled;
        let caps_444: bool = settings.enable_444 && probes.hevc_444_hardware;
        let display_hdr: Option<HdrMeta> = if advertise_hdr {
            probes.display_hdr
        } else {
            None
        };
        let phase_lock: bool = match probes.vulkan {
            Some(v) => v.present_timing,
            None => false,
        };
        let cursor_forward: bool = match settings.mouse {
            MouseMode::Desktop => true,
            MouseMode::Capture => false,
        };
        let ghost spec = SpecState {
            settings: settings@,
            clipboard,
            preset: opt_view(preset),
            preset_id: opt_view(preset_id),
        };
        let ghost want = filled(spec, dial@, probes@, scaled);
        let p = SessionParams {
            host: dial.host,
            port: dial.port,
            mode,
            compositor: settings.compositor.as_str().to_owned(),
            gamepad: probes.gamepad,
            bitrate_kbps: settings.bitrate_kbps,
            audio_channels: settings.audio_channels,
            audio_format: settings.audio_format.as_str().to_owned(),
            preferred_codec: settings.preferred_codec(),
            exclude_codecs: 0,
            video_caps: video_caps_for(advertise_hdr, settings.ten_bit_sdr, caps_444),
            want_444: settings.enable_444,
            display_hdr,
            mic_enabled: settings.mic_enabled,
            echo_cancel: settings.echo_cancel,
            pad_haptics: settings.pad_haptics,
            pad_speaker: settings.pad_speaker.as_str().to_owned(),
            clipboard,
            keep_host_audio: settings.keep_host_audio,
            video_fit: settings.video_fit.as_str().to_owned(),
            cursor_forward,
            decoder: settings.decoder.as_str().to_owned(),
            launch: dial.launch,
            vulkan: probes.vulkan,
            pin: Some(dial.pin),
            identity: probes.identity,
            connect_timeout_secs: dial.connect_timeout_secs,
            preset,
            preset_id,
            stats_verbosity: probes.stats_verbosity,
            advanced_stats: settings.advanced_stats,
            phase_lock,
        };
        assert(p@ =~= want);
        p
    }
}

/// The dial of a plan.
pub open spec fn dial_of(p: crate::plan::PlanState, pin: [u8; 32]) -> DialState {
    DialState {
        host: p.host.addr,
        port: p.host.port,
        pin,
        launch: p.launch,
        connect_timeout_secs: match p.connect_timeout_secs {
            Some(s) => s,
            None => DEFAULT_CONNECT_TIMEOUT_SECS,
        },
    }
}

/// What a plan hands to its session.
pub open spec fn spec_of(p: crate::plan::PlanState) -> SpecState {
    SpecState {
        settings: p.settings,
        clipboard: p.clipboard,
        preset: match p.preset {
            Some(q) => Some(q.name),
            None => None,
        },
        preset_id: match p.preset {
            Some(q) => Some(q.id),
            None => None,
        },
    }
}

impl ResolvedSpec {
    /// The parameters of a session that was handed this.
    pub fn session_params(&self, dial: Dial, probes: Probes, scaled: Option<(u32, u32)>) -> (p:
        SessionParams)
        ensures
            p@ == filled(self@, dial@, probes@, scaled),
    {
        SessionParams::from_plan(
            &self.settings,
            self.clipboard,
            copy_opt(&self.preset),
            copy_opt(&self.preset_id),
            dial,
            probes,
            scaled,
        )
    }
}

impl ConnectPlan {
    /// The parameters of this plan's session. A plan without a budget gets the usual one.
    pub fn session_params(&self, pin: [u8; 32], probes: Probes, scaled: Option<(u32, u32)>) -> (p:
        SessionParams)
        ensures
            p@ == filled(spec_of(self@), dial_of(self@, pin), probes@, scaled),
    {
        let secs: u64 = match self.connect_timeout_secs {
            Some(s) => s,
            None => DEFAULT_CONNECT_TIMEOUT_SECS,
        };
        let dial = Dial {
            host: self.host.addr.as_str().to_owned(),
            port: self.host.port,
            pin,
            launch: copy_opt(&self.launch),
            connect_timeout_secs: secs,
        };
        assert(dial@ =~= dial_of(self@, pin));
        let spec: ResolvedSpec = self.spec(self.clipboard);
        assert(spec@ =~= spec_of(self@));
        spec.session_params(dial, probes, scaled)
    }
}

/// The panel's volume never reaches a host without HDR: neither where the user declined it
/// nor where the display cannot show it.
pub proof fn the_volume_rides_only_with_hdr(
    spec: SpecState,
    dial: DialState,
    probes: ProbesState,
    scaled: Option<(u32, u32)>,
)
    ensures
        filled(spec, dial, probes, scaled).display_hdr is Some ==> has8(
            filled(spec, dial, probes, scaled).video_caps,
            crate::wire::VIDEO_CAP_HDR,
        ),
{
    let s = spec.settings;
    mask4_bits(
        asks_hdr(s, probes) || s.ten_bit_sdr,
        asks_hdr(s, probes),
        s.enable_444 && probes.hevc_444_hardware,
        true,
    );
}

/// The microphone of a session, muted or not. Nothing is muted without an uplink.
///
/// A value is the one state of a session, so it has no copies. It is owned once; the client's
/// toggle and the capture side share it through its owner and see the same mute.
#[derive(Debug, PartialEq, Eq, Structural)]
pub struct MicControl {
    pub muted: bool,
    pub live: bool,
}

impl Default for MicControl {
    fn default() -> (m: MicControl)
        ensures
            !m.live,
            !m.muted,
    {
        MicControl { muted: false, live: false }
    }
}

impl MicControl {
    /// Whether a mute is shown.
    pub open spec fn shows_muted(self) -> bool {
        self.live && self.muted
    }

    /// A flip of the mute.
    pub open spec fn toggled(self) -> (MicControl, Option<bool>) {
        if self.live {
            (MicControl { muted: !self.muted, ..self }, Some(!self.muted))
        } else {
            (self, None)
        }
    }

    /// Whether the uplink runs.
    pub fn live(&self) -> (r: bool)
        ensures
            r == self.live,
    {
        self.live
    }

    /// Whether the microphone is muted; false without an uplink.
    pub fn muted(&self) -> (r: bool)
        ensures
            r == self.shows_muted(),
    {
        self.live && self.muted
    }

    /// Flip the mute. `None` where there is no uplink to mute.
    pub fn toggle(&mut self) -> (r: Option<bool>)
        ensures
            (*final(self), r) == old(self).toggled(),
    {
        if !self.live {
            return None;
        }
        self.muted = !self.muted;
        Some(self.muted)
    }

    /// What the capture side reads.
    pub fn flag(&self) -> (r: bool)
        ensures
            r == self.muted,
    {
        self.muted
    }

    /// The uplink started or stopped.
    pub fn set_live(&mut self, live: bool)
        ensures
            *final(self) == (MicControl { live, ..*old(self) }),
    {
        self.live = live;
    }
}

/// Without an uplink a mute does nothing and shows nothing; with one, two flips undo each
/// other.
pub proof fn a_mute_needs_an_uplink(m: MicControl)
    ensures
        !m.live ==> m.toggled() == (m, None::<bool>) && !m.shows_muted(),
        m.live ==> m.toggled().0.toggled().0 == m,
        m.live ==> m.toggled().0.shows_muted() == !m.shows_muted(),
        !(MicControl { live: false, ..m }).shows_muted(),
{
}

/// The spelling of the compressed format.
pub const AUDIO_FORMAT_OPUS: &'static str = "opus";

/// The spelling of the lossless format at 48 kHz.
pub const AUDIO_FORMAT_LOSSLESS_48: &'static str = "lossless48";

/// The spelling of the lossless format at 96 kHz.
pub const AUDIO_FORMAT_LOSSLESS_96: &'static str = "lossless96";

/// What an audio-format setting asks for.
pub open spec fn format_wire(setting: Seq<char>) -> Option<(u32, u8)> {
    if setting == "lossless48"@ {
        Some((48_000u32, 24u8))
    } else if setting == "lossless96"@ {
        Some((96_000u32, 24u8))
    } else {
        None
    }
}

/// What an audio-format setting asks for. One this client does not know is no reason to
/// refuse a connect.
pub fn audio_format_wire(setting: &str) -> (r: Option<(u32, u8)>)
    ensures
        r == format_wire(setting@),
{
    if same(setting, "lossless48") {
        Some((48_000, 24))
    } else if same(setting, "lossless96") {
        Some((96_000, 24))
    } else {
        None
    }
}

/// What an override asks for.
#[derive(Debug, Clone, Copy, PartialEq, Eq, Structural)]
pub enum AudioRequest {
    /// The compressed plane.
    Legacy,
    /// The lossless plane: rate and depth.
    Hires(u32, u8),
    /// Nothing this client can ask for.
    Unsupported,
}

/// Where the first `c` of `s` stands; its length where there is none.
pub open spec fn first_at(s: Seq<char>, c: char) -> nat
    decreases s.len(),
{
    if s.len() == 0 || s[0] == c {
        0
    } else {
        1 + first_at(s.skip(1), c)
    }
}

/// The parts before and after the first `c`.
pub open spec fn cut(s: Seq<char>, c: char) -> Option<(Seq<char>, Seq<char>)> {
    if s.contains(c) {
        Some((s.take(first_at(s, c) as int), s.skip(first_at(s, c) as int + 1)))
    } else {
        None
    }
}

proof fn first_is_first(s: Seq<char>, c: char)
    ensures
        first_at(s, c) <= s.len(),
        first_at(s, c) < s.len() ==> s[first_at(s, c) as int] == c,
        forall|i: int| 0 <= i < first_at(s, c) ==> s[i] != c,
    decreases s.len(),
{
    if s.len() > 0 && s[0] != c {
        let t = s.skip(1);
        first_is_first(t, c);
        assert forall|i: int| 0 <= i < first_at(s, c) implies s[i] != c by {
            if i > 0 {
                assert(t[i - 1] == s[i]);
            }
        }
    }
}

/// Cutting a text at a character gives the parts before and after the first of it.
pub proof fn cut_splits(s: Seq<char>, c: char)
    ensures
        splits(s, c, cut(s, c)),
{
    first_is_first(s, c);
    if s.contains(c) {
        let k = choose|k: int| 0 <= k < s.len() && s[k] == c;
        let n = first_at(s, c) as int;
        assert(n < s.len());
        assert(s =~= s.take(n) + seq![c] + s.skip(n + 1));
    }
}

/// The views of two parts.
spec fn parts_of(r: Option<(String, String)>) -> Option<(Seq<char>, Seq<char>)> {
    match r {
        Some((a, b)) => Some((a@, b@)),
        None => None,
    }
}

fn cut_at(s: &str, c: char) -> (r: Option<(String, String)>)
    ensures
        parts_of(r) == cut(s@, c),
{
    let r: Option<(String, String)> = split_once(s, c);
    proof {
        cut_splits(s@, c);
        split_is_unique(s@, c, parts_of(r), cut(s@, c));
    }
    r
}

/// Whether a word means no.
pub open spec fn says_off(v: Seq<char>) -> bool {
    v == ""@ || v == "0"@ || v == "off"@ || v == "false"@ || v == "no"@
}

/// Whether a word means yes.
pub open spec fn says_on(v: Seq<char>) -> bool {
    v == "1"@ || v == "on"@ || v == "true"@ || v == "yes"@
}

/// Whether the lossless plane carries a format.
pub open spec fn carries(rate: int, bits: int) -> bool {
    (rate == 48_000 || rate == 96_000) && (bits == 16 || bits == 24)
}

/// What an override asks for.
pub open spec fn request_of(raw: Seq<char>) -> AudioRequest {
    let v = lowered(trimmed(raw));
    if says_off(v) {
        AudioRequest::Legacy
    } else if says_on(v) {
        AudioRequest::Hires(96_000, 24)
    } else {
        let (rate, bits) = match cut(v, '/') {
            Some((a, b)) => (a, b),
            None => (v, "24"@),
        };
        match (parsed(trimmed(rate), u32::MAX as int), parsed(trimmed(bits), 255)) {
            (Some(r), Some(b)) => if carries(r, b) {
                AudioRequest::Hires(r as u32, b as u8)
            } else {
                AudioRequest::Unsupported
            },
            _ => AudioRequest::Unsupported,
        }
    }
}

fn is_off(v: &str) -> (r: bool)
    ensures
        r == says_off(v@),
{
    same(v, "") || same(v, "0") || same(v, "off") || same(v, "false") || same(v, "no")
}

fn is_on(v: &str) -> (r: bool)
    ensures
        r == says_on(v@),
{
    same(v, "1") || same(v, "on") || same(v, "true") || same(v, "yes")
}

/// Reads an override: a yes or no, a rate, or a rate and a depth. Rates the plane cannot carry
/// are not asked for.
pub fn parse_audio_format(raw: &str) -> (r: AudioRequest)
    ensures
        r == request_of(raw@),
{
    let cut_off: String = trim(raw);
    let v: String = lower(cut_off.as_str());
    if is_off(v.as_str()) {
        return AudioRequest::Legacy;
    }
    if is_on(v.as_str()) {
        return AudioRequest::Hires(96_000, 24);
    }
    let (rate, bits): (String, String) = match cut_at(v.as_str(), '/') {
        Some((a, b)) => (a, b),
        None => (v, "24".to_owned()),
    };
    let rate_text: String = trim(rate.as_str());
    let bits_text: String = trim(bits.as_str());
    match (parse_uint(rate_text.as_str(), u32::MAX as u64), parse_uint(bits_text.as_str(), 255)) {
        (Some(r), Some(b)) => if (r == 48_000 || r == 96_000) && (b == 16 || b == 24) {
            AudioRequest::Hires(r as u32, b as u8)
        } else {
            AudioRequest::Unsupported
        },
        _ => AudioRequest::Unsupported,
    }
}

/// The format asked for: the environment decides where it says something this client can ask
/// for, the setting otherwise.
pub open spec fn wanted_format(env: Option<Seq<char>>, setting: Seq<char>) -> Option<(u32, u8)> {
    match env {
        Some(raw) => match request_of(raw) {
            AudioRequest::Legacy => None,
            AudioRequest::Hires(rate, bits) => Some((rate, bits)),
            AudioRequest::Unsupported => format_wire(setting),
        },
        None => format_wire(setting),
    }
}

/// The format asked for. A typo in the environment is not a no: the setting still decides.
pub fn resolve_audio_format(env: Option<&str>, setting: &str) -> (r: Option<(u32, u8)>)
    ensures
        r == wanted_format(opt_str(env), setting@),
{
    match env {
        Some(raw) => match parse_audio_format(raw) {
            AudioRequest::Legacy => None,
            AudioRequest::Hires(rate, bits) => Some((rate, bits)),
            AudioRequest::Unsupported => audio_format_wire(setting),
        },
        None => audio_format_wire(setting),
    }
}

/// What is asked for is something the plane carries, from wherever it was asked.
pub proof fn only_what_the_plane_carries_is_asked_for(env: Option<Seq<char>>, setting: Seq<char>)
    ensures
        wanted_format(env, setting) matches Some(f) ==> carries(f.0 as int, f.1 as int),
{
}

/// The environment beats the setting both ways, and decides nothing where it cannot be read.
pub proof fn the_environment_beats_the_setting(raw: Seq<char>, a: Seq<char>, b: Seq<char>)
    ensures
        request_of(raw) != AudioRequest::Unsupported ==> wanted_format(Some(raw), a)
            == wanted_format(Some(raw), b),
        request_of(raw) == AudioRequest::Legacy ==> wanted_format(Some(raw), a) is None,
        request_of(raw) == AudioRequest::Unsupported ==> wanted_format(Some(raw), a)
            == wanted_format(None, a),
{
}

/// The pair that asks for nothing. It is no format: 48 kHz at sixteen bits is one of its own.
pub fn audio_format_unspecified() -> (r: (u32, u8))
    ensures
        r == (0u32, 0u8),
{
    (0, 0)
}

/// The pair a session sends: the format asked for where this machine can play it in stereo,
/// else the pair that asks for nothing.
pub open spec fn sent_format(wanted: Option<(u32, u8)>, channels: u8, can_render: bool) -> (u32, u8) {
    if wanted is Some && channels == 2 && can_render {
        wanted->Some_0
    } else {
        (0, 0)
    }
}

/// The pair a session sends. A lossless surround frame does not fit one datagram.
pub fn audio_format_to_send(wanted: Option<(u32, u8)>, channels: u8, can_render: bool) -> (r: (
    u32,
    u8,
))
    ensures
        r == sent_format(wanted, channels, can_render),
{
    match wanted {
        Some(f) => if channels == 2 && can_render {
            f
        } else {
            audio_format_unspecified()
        },
        None => audio_format_unspecified(),
    }
}

/// A session that asks for nothing never sends a format, and one that asks always sends one.
pub proof fn not_asking_is_not_a_format(
    env: Option<Seq<char>>,
    setting: Seq<char>,
    channels: u8,
    can_render: bool,
)
    ensures
        (sent_format(wanted_format(env, setting), channels, can_render) == (0u32, 0u8)) == (
        wanted_format(env, setting) is None || channels != 2 || !can_render),
{
    only_what_the_plane_carries_is_asked_for(env, setting);
}

/// What a session asks of a host.
#[derive(Debug, Clone, Copy, PartialEq, Eq, Structural)]
pub struct DialPlan {
    pub preferred: u8,
    pub pad_speaker_on: bool,
    pub pad_audio_on: bool,
    pub advertised_codecs: u8,
    pub bitrate_kbps: u32,
    pub video_caps: u8,
}

/// What a session asks of a host.
pub open spec fn dial_plan(
    p: ParamsState,
    platform: Platform,
    env_decoder: Option<Seq<char>>,
    prefer_pyrowave: bool,
    dxva_hevc: bool,
) -> DialPlan {
    let preferred = if prefer_pyrowave && p.vulkan is Some && p.vulkan->Some_0.pyrowave_decode {
        CODEC_PYROWAVE
    } else {
        p.preferred_codec
    };
    let speaker = p.pad_speaker == "pad"@;
    let advertised = promised(platform, p.vulkan, env_decoder, p.decoder, dxva_hevc)
        & !p.exclude_codecs;
    let pyrowave = preferred == CODEC_PYROWAVE && has8(advertised, CODEC_PYROWAVE);
    DialPlan {
        preferred,
        pad_speaker_on: speaker,
        pad_audio_on: p.pad_haptics || speaker,
        advertised_codecs: advertised,
        bitrate_kbps: if pyrowave {
            0
        } else {
            p.bitrate_kbps
        },
        video_caps: if pyrowave && p.want_444 {
            p.video_caps | VIDEO_CAP_444
        } else {
            p.video_caps
        },
    }
}

/// What a session asks of a host. PyroWave is always asked for at the host's own rate, and
/// for full chroma on the switch alone: it decodes that on any device.
pub fn connect_plan(
    params: &SessionParams,
    platform: Platform,
    env_decoder: Option<&str>,
    prefer_pyrowave: bool,
    dxva_hevc: bool,
) -> (r: DialPlan)
    ensures
        r == dial_plan(params@, platform, opt_str(env_decoder), prefer_pyrowave, dxva_hevc),
{
    let probed: bool = match &params.vulkan {
        Some(v) => v.pyrowave_decode,
        None => false,
    };
    let preferred: u8 = if prefer_pyrowave && probed {
        CODEC_PYROWAVE
    } else {
        params.preferred_codec
    };
    let pad_speaker_on: bool = same(params.pad_speaker.as_str(), "pad");
    let advertised_codecs: u8 = decodable_codecs_for(
        platform,
        params.vulkan.as_ref(),
        env_decoder,
        params.decoder.as_str(),
        dxva_hevc,
    ) & !params.exclude_codecs;
    let pyrowave: bool = preferred == CODEC_PYROWAVE && advertised_codecs & CODEC_PYROWAVE != 0;
    DialPlan {
        preferred,
        pad_speaker_on,
        pad_audio_on: params.pad_haptics || pad_speaker_on,
        advertised_codecs,
        bitrate_kbps: if pyrowave {
            0
        } else {
            params.bitrate_kbps
        },
        video_caps: if pyrowave && params.want_444 {
            params.video_caps | VIDEO_CAP_444
        } else {
            params.video_caps
        },
    }
}

/// A codec ruled out is never advertised again, whatever the device could do.
pub proof fn an_excluded_codec_stays_out(
    p: ParamsState,
    platform: Platform,
    env: Option<Seq<char>>,
    prefer: bool,
    dxva: bool,
)
    ensures
        dial_plan(p, platform, env, prefer, dxva).advertised_codecs & p.exclude_codecs == 0,
{
    let all = promised(platform, p.vulkan, env, p.decoder, dxva);
    let out = p.exclude_codecs;
    assert((all & !out) & out == 0) by (bit_vector);
}

/// What the client tells a host it does itself.
pub fn client_caps(cursor: bool, phase_lock: bool, pad_audio: bool, keep_host_audio: bool) -> (r: u8)
    ensures
        r == mask4(cursor, phase_lock, pad_audio, keep_host_audio),
        has8(r, crate::wire::CLIENT_CAP_CURSOR) == cursor,
        has8(r, crate::wire::CLIENT_CAP_PHASE_LOCK) == phase_lock,
        has8(r, crate::wire::CLIENT_CAP_PAD_AUDIO) == pad_audio,
        has8(r, crate::wire::CLIENT_CAP_KEEP_HOST_AUDIO) == keep_host_audio,
{
    proof {
        mask4_bits(cursor, phase_lock, pad_audio, keep_host_audio);
    }
    make_mask4(cursor, phase_lock, pad_audio, keep_host_audio)
}

/// What the decoder tells about itself once a second.
#[derive(Debug, Clone, Copy, PartialEq, Eq)]
pub struct DecodeFacts {
    /// The path frames took.
    pub decoder: &'static str,
    pub health: Option<DecodeHealth>,
}

impl Default for DecodeFacts {
    fn default() -> (f: DecodeFacts)
        ensures
            f.decoder@ == ""@,
            f.health is None,
    {
        DecodeFacts { decoder: "", health: None }
    }
}

/// What a session tells the client, as values.
pub enum EventState {
    Connected { mode: Mode, fingerprint: [u8; 32] },
    Failed { msg: Seq<char>, trust_rejected: bool },
    Ended(Option<Seq<char>>),
    CodecFallback { exclude_codecs: u8, retry_caps: u8, msg: Seq<char> },
    DecodeFacts { decoder: Seq<char>, health: Option<DecodeHealth> },
    Access { grants: u32, notice: Option<Seq<char>> },
    Notice(Seq<char>),
}

/// What a session tells the client.
#[derive(Debug, PartialEq, Eq)]
pub enum SessionEvent {
    Connected { mode: Mode, fingerprint: [u8; 32] },
    /// A rejected trust is a fingerprint that changed, or a host that wants pairing.
    Failed { msg: String, trust_rejected: bool },
    /// Over; a text only where something went wrong.
    Ended(Option<String>),
    /// Over, and worth another try without a codec.
    CodecFallback { exclude_codecs: u8, retry_caps: u8, msg: String },
    DecodeFacts(DecodeFacts),
    /// What the host lets this client do.
    Access { grants: u32, notice: Option<String> },
    Notice(String),
}

impl View for SessionEvent {
    type V = EventState;

    open spec fn view(&self) -> EventState {
        match *self {
            SessionEvent::Connected { mode, fingerprint } => EventState::Connected {
                mode,
                fingerprint,
            },
            SessionEvent::Failed { msg, trust_rejected } => EventState::Failed {
                msg: msg@,
                trust_rejected,
            },
            SessionEvent::Ended(msg) => EventState::Ended(opt_view(msg)),
            SessionEvent::CodecFallback { exclude_codecs, retry_caps, msg } =>
                EventState::CodecFallback { exclude_codecs, retry_caps, msg: msg@ },
            SessionEvent::DecodeFacts(f) => EventState::DecodeFacts {
                decoder: f.decoder@,
                health: f.health,
            },
            SessionEvent::Access { grants, notice } => EventState::Access {
                grants,
                notice: opt_view(notice),
            },
            SessionEvent::Notice(n) => EventState::Notice(n@),
        }
    }
}

/// Why a connect failed, as values.
pub enum FailureState {
    Crypto,
    Timeout,
    Rejected(Seq<char>),
    Other,
}

/// Why a connect failed.
#[derive(Debug)]
pub enum ConnectFailure {
    /// The host's identity was not the pinned one.
    Crypto,
    Timeout,
    /// The host said why.
    Rejected(String),
    Other,
}

impl View for ConnectFailure {
    type V = FailureState;

    open spec fn view(&self) -> FailureState {
        match *self {
            ConnectFailure::Crypto => FailureState::Crypto,
            ConnectFailure::Timeout => FailureState::Timeout,
            ConnectFailure::Rejected(r) => FailureState::Rejected(r@),
            ConnectFailure::Other => FailureState::Other,
        }
    }
}

/// What a failed connect tells.
pub open spec fn failure_event(f: FailureState) -> EventState {
    EventState::Failed {
        msg: match f {
            FailureState::Crypto =>
                "Host identity rejected — wrong fingerprint, or the host requires pairing"@,
            FailureState::Timeout => "Connection timed out"@,
            FailureState::Rejected(r) => r,
            FailureState::Other => "The host didn't answer"@,
        },
        trust_rejected: f is Crypto,
    }
}

/// What a failed connect tells. A host's own reason is told as it stands.
pub fn connect_failed(f: ConnectFailure) -> (e: SessionEvent)
    ensures
        e@ == failure_event(f@),
{
    match f {
        ConnectFailure::Crypto => SessionEvent::Failed {
            msg: "Host identity rejected — wrong fingerprint, or the host requires pairing".to_owned(),
            trust_rejected: true,
        },
        ConnectFailure::Timeout => SessionEvent::Failed {
            msg: "Connection timed out".to_owned(),
            trust_rejected: false,
        },
        ConnectFailure::Rejected(reason) => SessionEvent::Failed {
            msg: reason,
            trust_rejected: false,
        },
        ConnectFailure::Other => SessionEvent::Failed {
            msg: "The host didn't answer".to_owned(),
            trust_rejected: false,
        },
    }
}

/// How a connection closed.
#[derive(Debug, Clone, Copy, PartialEq, Eq, Structural)]
pub enum EndReason {
    GameExited,
    Local,
    HostEnded,
    HostError,
    Lost,
    /// No verdict.
    Unknown,
}

/// What a closed connection tells: the host's own rejection first, and nothing where it ended
/// as it should.
pub open spec fn end_text(reject: Option<Seq<char>>, reason: EndReason) -> Option<Seq<char>> {
    match reject {
        Some(r) => Some(r),
        None => match reason {
            EndReason::GameExited => None,
            EndReason::Local => None,
            EndReason::HostEnded => None,
            EndReason::HostError => Some("The host ended the session with an error"@),
            EndReason::Lost => Some("Connection lost"@),
            EndReason::Unknown => Some("Host ended the session"@),
        },
    }
}

/// What a closed connection tells.
pub fn end_message(reject: Option<String>, reason: EndReason) -> (r: Option<String>)
    ensures
        opt_view(r) == end_text(opt_view(reject), reason),
{
    match reject {
        Some(r) => Some(r),
        None => match reason {
            EndReason::GameExited => None,
            EndReason::Local => None,
            EndReason::HostEnded => None,
            EndReason::HostError => Some("The host ended the session with an error".to_owned()),
            EndReason::Lost => Some("Connection lost".to_owned()),
            EndReason::Unknown => Some("Host ended the session".to_owned()),
        },
    }
}

/// How a session whose codec ran out of decoders ends.
pub open spec fn fallback_event(negotiated: u8, advertised: u8, loss: RungLoss) -> EventState {
    match verdict(negotiated, advertised, loss) {
        LastRungVerdict::Retry { caps } => EventState::CodecFallback {
            exclude_codecs: advertised & !caps,
            retry_caps: caps,
            msg: codec_name(negotiated) + " decoding failed on this device — reconnecting"@,
        },
        LastRungVerdict::Dead => EventState::Ended(
            Some(
                codec_name(negotiated)
                    + " can't be decoded on this device, and no other codec is available"@,
            ),
        ),
    }
}

/// How a session whose codec ran out of decoders ends: with a retry, or for good. Either way
/// it is counted.
pub fn codec_fallback_event(negotiated: u8, advertised: u8, loss: RungLoss, fallbacks: &mut u64) -> (e:
    SessionEvent)
    ensures
        e@ == fallback_event(negotiated, advertised, loss),
        *final(fallbacks) == (if *old(fallbacks) < u64::MAX {
            *old(fallbacks) + 1
        } else {
            u64::MAX as int
        }),
{
    *fallbacks = fallbacks.saturating_add(1);
    let codec: &'static str = wire_codec_name(negotiated);
    match last_rung_verdict(negotiated, advertised, loss) {
        LastRungVerdict::Retry { caps } => SessionEvent::CodecFallback {
            exclude_codecs: advertised & !caps,
            retry_caps: caps,
            msg: join(codec, " decoding failed on this device — reconnecting"),
        },
        LastRungVerdict::Dead => SessionEvent::Ended(
            Some(
                join(codec, " can't be decoded on this device, and no other codec is available"),
            ),
        ),
    }
}

/// Why the pump stopped, as values.
pub enum StopState {
    Asked,
    Closed { reject: Option<Seq<char>>, reason: EndReason },
    Broken,
    Rebuild(Seq<char>),
    Exhausted(RungLoss),
}

/// Why the pump stopped.
#[derive(Debug)]
pub enum PumpStop {
    /// The user is done.
    Asked,
    /// The connection closed: the host's own rejection, where it gave one, and the verdict.
    Closed { reject: Option<String>, reason: EndReason },
    /// The connection failed otherwise.
    Broken,
    /// The CPU decoder the presenter asked for could not be built.
    Rebuild(String),
    /// The codec ran out of decoders.
    Exhausted(RungLoss),
}

impl View for PumpStop {
    type V = StopState;

    open spec fn view(&self) -> StopState {
        match *self {
            PumpStop::Asked => StopState::Asked,
            PumpStop::Closed { reject, reason } => StopState::Closed {
                reject: opt_view(reject),
                reason,
            },
            PumpStop::Broken => StopState::Broken,
            PumpStop::Rebuild(e) => StopState::Rebuild(e@),
            PumpStop::Exhausted(loss) => StopState::Exhausted(loss),
        }
    }
}

/// The last thing a session tells.
pub open spec fn last_event(stop: StopState, negotiated: u8, advertised: u8) -> EventState {
    match stop {
        StopState::Asked => EventState::Ended(None),
        StopState::Closed { reject, reason } => EventState::Ended(end_text(reject, reason)),
        StopState::Broken => EventState::Ended(Some("The stream stopped unexpectedly"@)),
        StopState::Rebuild(e) => EventState::Ended(Some("software decoder rebuild: "@ + e)),
        StopState::Exhausted(loss) => fallback_event(negotiated, advertised, loss),
    }
}

/// The last thing a session tells: nothing where it ended as it should, and only an exhausted
/// codec is worth another try, and counted.
pub fn terminal_event(stop: PumpStop, negotiated: u8, advertised: u8, fallbacks: &mut u64) -> (e:
    SessionEvent)
    ensures
        e@ == last_event(stop@, negotiated, advertised),
        *final(fallbacks) == (if stop is Exhausted && *old(fallbacks) < u64::MAX {
            *old(fallbacks) + 1
        } else {
            *old(fallbacks) as int
        }),
{
    match stop {
        PumpStop::Asked => SessionEvent::Ended(None),
        PumpStop::Closed { reject, reason } => SessionEvent::Ended(end_message(reject, reason)),
        PumpStop::Broken => SessionEvent::Ended(
            Some("The stream stopped unexpectedly".to_owned()),
        ),
        PumpStop::Rebuild(e) => SessionEvent::Ended(
            Some(join("software decoder rebuild: ", e.as_str())),
        ),
        PumpStop::Exhausted(loss) => codec_fallback_event(negotiated, advertised, loss, fallbacks),
    }
}

/// What a session tells whose decoder could not be opened: a codec with no rung at all ends
/// as one that ran out of them, anything else with the error.
pub fn decoder_refused(
    loss: Option<RungLoss>,
    error: &str,
    negotiated: u8,
    advertised: u8,
    fallbacks: &mut u64,
) -> (e: SessionEvent)
    ensures
        e@ == (match loss {
            Some(loss) => fallback_event(negotiated, advertised, loss),
            None => EventState::Ended(Some("video decoder: "@ + error@)),
        }),
        *final(fallbacks) == (if loss is Some && *old(fallbacks) < u64::MAX {
            *old(fallbacks) + 1
        } else {
            *old(fallbacks) as int
        }),
{
    match loss {
        Some(loss) => codec_fallback_event(negotiated, advertised, loss, fallbacks),
        None => SessionEvent::Ended(Some(join("video decoder: ", error))),
    }
}

/// Only a codec that ran out of decoders is retried: a user who is done, a host that ended the
/// session and a connection that failed never reconnect by themselves.
pub proof fn only_an_exhausted_codec_is_retried(stop: StopState, negotiated: u8, advertised: u8)
    ensures
        last_event(stop, negotiated, advertised) is CodecFallback ==> stop is Exhausted,
        stop is Asked ==> last_event(stop, negotiated, advertised) == EventState::Ended(None),
{
}

/// A retry advertises exactly what it says, never the codec that failed, and nothing that was
/// not advertised before.
pub proof fn a_retry_advertises_what_it_says(negotiated: u8, advertised: u8, loss: RungLoss)
    ensures
        fallback_event(negotiated, advertised, loss) matches EventState::CodecFallback {
            exclude_codecs,
            retry_caps,
            ..
        } ==> {
            &&& advertised & !exclude_codecs == retry_caps
            &&& retry_caps & negotiated == 0
            &&& retry_caps != 0
        },
{
    a_retry_never_reoffers(negotiated, advertised, loss);
}

/// Which planes of a session run.
#[derive(Debug, Clone, Copy, PartialEq, Eq, Structural)]
pub struct Planes {
    pub pad_audio: bool,
    pub clipboard: bool,
    pub mic: bool,
}

/// Which planes of a session run: what the user wants and the host grants.
pub fn planes(
    pad_audio_on: bool,
    clipboard: bool,
    clipboard_granted: bool,
    mic_enabled: bool,
    mic_granted: bool,
) -> (r: Planes)
    ensures
        r == (Planes {
            pad_audio: pad_audio_on,
            clipboard: clipboard && clipboard_granted,
            mic: mic_enabled && mic_granted,
        }),
{
    Planes {
        pad_audio: pad_audio_on,
        clipboard: clipboard && clipboard_granted,
        mic: mic_enabled && mic_granted,
    }
}

/// What a change of grants does to the microphone.
#[derive(Debug, Clone, Copy, PartialEq, Eq, Structural)]
pub enum MicStep {
    Keep,
    Stop,
    Start,
}

/// What a change of grants does to the microphone: it follows its grant.
pub fn mic_on_access(enabled: bool, granted: bool, running: bool) -> (r: MicStep)
    ensures
        r == (if (enabled && granted) == running {
            MicStep::Keep
        } else if running {
            MicStep::Stop
        } else {
            MicStep::Start
        }),
{
    let on: bool = enabled && granted;
    if !on && running {
        MicStep::Stop
    } else if on && !running {
        MicStep::Start
    } else {
        MicStep::Keep
    }
}

/// The mode and delay a text asks for: `WxH@HZ:SECS`.
pub open spec fn reconfigure_of(s: Seq<char>) -> Option<(Mode, u64)> {
    match cut(s, ':') {
        Some((mode, secs)) => match cut(mode, '@') {
            Some((res, hz)) => match cut(res, 'x') {
                Some((w, h)) => {
                    let top = u32::MAX as int;
                    let width = parsed(trimmed(w), top);
                    let height = parsed(trimmed(h), top);
                    let rate = parsed(trimmed(hz), top);
                    let delay = parsed(trimmed(secs), u64::MAX as int);
                    if width is Some && height is Some && rate is Some && delay is Some {
                        Some(
                            (
                                Mode {
                                    width: width->Some_0 as u32,
                                    height: height->Some_0 as u32,
                                    refresh_hz: rate->Some_0 as u32,
                                },
                                delay->Some_0 as u64,
                            ),
                        )
                    } else {
                        None
                    }
                },
                None => None,
            },
            None => None,
        },
        None => None,
    }
}

fn number(s: &str, max: u64) -> (r: Option<u64>)
    ensures
        match r {
            Some(v) => parsed(trimmed(s@), max as int) == Some(v as int) && v <= max,
            None => parsed(trimmed(s@), max as int) is None,
        },
{
    let t: String = trim(s);
    parse_uint(t.as_str(), max)
}

/// Reads `WxH@HZ:SECS`: the mode to switch to, and after how many seconds.
pub fn parse_debug_reconfigure(s: &str) -> (r: Option<(Mode, u64)>)
    ensures
        r == reconfigure_of(s@),
{
    let (mode, secs): (String, String) = match cut_at(s, ':') {
        Some(p) => p,
        None => {
            return None;
        },
    };
    let (res, hz): (String, String) = match cut_at(mode.as_str(), '@') {
        Some(p) => p,
        None => {
            return None;
        },
    };
    let (w, h): (String, String) = match cut_at(res.as_str(), 'x') {
        Some(p) => p,
        None => {
            return None;
        },
    };
    let top: u64 = u32::MAX as u64;
    match (
        number(w.as_str(), top),
        number(h.as_str(), top),
        number(hz.as_str(), top),
        number(secs.as_str(), u64::MAX),
    ) {
        (Some(width), Some(height), Some(rate), Some(delay)) => Some(
            (
                Mode { width: width as u32, height: height as u32, refresh_hz: rate as u32 },
                delay,
            ),
        ),
        _ => None,
    }
}

/// A pending switch whose time has come, `elapsed` nanoseconds into the session. It is made
/// once.
pub fn take_reconfigure(pending: &mut Option<(Mode, u64)>, elapsed: u64) -> (r: Option<Mode>)
    ensures
        match *old(pending) {
            Some((mode, secs)) => if elapsed >= secs * 1_000_000_000 {
                r == Some(mode) && *final(pending) is None
            } else {
                r is None && *final(pending) == *old(pending)
            },
            None => r is None && *final(pending) is None,
        },
{
    match *pending {
        Some((mode, secs)) => {
            if elapsed as u128 >= secs as u128 * 1_000_000_000 {
                *pending = None;
                Some(mode)
            } else {
                None
            }
        },
        None => None,
    }
}

/// The notice about an old AMD driver, where this session's picture depends on it: an AMD
/// device with a known adapter, PQ video on the native Vulkan rung, and a driver too old.
pub fn amd_vulkan_hdr_notice(
    vk: Option<&VulkanDecodeDevice>,
    driver: Option<[u16; 4]>,
    native_vulkan: bool,
    transfer: u8,
) -> (r: Option<String>)
    ensures
        ({
            let told = vk is Some && vk->Some_0.vendor_id == VENDOR_AMD && vk->Some_0.adapter_luid
                is Some && driver is Some && native_vulkan && transfer == TRANSFER_PQ
                && older_driver(driver->Some_0@);
            &&& (r is Some) == told
            &&& told ==> r->Some_0@ == driver_line(driver->Some_0@)
        }),
{
    match vk {
        Some(v) => {
            if v.vendor_id != VENDOR_AMD || v.adapter_luid.is_none() {
                return None;
            }
            amd_vulkan_hdr_driver_notice(driver, native_vulkan, transfer == TRANSFER_PQ)
        },
        None => None,
    }
}

/// The audio formats a user may choose from, by their spelling.
pub fn audio_formats() -> (r: Vec<String>)
    ensures
        crate::plan::strings_of(r@) == seq!["opus"@, "lossless48"@, "lossless96"@],
{
    let mut r: Vec<String> = Vec::new();
    r.push("opus".to_owned());
    r.push("lossless48".to_owned());
    r.push("lossless96".to_owned());
    assert(crate::plan::strings_of(r@) =~= seq!["opus"@, "lossless48"@, "lossless96"@]);
    r
}

} // verus!
