//! What the user set, the presets laid over it, and the hosts the client knows.

use vstd::prelude::*;
use crate::text::{copy_opt, opt_view, same};
use crate::wire::{CODEC_AV1, CODEC_H264, CODEC_HEVC, CODEC_PYROWAVE};

verus! {

/// How the mouse is used.
#[derive(Debug, Clone, Copy, PartialEq, Eq, Structural)]
pub enum MouseMode {
    /// The stream takes the pointer; motion is relative.
    Capture,
    /// The pointer stays free; the client draws the host's cursor.
    Desktop,
}

/// The settings, as values.
#[verifier::ext_equal]
pub struct SettingsState {
    pub width: u32,
    pub height: u32,
    pub refresh_hz: u32,
    pub bitrate_kbps: u32,
    pub audio_channels: u8,
    pub audio_format: Seq<char>,
    pub codec: Seq<char>,
    pub compositor: Seq<char>,
    pub hdr_enabled: bool,
    pub ten_bit_sdr: bool,
    pub enable_444: bool,
    pub mic_enabled: bool,
    pub echo_cancel: bool,
    pub pad_haptics: bool,
    pub pad_speaker: Seq<char>,
    pub keep_host_audio: bool,
    pub video_fit: Seq<char>,
    pub mouse: MouseMode,
    pub decoder: Seq<char>,
    pub advanced_stats: bool,
    pub fullscreen_on_stream: bool,
    pub auto_wake: bool,
    pub present_priority: Seq<char>,
    pub smooth_buffer: u32,
    pub vsync: bool,
    pub allow_vrr: bool,
    pub last_window_w: u32,
    pub last_window_h: u32,
}

/// What the user set.
#[derive(Debug, Clone, PartialEq)]
pub struct Settings {
    /// Zero inherits the display's.
    pub width: u32,
    /// Zero inherits the display's.
    pub height: u32,
    /// Zero inherits the display's, at least thirty.
    pub refresh_hz: u32,
    /// Zero lets the host choose.
    pub bitrate_kbps: u32,
    /// Two, six or eight.
    pub audio_channels: u8,
    /// The audio format asked for.
    pub audio_format: String,
    /// The codec preferred, by name.
    pub codec: String,
    /// The host's compositor, by name.
    pub compositor: String,
    /// Ask for HDR where the display shows it.
    pub hdr_enabled: bool,
    /// Ask for ten bits without HDR.
    pub ten_bit_sdr: bool,
    /// Ask for full chroma.
    pub enable_444: bool,
    /// Send the microphone.
    pub mic_enabled: bool,
    /// Cancel echo on the microphone.
    pub echo_cancel: bool,
    /// Play a pad's haptics stream.
    pub pad_haptics: bool,
    /// Where a pad's speaker stream goes.
    pub pad_speaker: String,
    /// The host keeps its own playback device.
    pub keep_host_audio: bool,
    /// How the picture fills the window, by name.
    pub video_fit: String,
    /// How the mouse is used.
    pub mouse: MouseMode,
    /// The decoder, by name.
    pub decoder: String,
    /// The overlay speaks the long vocabulary.
    pub advanced_stats: bool,
    /// A stream starts in full screen.
    pub fullscreen_on_stream: bool,
    /// Wake a sleeping host before connecting.
    pub auto_wake: bool,
    /// What presentation favours.
    pub present_priority: String,
    /// Frames held back for smoothness.
    pub smooth_buffer: u32,
    /// Present in step with the display.
    pub vsync: bool,
    /// Let the display follow the stream.
    pub allow_vrr: bool,
    /// Width the window was left at.
    pub last_window_w: u32,
    /// Height the window was left at.
    pub last_window_h: u32,
}

impl View for Settings {
    type V = SettingsState;

    open spec fn view(&self) -> SettingsState {
        SettingsState {
            width: self.width,
            height: self.height,
            refresh_hz: self.refresh_hz,
            bitrate_kbps: self.bitrate_kbps,
            audio_channels: self.audio_channels,
            audio_format: self.audio_format@,
            codec: self.codec@,
            compositor: self.compositor@,
            hdr_enabled: self.hdr_enabled,
            ten_bit_sdr: self.ten_bit_sdr,
            enable_444: self.enable_444,
            mic_enabled: self.mic_enabled,
            echo_cancel: self.echo_cancel,
            pad_haptics: self.pad_haptics,
            pad_speaker: self.pad_speaker@,
            keep_host_audio: self.keep_host_audio,
            video_fit: self.video_fit@,
            mouse: self.mouse,
            decoder: self.decoder@,
            advanced_stats: self.advanced_stats,
            fullscreen_on_stream: self.fullscreen_on_stream,
            auto_wake: self.auto_wake,
            present_priority: self.present_priority@,
            smooth_buffer: self.smooth_buffer,
            vsync: self.vsync,
            allow_vrr: self.allow_vrr,
            last_window_w: self.last_window_w,
            last_window_h: self.last_window_h,
        }
    }
}

/// The settings of a client nobody changed.
pub open spec fn default_settings() -> SettingsState {
    SettingsState {
        width: 0,
        height: 0,
        refresh_hz: 0,
        bitrate_kbps: 0,
        audio_channels: 2,
        audio_format: "opus"@,
        codec: "auto"@,
        compositor: "auto"@,
        hdr_enabled: true,
        ten_bit_sdr: false,
        enable_444: false,
        mic_enabled: false,
        echo_cancel: true,
        pad_haptics: true,
        pad_speaker: "pad"@,
        keep_host_audio: false,
        video_fit: "fit"@,
        mouse: MouseMode::Capture,
        decoder: "auto"@,
        advanced_stats: false,
        fullscreen_on_stream: true,
        auto_wake: true,
        present_priority: "latency"@,
        smooth_buffer: 1,
        vsync: true,
        allow_vrr: true,
        last_window_w: 0,
        last_window_h: 0,
    }
}

impl Default for Settings {
    fn default() -> (s: Settings)
        ensures
            s@ == default_settings(),
    {
        let s = Settings {
            width: 0,
            height: 0,
            refresh_hz: 0,
            bitrate_kbps: 0,
            audio_channels: 2,
            audio_format: "opus".to_owned(),
            codec: "auto".to_owned(),
            compositor: "auto".to_owned(),
            hdr_enabled: true,
            ten_bit_sdr: false,
            enable_444: false,
            mic_enabled: false,
            echo_cancel: true,
            pad_haptics: true,
            pad_speaker: "pad".to_owned(),
            keep_host_audio: false,
            video_fit: "fit".to_owned(),
            mouse: MouseMode::Capture,
            decoder: "auto".to_owned(),
            advanced_stats: false,
            fullscreen_on_stream: true,
            auto_wake: true,
            present_priority: "latency".to_owned(),
            smooth_buffer: 1,
            vsync: true,
            allow_vrr: true,
            last_window_w: 0,
            last_window_h: 0,
        };
        assert(s@ =~= default_settings());
        s
    }
}

/// The codec bit a name stands for; zero leaves the choice to the host.
pub open spec fn codec_bit(name: Seq<char>) -> u8 {
    if name == "h264"@ {
        CODEC_H264
    } else if name == "hevc"@ {
        CODEC_HEVC
    } else if name == "av1"@ {
        CODEC_AV1
    } else if name == "pyrowave"@ {
        CODEC_PYROWAVE
    } else {
        0
    }
}

impl Settings {
    /// An equal copy.
    pub fn copy(&self) -> (s: Settings)
        ensures
            s@ == self@,
    {
        let s = Settings {
            width: self.width,
            height: self.height,
            refresh_hz: self.refresh_hz,
            bitrate_kbps: self.bitrate_kbps,
            audio_channels: self.audio_channels,
            audio_format: self.audio_format.as_str().to_owned(),
            codec: self.codec.as_str().to_owned(),
            compositor: self.compositor.as_str().to_owned(),
            hdr_enabled: self.hdr_enabled,
            ten_bit_sdr: self.ten_bit_sdr,
            enable_444: self.enable_444,
            mic_enabled: self.mic_enabled,
            echo_cancel: self.echo_cancel,
            pad_haptics: self.pad_haptics,
            pad_speaker: self.pad_speaker.as_str().to_owned(),
            keep_host_audio: self.keep_host_audio,
            video_fit: self.video_fit.as_str().to_owned(),
            mouse: self.mouse,
            decoder: self.decoder.as_str().to_owned(),
            advanced_stats: self.advanced_stats,
            fullscreen_on_stream: self.fullscreen_on_stream,
            auto_wake: self.auto_wake,
            present_priority: self.present_priority.as_str().to_owned(),
            smooth_buffer: self.smooth_buffer,
            vsync: self.vsync,
            allow_vrr: self.allow_vrr,
            last_window_w: self.last_window_w,
            last_window_h: self.last_window_h,
        };
        assert(s@ =~= self@);
        s
    }

    /// The codec the user prefers; zero leaves the choice to the host.
    pub fn preferred_codec(&self) -> (r: u8)
        ensures
            r == codec_bit(self@.codec),
    {
        let name: &str = self.codec.as_str();
        if same(name, "h264") {
            CODEC_H264
        } else if same(name, "hevc") {
            CODEC_HEVC
        } else if same(name, "av1") {
            CODEC_AV1
        } else if same(name, "pyrowave") {
            CODEC_PYROWAVE
        } else {
            0
        }
    }
}

/// What a preset overrides, as values.
#[verifier::ext_equal]
pub struct OverlayState {
    pub width: Option<u32>,
    pub height: Option<u32>,
    pub refresh_hz: Option<u32>,
    pub bitrate_kbps: Option<u32>,
    pub audio_channels: Option<u8>,
    pub audio_format: Option<Seq<char>>,
    pub codec: Option<Seq<char>>,
    pub compositor: Option<Seq<char>>,
    pub hdr_enabled: Option<bool>,
    pub ten_bit_sdr: Option<bool>,
    pub enable_444: Option<bool>,
    pub mic_enabled: Option<bool>,
    pub echo_cancel: Option<bool>,
    pub pad_haptics: Option<bool>,
    pub pad_speaker: Option<Seq<char>>,
    pub keep_host_audio: Option<bool>,
    pub video_fit: Option<Seq<char>>,
    pub mouse: Option<MouseMode>,
    pub decoder: Option<Seq<char>>,
    pub fullscreen_on_stream: Option<bool>,
    pub present_priority: Option<Seq<char>>,
    pub smooth_buffer: Option<u32>,
    pub vsync: Option<bool>,
    pub allow_vrr: Option<bool>,
}

/// What a preset overrides; the rest stays as the user set it.
#[derive(Debug, Clone, Default, PartialEq)]
pub struct SettingsOverlay {
    pub width: Option<u32>,
    pub height: Option<u32>,
    pub refresh_hz: Option<u32>,
    pub bitrate_kbps: Option<u32>,
    pub audio_channels: Option<u8>,
    pub audio_format: Option<String>,
    pub codec: Option<String>,
    pub compositor: Option<String>,
    pub hdr_enabled: Option<bool>,
    pub ten_bit_sdr: Option<bool>,
    pub enable_444: Option<bool>,
    pub mic_enabled: Option<bool>,
    pub echo_cancel: Option<bool>,
    pub pad_haptics: Option<bool>,
    pub pad_speaker: Option<String>,
    pub keep_host_audio: Option<bool>,
    pub video_fit: Option<String>,
    pub mouse: Option<MouseMode>,
    pub decoder: Option<String>,
    pub fullscreen_on_stream: Option<bool>,
    pub present_priority: Option<String>,
    pub smooth_buffer: Option<u32>,
    pub vsync: Option<bool>,
    pub allow_vrr: Option<bool>,
}

impl View for SettingsOverlay {
    type V = OverlayState;

    open spec fn view(&self) -> OverlayState {
        OverlayState {
            width: self.width,
            height: self.height,
            refresh_hz: self.refresh_hz,
            bitrate_kbps: self.bitrate_kbps,
            audio_channels: self.audio_channels,
            audio_format: opt_view(self.audio_format),
            codec: opt_view(self.codec),
            compositor: opt_view(self.compositor),
            hdr_enabled: self.hdr_enabled,
            ten_bit_sdr: self.ten_bit_sdr,
            enable_444: self.enable_444,
            mic_enabled: self.mic_enabled,
            echo_cancel: self.echo_cancel,
            pad_haptics: self.pad_haptics,
            pad_speaker: opt_view(self.pad_speaker),
            keep_host_audio: self.keep_host_audio,
            video_fit: opt_view(self.video_fit),
            mouse: self.mouse,
            decoder: opt_view(self.decoder),
            fullscreen_on_stream: self.fullscreen_on_stream,
            present_priority: opt_view(self.present_priority),
            smooth_buffer: self.smooth_buffer,
            vsync: self.vsync,
            allow_vrr: self.allow_vrr,
        }
    }
}

/// An overridden value, or what was there.
#[verifier::opaque]
pub open spec fn over<T>(o: Option<T>, base: T) -> T {
    match o {
        Some(v) => v,
        None => base,
    }
}

/// The settings under a preset.
pub open spec fn overlaid(o: OverlayState, base: SettingsState) -> SettingsState {
    SettingsState {
        width: over(o.width, base.width),
        height: over(o.height, base.height),
        refresh_hz: over(o.refresh_hz, base.refresh_hz),
        bitrate_kbps: over(o.bitrate_kbps, base.bitrate_kbps),
        audio_channels: over(o.audio_channels, base.audio_channels),
        audio_format: over(o.audio_format, base.audio_format),
        codec: over(o.codec, base.codec),
        compositor: over(o.compositor, base.compositor),
        hdr_enabled: over(o.hdr_enabled, base.hdr_enabled),
        ten_bit_sdr: over(o.ten_bit_sdr, base.ten_bit_sdr),
        enable_444: over(o.enable_444, base.enable_444),
        mic_enabled: over(o.mic_enabled, base.mic_enabled),
        echo_cancel: over(o.echo_cancel, base.echo_cancel),
        pad_haptics: over(o.pad_haptics, base.pad_haptics),
        pad_speaker: over(o.pad_speaker, base.pad_speaker),
        keep_host_audio: over(o.keep_host_audio, base.keep_host_audio),
        video_fit: over(o.video_fit, base.video_fit),
        mouse: over(o.mouse, base.mouse),
        decoder: over(o.decoder, base.decoder),
        fullscreen_on_stream: over(o.fullscreen_on_stream, base.fullscreen_on_stream),
        present_priority: over(o.present_priority, base.present_priority),
        smooth_buffer: over(o.smooth_buffer, base.smooth_buffer),
        vsync: over(o.vsync, base.vsync),
        allow_vrr: over(o.allow_vrr, base.allow_vrr),
        ..base
    }
}

fn pick_str(o: &Option<String>, base: &String) -> (r: String)
    ensures
        r@ == over(opt_view(*o), base@),
{
    reveal(over);
    match o {
        Some(v) => v.as_str().to_owned(),
        None => base.as_str().to_owned(),
    }
}

fn pick<T: Copy>(o: Option<T>, base: T) -> (r: T)
    ensures
        r == over(o, base),
{
    reveal(over);
    match o {
        Some(v) => v,
        None => base,
    }
}

/// The names among the settings, under a preset.
struct Names {
    audio_format: String,
    codec: String,
    compositor: String,
    pad_speaker: String,
    video_fit: String,
    decoder: String,
    present_priority: String,
}

impl SettingsOverlay {
    fn names(&self, base: &Settings) -> (r: Names)
        ensures
            r.audio_format@ == over(self@.audio_format, base@.audio_format),
            r.codec@ == over(self@.codec, base@.codec),
            r.compositor@ == over(self@.compositor, base@.compositor),
            r.pad_speaker@ == over(self@.pad_speaker, base@.pad_speaker),
            r.video_fit@ == over(self@.video_fit, base@.video_fit),
            r.decoder@ == over(self@.decoder, base@.decoder),
            r.present_priority@ == over(self@.present_priority, base@.present_priority),
    {
        Names {
            audio_format: pick_str(&self.audio_format, &base.audio_format),
            codec: pick_str(&self.codec, &base.codec),
            compositor: pick_str(&self.compositor, &base.compositor),
            pad_speaker: pick_str(&self.pad_speaker, &base.pad_speaker),
            video_fit: pick_str(&self.video_fit, &base.video_fit),
            decoder: pick_str(&self.decoder, &base.decoder),
            present_priority: pick_str(&self.present_priority, &base.present_priority),
        }
    }

    /// The settings with this preset laid over them.
    pub fn apply(&self, base: &Settings) -> (s: Settings)
        ensures
            s@ == overlaid(self@, base@),
    {
        let names = self.names(base);
        let s = Settings {
            width: pick(self.width, base.width),
            height: pick(self.height, base.height),
            refresh_hz: pick(self.refresh_hz, base.refresh_hz),
            bitrate_kbps: pick(self.bitrate_kbps, base.bitrate_kbps),
            audio_channels: pick(self.audio_channels, base.audio_channels),
            audio_format: names.audio_format,
            codec: names.codec,
            compositor: names.compositor,
            hdr_enabled: pick(self.hdr_enabled, base.hdr_enabled),
            ten_bit_sdr: pick(self.ten_bit_sdr, base.ten_bit_sdr),
            enable_444: pick(self.enable_444, base.enable_444),
            mic_enabled: pick(self.mic_enabled, base.mic_enabled),
            echo_cancel: pick(self.echo_cancel, base.echo_cancel),
            pad_haptics: pick(self.pad_haptics, base.pad_haptics),
            pad_speaker: names.pad_speaker,
            keep_host_audio: pick(self.keep_host_audio, base.keep_host_audio),
            video_fit: names.video_fit,
            mouse: pick(self.mouse, base.mouse),
            decoder: names.decoder,
            advanced_stats: base.advanced_stats,
            fullscreen_on_stream: pick(self.fullscreen_on_stream, base.fullscreen_on_stream),
            auto_wake: base.auto_wake,
            present_priority: names.present_priority,
            smooth_buffer: pick(self.smooth_buffer, base.smooth_buffer),
            vsync: pick(self.vsync, base.vsync),
            allow_vrr: pick(self.allow_vrr, base.allow_vrr),
            last_window_w: base.last_window_w,
            last_window_h: base.last_window_h,
        };
        assert(s@ =~= overlaid(self@, base@));
        s
    }

    /// An equal copy.
    pub fn copy(&self) -> (o: SettingsOverlay)
        ensures
            o@ == self@,
    {
        let o = SettingsOverlay {
            width: self.width,
            height: self.height,
            refresh_hz: self.refresh_hz,
            bitrate_kbps: self.bitrate_kbps,
            audio_channels: self.audio_channels,
            audio_format: copy_opt(&self.audio_format),
            codec: copy_opt(&self.codec),
            compositor: copy_opt(&self.compositor),
            hdr_enabled: self.hdr_enabled,
            ten_bit_sdr: self.ten_bit_sdr,
            enable_444: self.enable_444,
            mic_enabled: self.mic_enabled,
            echo_cancel: self.echo_cancel,
            pad_haptics: self.pad_haptics,
            pad_speaker: copy_opt(&self.pad_speaker),
            keep_host_audio: self.keep_host_audio,
            video_fit: copy_opt(&self.video_fit),
            mouse: self.mouse,
            decoder: copy_opt(&self.decoder),
            fullscreen_on_stream: self.fullscreen_on_stream,
            present_priority: copy_opt(&self.present_priority),
            smooth_buffer: self.smooth_buffer,
            vsync: self.vsync,
            allow_vrr: self.allow_vrr,
        };
        assert(o@ =~= self@);
        o
    }
}

/// A preset, as values.
#[verifier::ext_equal]
pub struct PresetState {
    pub id: Seq<char>,
    pub name: Seq<char>,
    pub overrides: OverlayState,
}

/// A named set of overrides.
#[derive(Debug, Clone, PartialEq)]
pub struct StreamPreset {
    /// Stable over renaming.
    pub id: String,
    pub name: String,
    pub overrides: SettingsOverlay,
}

impl View for StreamPreset {
    type V = PresetState;

    open spec fn view(&self) -> PresetState {
        PresetState { id: self.id@, name: self.name@, overrides: self.overrides@ }
    }
}

impl StreamPreset {
    /// An equal copy.
    pub fn copy(&self) -> (p: StreamPreset)
        ensures
            p@ == self@,
    {
        StreamPreset {
            id: self.id.as_str().to_owned(),
            name: self.name.as_str().to_owned(),
            overrides: self.overrides.copy(),
        }
    }
}

/// The presets of this device.
#[derive(Debug, Default)]
pub struct PresetsFile {
    pub version: u32,
    pub presets: Vec<StreamPreset>,
}

/// The views of a list of presets.
pub open spec fn presets_of(presets: Seq<StreamPreset>) -> Seq<PresetState> {
    presets.map_values(|p: StreamPreset| p@)
}

/// How a reference to a preset came out.
#[derive(Debug, Clone, Copy, PartialEq, Eq, Structural)]
pub enum Resolution {
    Found,
    /// Several presets have that name.
    Ambiguous,
    Missing,
}

/// The first preset with an id.
pub open spec fn by_id(presets: Seq<PresetState>, reference: Seq<char>) -> Option<int>
    decreases presets.len(),
{
    if presets.len() == 0 {
        None
    } else if by_id(presets.drop_last(), reference) is Some {
        by_id(presets.drop_last(), reference)
    } else if presets.last().id == reference {
        Some(presets.len() - 1)
    } else {
        None
    }
}

/// The last preset with a name.
pub open spec fn by_name(presets: Seq<PresetState>, reference: Seq<char>) -> Option<int>
    decreases presets.len(),
{
    if presets.len() == 0 {
        None
    } else if presets.last().name == reference {
        Some(presets.len() - 1)
    } else {
        by_name(presets.drop_last(), reference)
    }
}

/// How many presets have a name.
pub open spec fn named(presets: Seq<PresetState>, reference: Seq<char>) -> nat
    decreases presets.len(),
{
    if presets.len() == 0 {
        0
    } else {
        named(presets.drop_last(), reference) + (if presets.last().name == reference {
            1nat
        } else {
            0
        })
    }
}

/// The preset a reference means: the one with that id, else the only one with that name.
pub open spec fn meant(presets: Seq<PresetState>, reference: Seq<char>) -> (Option<int>, Resolution) {
    if by_id(presets, reference) is Some {
        (by_id(presets, reference), Resolution::Found)
    } else if named(presets, reference) > 1 {
        (None, Resolution::Ambiguous)
    } else if named(presets, reference) == 1 {
        (by_name(presets, reference), Resolution::Found)
    } else {
        (None, Resolution::Missing)
    }
}

proof fn meant_is_in_range(presets: Seq<PresetState>, reference: Seq<char>)
    ensures
        by_id(presets, reference) matches Some(i) ==> 0 <= i < presets.len() && presets[i].id
            == reference,
        by_name(presets, reference) matches Some(i) ==> 0 <= i < presets.len() && presets[i].name
            == reference,
        by_name(presets, reference) is Some == (named(presets, reference) > 0),
        named(presets, reference) <= presets.len(),
    decreases presets.len(),
{
    if presets.len() > 0 {
        meant_is_in_range(presets.drop_last(), reference);
    }
}

/// A reference is found exactly where the answer says so, and then it is a preset of the file.
pub proof fn a_found_preset_is_there(presets: Seq<PresetState>, reference: Seq<char>)
    ensures
        (meant(presets, reference).1 == Resolution::Found) == (meant(presets, reference).0 is Some),
        meant(presets, reference).0 matches Some(i) ==> 0 <= i < presets.len() && (presets[i].id
            == reference || presets[i].name == reference),
{
    meant_is_in_range(presets, reference);
}

impl PresetsFile {
    /// The preset a reference means: the one with that id, else the only one with that name.
    pub fn resolve(&self, reference: &str) -> (r: (Option<usize>, Resolution))
        ensures
            r.1 == meant(presets_of(self.presets@), reference@).1,
            match r.0 {
                Some(i) => i < self.presets@.len() && meant(
                    presets_of(self.presets@),
                    reference@,
                ).0 == Some(i as int),
                None => meant(presets_of(self.presets@), reference@).0 is None,
            },
    {
        let ghost states = presets_of(self.presets@);
        let mut found: Option<usize> = None;
        let mut last: usize = 0;
        let mut count: usize = 0;
        let mut i: usize = 0;
        while i < self.presets.len()
            invariant
                i <= self.presets@.len(),
                states == presets_of(self.presets@),
                match found {
                    Some(k) => k < i && by_id(states.take(i as int), reference@) == Some(k as int),
                    None => by_id(states.take(i as int), reference@) is None,
                },
                count <= i,
                count == named(states.take(i as int), reference@),
                count > 0 ==> last < i && by_name(states.take(i as int), reference@) == Some(
                    last as int,
                ),
            decreases self.presets@.len() - i,
        {
            assert(states.take(i + 1).drop_last() =~= states.take(i as int));
            assert(states.take(i + 1).last() == self.presets@[i as int]@);
            if found.is_none() && same(self.presets[i].id.as_str(), reference) {
                found = Some(i);
            }
            if same(self.presets[i].name.as_str(), reference) {
                count = count + 1;
                last = i;
            }
            i = i + 1;
        }
        assert(states.take(i as int) =~= states);
        match found {
            Some(k) => (Some(k), Resolution::Found),
            None => if count > 1 {
                (None, Resolution::Ambiguous)
            } else if count == 1 {
                (Some(last), Resolution::Found)
            } else {
                (None, Resolution::Missing)
            },
        }
    }
}

/// The preset a launch gets: a one-off choice first, where an empty one means none at all;
/// then the game's own, then the host's.
pub open spec fn preset_for(
    presets: Seq<PresetState>,
    host: Option<Seq<char>>,
    game: Option<Seq<char>>,
    one_off: Option<Seq<char>>,
) -> Option<int> {
    match one_off {
        Some(reference) => if reference.len() == 0 {
            None
        } else {
            meant(presets, reference).0
        },
        None => match game {
            Some(id) => meant(presets, id).0,
            None => match host {
                Some(id) => meant(presets, id).0,
                None => None,
            },
        },
    }
}

/// The view of an optional string slice.
pub open spec fn opt_chars(s: Option<&str>) -> Option<Seq<char>> {
    match s {
        Some(t) => Some(t@),
        None => None,
    }
}

/// The preset a launch gets.
pub fn resolve_preset(
    catalog: &PresetsFile,
    host: Option<&str>,
    game: Option<&str>,
    one_off: Option<&str>,
) -> (r: Option<usize>)
    ensures
        ({
            let p = preset_for(
                presets_of(catalog.presets@),
                opt_chars(host),
                opt_chars(game),
                opt_chars(one_off),
            );
            match r {
                Some(i) => i < catalog.presets@.len() && p == Some(i as int),
                None => p is None,
            }
        }),
{
    match one_off {
        Some(reference) => {
            if reference.unicode_len() == 0 {
                return None;
            }
            catalog.resolve(reference).0
        },
        None => match game {
            Some(id) => catalog.resolve(id).0,
            None => match host {
                Some(id) => catalog.resolve(id).0,
                None => None,
            },
        },
    }
}

/// A one-off choice decides whatever is bound, and an empty one forces the plain settings.
pub proof fn a_one_off_choice_decides(
    presets: Seq<PresetState>,
    host: Option<Seq<char>>,
    game: Option<Seq<char>>,
    host2: Option<Seq<char>>,
    game2: Option<Seq<char>>,
    reference: Seq<char>,
)
    ensures
        preset_for(presets, host, game, Some(reference)) == preset_for(
            presets,
            host2,
            game2,
            Some(reference),
        ),
        preset_for(presets, host, game, Some(Seq::empty())) is None,
{
}

/// A preset that overrides nothing changes nothing, and one that overrides a value decides it.
pub proof fn an_override_decides<T>(value: T, base: T)
    ensures
        over(None, base) == base,
        over(Some(value), base) == value,
{
    reveal(over);
}

} // verus!
