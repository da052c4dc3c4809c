//! What holds of a launch: how settings, presets, hosts and links become a session, from end to
//! end.

use vstd::prelude::*;
use crate::contract::{event_for, sized, EventState as LineEvent, LineState};
use crate::link::{
    linked, notice, LinkState, OutcomeState, PlanErrorState, ResolutionState, Route, UnknownState,
    WakeOutcome, WakeWait,
};
use crate::plan::{
    argv, game_preset, planned, planned_target, record_of, unsaved, HostTargetState, KnownHostState,
    PlanState, SpecState,
};
use crate::session::{
    asked_mode, cut, cut_splits, dial_of, dial_plan, end_text, failure_event, filled, last_event,
    reconfigure_of, request_of, sent_format, spec_of, wanted_format, AudioRequest, DialState,
    EndReason, EventState, FailureState, MicControl, Mode, ParamsState, ProbesState, StopState,
};
use crate::settings::{
    by_id, by_name, codec_bit, default_settings, meant, named, over, overlaid, preset_for,
    MouseMode, OverlayState, PresetState, Resolution, SettingsState,
};
use crate::supervise::{program, StartStep, Supervisor};
use crate::text::{decimal, lowered, parsed, trimmed};
use crate::video::{Platform, RungLoss};
use crate::wire::{has8, mask4_bits};

verus! {

/// A preset decides exactly the values it names; every other value stays the user's, and waking,
/// the overlay's vocabulary and the window's size are never a preset's.
pub proof fn a_preset_decides_what_it_names(o: OverlayState, base: SettingsState)
    ensures
        ({
            let r = overlaid(o, base);
            &&& o.width is Some ==> r.width == o.width->Some_0
            &&& o.width is None ==> r.width == base.width
            &&& o.height is Some ==> r.height == o.height->Some_0
            &&& o.height is None ==> r.height == base.height
            &&& o.refresh_hz is Some ==> r.refresh_hz == o.refresh_hz->Some_0
            &&& o.refresh_hz is None ==> r.refresh_hz == base.refresh_hz
            &&& o.bitrate_kbps is Some ==> r.bitrate_kbps == o.bitrate_kbps->Some_0
            &&& o.bitrate_kbps is None ==> r.bitrate_kbps == base.bitrate_kbps
            &&& o.audio_channels is Some ==> r.audio_channels == o.audio_channels->Some_0
            &&& o.audio_channels is None ==> r.audio_channels == base.audio_channels
            &&& o.audio_format is Some ==> r.audio_format == o.audio_format->Some_0
            &&& o.audio_format is None ==> r.audio_format == base.audio_format
            &&& o.codec is Some ==> r.codec == o.codec->Some_0
            &&& o.codec is None ==> r.codec == base.codec
            &&& o.compositor is Some ==> r.compositor == o.compositor->Some_0
            &&& o.compositor is None ==> r.compositor == base.compositor
            &&& o.hdr_enabled is Some ==> r.hdr_enabled == o.hdr_enabled->Some_0
            &&& o.hdr_enabled is None ==> r.hdr_enabled == base.hdr_enabled
            &&& o.ten_bit_sdr is Some ==> r.ten_bit_sdr == o.ten_bit_sdr->Some_0
            &&& o.ten_bit_sdr is None ==> r.ten_bit_sdr == base.ten_bit_sdr
            &&& o.enable_444 is Some ==> r.enable_444 == o.enable_444->Some_0
            &&& o.enable_444 is None ==> r.enable_444 == base.enable_444
            &&& o.mic_enabled is Some ==> r.mic_enabled == o.mic_enabled->Some_0
            &&& o.mic_enabled is None ==> r.mic_enabled == base.mic_enabled
            &&& o.echo_cancel is Some ==> r.echo_cancel == o.echo_cancel->Some_0
            &&& o.echo_cancel is None ==> r.echo_cancel == base.echo_cancel
            &&& o.pad_haptics is Some ==> r.pad_haptics == o.pad_haptics->Some_0
            &&& o.pad_haptics is None ==> r.pad_haptics == base.pad_haptics
            &&& o.pad_speaker is Some ==> r.pad_speaker == o.pad_speaker->Some_0
            &&& o.pad_speaker is None ==> r.pad_speaker == base.pad_speaker
            &&& o.keep_host_audio is Some ==> r.keep_host_audio == o.keep_host_audio->Some_0
            &&& o.keep_host_audio is None ==> r.keep_host_audio == base.keep_host_audio
            &&& o.video_fit is Some ==> r.video_fit == o.video_fit->Some_0
            &&& o.video_fit is None ==> r.video_fit == base.video_fit
            &&& o.mouse is Some ==> r.mouse == o.mouse->Some_0
            &&& o.mouse is None ==> r.mouse == base.mouse
            &&& o.decoder is Some ==> r.decoder == o.decoder->Some_0
            &&& o.decoder is None ==> r.decoder == base.decoder
            &&& o.fullscreen_on_stream is Some ==> r.fullscreen_on_stream == o.fullscreen_on_stream->Some_0
            &&& o.fullscreen_on_stream is None ==> r.fullscreen_on_stream == base.fullscreen_on_stream
            &&& o.present_priority is Some ==> r.present_priority == o.present_priority->Some_0
            &&& o.present_priority is None ==> r.present_priority == base.present_priority
            &&& o.smooth_buffer is Some ==> r.smooth_buffer == o.smooth_buffer->Some_0
            &&& o.smooth_buffer is None ==> r.smooth_buffer == base.smooth_buffer
            &&& o.vsync is Some ==> r.vsync == o.vsync->Some_0
            &&& o.vsync is None ==> r.vsync == base.vsync
            &&& o.allow_vrr is Some ==> r.allow_vrr == o.allow_vrr->Some_0
            &&& o.allow_vrr is None ==> r.allow_vrr == base.allow_vrr
            &&& r.advanced_stats == base.advanced_stats
            &&& r.auto_wake == base.auto_wake
            &&& r.last_window_w == base.last_window_w
            &&& r.last_window_h == base.last_window_h
        }),
{
    reveal(over);
}

/// A codec is preferred by its own name; any other name leaves the choice to the host.
pub proof fn a_codec_goes_by_its_name(name: Seq<char>)
    ensures
        codec_bit("h264"@) == 1,
        codec_bit("hevc"@) == 2,
        codec_bit("av1"@) == 4,
        codec_bit("pyrowave"@) == 8,
        name != "h264"@ && name != "hevc"@ && name != "av1"@ && name != "pyrowave"@ ==> codec_bit(
            name,
        ) == 0,
{
    reveal_strlit("h264");
    reveal_strlit("hevc");
    reveal_strlit("av1");
    reveal_strlit("pyrowave");
    assert("h264"@.len() == 4 && "hevc"@.len() == 4 && "av1"@.len() == 3 && "pyrowave"@.len() == 8);
    assert("h264"@[1] == '2');
    assert("hevc"@[1] == 'e');
}

/// A reference to a preset means the first with that id, whatever names there are.
pub proof fn an_id_means_its_first_preset(presets: Seq<PresetState>, reference: Seq<char>, i: int)
    requires
        0 <= i < presets.len(),
        presets[i].id == reference,
    ensures
        meant(presets, reference).1 == Resolution::Found,
        ({
            let k = meant(presets, reference).0->Some_0;
            &&& meant(presets, reference).0 is Some
            &&& 0 <= k <= i
            &&& presets[k].id == reference
            &&& forall|j: int| 0 <= j < k ==> (#[trigger] presets[j]).id != reference
        }),
    decreases presets.len(),
{
    let rest = presets.drop_last();
    first_id(presets, reference);
    if i < presets.len() - 1 {
        assert(rest[i] == presets[i]);
    }
}

proof fn first_id(presets: Seq<PresetState>, reference: Seq<char>)
    ensures
        by_id(presets, reference) matches Some(k) ==> 0 <= k < presets.len() && presets[k].id
            == reference && forall|j: int|
            0 <= j < k ==> (#[trigger] presets[j]).id != reference,
        by_id(presets, reference) is None ==> forall|j: int|
            0 <= j < presets.len() ==> (#[trigger] presets[j]).id != reference,
    decreases presets.len(),
{
    if presets.len() > 0 {
        let rest = presets.drop_last();
        first_id(rest, reference);
        assert forall|j: int| 0 <= j < rest.len() implies (#[trigger] presets[j]).id
            == rest[j].id by {}
    }
}

proof fn names_counted(presets: Seq<PresetState>, reference: Seq<char>)
    ensures
        named(presets, reference) == 0 <==> forall|j: int|
            0 <= j < presets.len() ==> (#[trigger] presets[j]).name != reference,
        named(presets, reference) <= 1 <==> forall|i: int, j: int|
            0 <= i < j < presets.len() ==> !((#[trigger] presets[i]).name == reference && (
            #[trigger] presets[j]).name == reference),
        by_name(presets, reference) matches Some(k) ==> 0 <= k < presets.len() && presets[k].name
            == reference,
        by_name(presets, reference) is Some <==> named(presets, reference) > 0,
    decreases presets.len(),
{
    if presets.len() > 0 {
        let rest = presets.drop_last();
        let n = presets.len() - 1;
        names_counted(rest, reference);
        assert forall|j: int| 0 <= j < rest.len() implies (#[trigger] presets[j]) == rest[j] by {}
        if named(rest, reference) > 0 {
            let k = choose|k: int| 0 <= k < rest.len() && (#[trigger] rest[k]).name == reference;
            assert(presets[k].name == reference);
            assert(presets[n] == presets.last());
        }
        if named(rest, reference) > 1 {
            let (i, j) = choose|i: int, j: int|
                0 <= i < j < rest.len() && (#[trigger] rest[i]).name == reference && (
                #[trigger] rest[j]).name == reference;
            assert(presets[i].name == reference && presets[j].name == reference);
        }
        assert(presets[n] == presets.last());
    }
}

/// Where no preset has a reference for its id, the only one with that name is meant; two with it
/// are ambiguous, and none is missing.
pub proof fn a_name_means_its_only_preset(presets: Seq<PresetState>, reference: Seq<char>, i: int)
    requires
        forall|j: int| 0 <= j < presets.len() ==> (#[trigger] presets[j]).id != reference,
    ensures
        0 <= i < presets.len() && presets[i].name == reference && (forall|j: int|
            0 <= j < presets.len() && j != i ==> (#[trigger] presets[j]).name != reference)
            ==> meant(presets, reference) == (Some(i), Resolution::Found),
        (forall|j: int| 0 <= j < presets.len() ==> (#[trigger] presets[j]).name != reference)
            ==> meant(presets, reference) == (None::<int>, Resolution::Missing),
        (exists|j: int|
            0 <= j < presets.len() && j != i && 0 <= i < presets.len() && presets[i].name
                == reference && (#[trigger] presets[j]).name == reference) ==> meant(
            presets,
            reference,
        ) == (None::<int>, Resolution::Ambiguous),
{
    first_id(presets, reference);
    names_counted(presets, reference);
}

/// A one-off choice goes before a game's preset, and that before the host's; an empty one-off
/// means none at all.
pub proof fn the_nearer_preset_wins(
    presets: Seq<PresetState>,
    host: Option<Seq<char>>,
    game: Option<Seq<char>>,
    one_off: Option<Seq<char>>,
)
    ensures
        one_off is Some && one_off->Some_0.len() > 0 ==> preset_for(presets, host, game, one_off)
            == meant(presets, one_off->Some_0).0,
        one_off is Some && one_off->Some_0.len() == 0 ==> preset_for(presets, host, game, one_off)
            is None,
        one_off is None && game is Some ==> preset_for(presets, host, game, one_off) == meant(
            presets,
            game->Some_0,
        ).0,
        one_off is None && game is None && host is Some ==> preset_for(presets, host, game, one_off)
            == meant(presets, host->Some_0).0,
        one_off is None && game is None && host is None ==> preset_for(presets, host, game, one_off)
            is None,
{
}

/// A game's preset is the first bound to it, and a game nobody bound has none.
pub proof fn a_game_has_its_first_preset(pairs: Seq<(Seq<char>, Seq<char>)>, game: Seq<char>)
    ensures
        game_preset(pairs, game) is None <==> forall|j: int|
            0 <= j < pairs.len() ==> (#[trigger] pairs[j]).0 != game,
        game_preset(pairs, game) matches Some(p) ==> exists|k: int|
            0 <= k < pairs.len() && (#[trigger] pairs[k]).0 == game && pairs[k].1 == p && forall|
                j: int,
            |
                0 <= j < k ==> (#[trigger] pairs[j]).0 != game,
    decreases pairs.len(),
{
    if pairs.len() > 0 {
        let rest = pairs.drop_last();
        let n = pairs.len() - 1;
        a_game_has_its_first_preset(rest, game);
        assert forall|j: int| 0 <= j < rest.len() implies (#[trigger] pairs[j]) == rest[j] by {}
        assert(pairs[n] == pairs.last());
        if game_preset(rest, game) is Some {
            let p = game_preset(rest, game)->Some_0;
            let k = choose|k: int|
                0 <= k < rest.len() && (#[trigger] rest[k]).0 == game && rest[k].1 == p && forall|
                    j: int,
                |
                    0 <= j < k ==> (#[trigger] rest[j]).0 != game;
            assert(pairs[k].0 == game && pairs[k].1 == p);
            assert forall|j: int| 0 <= j < k implies (#[trigger] pairs[j]).0 != game by {
                assert(rest[j].0 != game);
            }
        } else if pairs.last().0 == game {
            assert forall|j: int| 0 <= j < n implies (#[trigger] pairs[j]).0 != game by {
                assert(rest[j].0 != game);
            }
        }
    }
}

/// The record a target means is the first with its pin, and without a pin the first with its
/// address and port; where there is none, no record is meant.
pub proof fn a_pin_names_its_own_record(
    hosts: Seq<KnownHostState>,
    fp: Option<Seq<char>>,
    addr: Seq<char>,
    port: u16,
)
    ensures
        ({
            let hit = |h: KnownHostState|
                if fp is Some {
                    h.fp_hex == fp->Some_0
                } else {
                    h.addr == addr && h.port == port
                };
            &&& record_of(hosts, fp, addr, port) matches Some(k) ==> 0 <= k < hosts.len() && hit(
                hosts[k],
            ) && forall|j: int| 0 <= j < k ==> !hit(#[trigger] hosts[j])
            &&& record_of(hosts, fp, addr, port) is None ==> forall|j: int|
                0 <= j < hosts.len() ==> !hit(#[trigger] hosts[j])
        }),
    decreases hosts.len(),
{
    if hosts.len() > 0 {
        let rest = hosts.drop_last();
        a_pin_names_its_own_record(rest, fp, addr, port);
        assert forall|j: int| 0 <= j < rest.len() implies (#[trigger] hosts[j]) == rest[j] by {}
        assert(hosts[hosts.len() - 1] == hosts.last());
    }
}

/// The plan for a saved host dials that host at its own address with its own pin, starts what was
/// asked for, hands a one-off choice on as it was given, wakes where the settings say so and an
/// address to wake is known, shares the clipboard as the host is saved, and streams under the
/// user's settings or, where a preset is found, that preset's.
pub proof fn a_plan_is_the_hosts(
    h: KnownHostState,
    launch: Option<Seq<char>>,
    one_off: Option<Seq<char>>,
    presets: Seq<PresetState>,
    base: SettingsState,
)
    ensures
        ({
            let p = planned(h, launch, one_off, presets, base);
            let game = if launch is Some {
                game_preset(h.game_presets, launch->Some_0)
            } else {
                None
            };
            let found = preset_for(presets, h.preset_id, game, one_off);
            &&& p.launch == launch
            &&& p.preset_override == one_off
            &&& p.host.name == h.name && p.host.addr == h.addr && p.host.port == h.port
            &&& p.host.mac == h.mac && p.host.id == h.id && p.host.mgmt_port == h.mgmt_port
            &&& h.fp_hex.len() == 0 ==> p.host.fp_hex is None
            &&& h.fp_hex.len() > 0 ==> p.host.fp_hex == Some(h.fp_hex)
            &&& p.wake == (base.auto_wake && h.mac.len() > 0)
            &&& p.clipboard == h.clipboard_sync
            &&& p.connect_timeout_secs is None && !p.tofu
            &&& found is None ==> p.preset is None && p.settings == base
            &&& found is Some ==> p.preset == Some(presets[found->Some_0]) && p.settings
                == overlaid(presets[found->Some_0].overrides, base)
        }),
{
    reveal(over);
}

/// The plan for a target the caller holds dials that target as it was given, starts what was
/// asked for, hands the one-off choice on, wakes by the target's own addresses, and takes
/// settings, preset and clipboard from the record the target means, or from none.
pub proof fn a_target_stays_the_callers(
    target: HostTargetState,
    hosts: Seq<KnownHostState>,
    launch: Option<Seq<char>>,
    one_off: Option<Seq<char>>,
    presets: Seq<PresetState>,
    base: SettingsState,
)
    ensures
        ({
            let p = planned_target(target, hosts, launch, one_off, presets, base);
            let found = record_of(hosts, target.fp_hex, target.addr, target.port);
            let q = planned(
                if found is Some {
                    hosts[found->Some_0]
                } else {
                    unsaved()
                },
                launch,
                one_off,
                presets,
                base,
            );
            &&& p.host == target
            &&& p.launch == launch
            &&& p.preset_override == one_off
            &&& p.wake == (base.auto_wake && target.mac.len() > 0)
            &&& p.connect_timeout_secs is None && !p.tofu
            &&& p.settings == q.settings && p.preset == q.preset && p.clipboard == q.clipboard
            &&& found is None ==> !p.clipboard
            &&& found is None && one_off is None ==> p.preset is None && p.settings == base
            &&& found is Some ==> p.clipboard == hosts[found->Some_0].clipboard_sync
        }),
{
    reveal(over);
}

/// A session is started with what its plan says, each value behind its own flag and in order: the
/// address, the pin, the launch, a one-off preset, a budget and full screen, and nothing else.
pub proof fn a_plan_is_handed_over_whole(p: PlanState)
    ensures
        ({
            let a = argv(p);
            let fp = if p.host.fp_hex is Some {
                2int
            } else {
                0
            };
            let launch = if p.launch is Some {
                2int
            } else {
                0
            };
            let preset = if p.preset_override is Some {
                2int
            } else {
                0
            };
            let budget = if p.connect_timeout_secs is Some {
                2int
            } else {
                0
            };
            let full = if p.settings.fullscreen_on_stream {
                1int
            } else {
                0
            };
            &&& a.len() == 2 + fp + launch + preset + budget + full
            &&& a[0] == "--connect"@
            &&& a[1] == p.host.addr + ":"@ + decimal(p.host.port as nat)
            &&& p.host.fp_hex is Some ==> a[2] == "--fp"@ && a[3] == p.host.fp_hex->Some_0
            &&& p.launch is Some ==> a[2 + fp] == "--launch"@ && a[3 + fp] == p.launch->Some_0
            &&& p.preset_override is Some ==> a[2 + fp + launch] == "--preset"@ && a[3 + fp
                + launch] == p.preset_override->Some_0
            &&& p.connect_timeout_secs is Some ==> a[2 + fp + launch + preset]
                == "--connect-timeout"@ && a[3 + fp + launch + preset] == decimal(
                p.connect_timeout_secs->Some_0 as nat,
            )
            &&& p.settings.fullscreen_on_stream ==> a.last() == "--fullscreen"@
        }),
{
}

/// A link that is no connect is told as unsupported; one whose preset is ambiguous or missing is
/// refused by that preset; one whose host is ambiguous or nowhere, by that host. A saved host is
/// connected or confirmed as its own plan under the link's launch and preset; one without a pin,
/// and an address nobody saved, become a question that carries all the link said.
pub proof fn a_link_comes_to_what_it_says(
    link: LinkState,
    resolution: ResolutionState,
    hosts: Seq<KnownHostState>,
    presets: Seq<PresetState>,
    base: SettingsState,
)
    ensures
        ({
            let r = linked(link, resolution, hosts, presets, base);
            let fine = link.route == Route::Connect && (link.preset is None || meant(
                presets,
                link.preset->Some_0,
            ).1 == Resolution::Found);
            let index = match resolution {
                ResolutionState::Known(i) => i,
                ResolutionState::Confirm(i) => i,
                _ => -1int,
            };
            let h = hosts[index];
            let saved = resolution is Known || resolution is Confirm;
            let pinned = h.fp_hex.len() > 0;
            let clash = link.fp is Some && pinned && link.fp->Some_0 != h.fp_hex;
            let plan = planned(h, link.launch, link.preset, presets, base);
            &&& link.route != Route::Connect ==> r == Ok::<OutcomeState, PlanErrorState>(
                OutcomeState::Unsupported(link.route),
            )
            &&& link.route == Route::Connect && link.preset is Some && meant(
                presets,
                link.preset->Some_0,
            ).1 == Resolution::Ambiguous ==> r == Err::<OutcomeState, PlanErrorState>(
                PlanErrorState::AmbiguousPreset(link.preset->Some_0),
            )
            &&& link.route == Route::Connect && link.preset is Some && meant(
                presets,
                link.preset->Some_0,
            ).1 == Resolution::Missing ==> r == Err::<OutcomeState, PlanErrorState>(
                PlanErrorState::UnknownPreset(link.preset->Some_0),
            )
            &&& fine && resolution is Ambiguous ==> r == Err::<OutcomeState, PlanErrorState>(
                PlanErrorState::AmbiguousHost(link.host_ref),
            )
            &&& fine && resolution is Unresolvable ==> r == Err::<OutcomeState, PlanErrorState>(
                PlanErrorState::UnresolvableHost(link.host_ref),
            )
            &&& fine && saved && clash ==> r == Err::<OutcomeState, PlanErrorState>(
                PlanErrorState::PinConflict(h.name),
            )
            &&& fine && resolution is Known && !clash && pinned ==> r is Ok && r->Ok_0 is Connect
            &&& fine && resolution is Confirm && !clash && pinned ==> r is Ok && r->Ok_0
                is ConfirmConnect
            &&& fine && saved && !clash && pinned ==> {
                let p = match r->Ok_0 {
                    OutcomeState::Connect(p) => p,
                    OutcomeState::ConfirmConnect(p) => p,
                    _ => plan,
                };
                &&& p.launch == link.launch && p.preset_override == link.preset
                &&& p.host.addr == h.addr && p.host.port == h.port && p.host.fp_hex == Some(
                    h.fp_hex,
                )
                &&& p.settings == plan.settings && p.preset == plan.preset && p.wake == plan.wake
                    && p.clipboard == plan.clipboard
                &&& h.name.len() > 0 ==> p.host.name == h.name
                &&& h.name.len() == 0 && link.name is Some ==> p.host.name == link.name->Some_0
                &&& h.name.len() == 0 && link.name is None ==> p.host.name == h.addr
            }
            &&& fine && saved && !pinned ==> r == Ok::<OutcomeState, PlanErrorState>(
                OutcomeState::ConfirmUnknown(
                    UnknownState {
                        addr: h.addr,
                        port: h.port,
                        name: Some(h.name),
                        fp: link.fp,
                        launch: link.launch,
                        preset: link.preset,
                    },
                ),
            )
            &&& fine ==> (resolution matches ResolutionState::Unknown { addr, port, name, fp } ==> r
                == Ok::<OutcomeState, PlanErrorState>(
                OutcomeState::ConfirmUnknown(
                    UnknownState {
                        addr,
                        port,
                        name,
                        fp,
                        launch: link.launch,
                        preset: link.preset,
                    },
                ),
            ))
        }),
{
}

/// A notice quotes the reference that failed between words of its own.
pub proof fn a_notice_names_what_failed(r: Seq<char>)
    ensures
        notice(PlanErrorState::AmbiguousHost(r)) == "More than one saved host is called \""@ + r
            + "\" — open Punktfunk and pick one."@,
        notice(PlanErrorState::UnresolvableHost(r)) == "No saved host matches \""@ + r + "\"."@,
        notice(PlanErrorState::PinConflict(r))
            == "That link's fingerprint doesn't match the one saved for "@ + r
            + " — it's out of date, or it isn't that host. Nothing was connected."@,
        notice(PlanErrorState::UnknownPreset(r))
            == "That link asks for a settings preset called \""@ + r
            + "\", which doesn't exist here."@,
        notice(PlanErrorState::AmbiguousPreset(r)) == "More than one settings preset is called \""@
            + r + "\" — rename one, or use its id in the link."@,
{
}

/// One second of a wait for a sleeping host: a packet every sixth, the host's presence before the
/// budget, and the budget of ninety seconds before another second.
pub proof fn a_second_of_waiting(w: WakeWait, online: bool)
    requires
        w.elapsed_secs <= 90,
    ensures
        ({
            let (n, t) = w.ticked(online);
            &&& t.seconds == w.elapsed_secs
            &&& t.send_packet == (w.elapsed_secs % 6 == 0)
            &&& online ==> t.outcome == Some(WakeOutcome::Online) && n == w
            &&& !online && w.elapsed_secs == 90 ==> t.outcome == Some(WakeOutcome::TimedOut) && n
                == w
            &&& !online && w.elapsed_secs < 90 ==> t.outcome is None && n.elapsed_secs
                == w.elapsed_secs + 1
        }),
{
}

/// A line tells one thing: that the session is ready before an error, an error before the end, the
/// end before a window, and a window only whole.
pub proof fn a_line_tells_one_thing(l: LineState)
    ensures
        l.ready == Some(true) <==> event_for(l) == Some(LineEvent::Ready),
        l.ready != Some(true) && l.error is None && l.ended is Some ==> event_for(l) == Some(
            LineEvent::Ended(l.ended->Some_0),
        ),
        l.ready != Some(true) && l.error is None && l.ended is None && l.w is Some && l.h is Some
            ==> {
            let e = event_for(l);
            &&& e is Some && e->Some_0 is Window
            &&& e->Some_0->w == l.w->Some_0 % 0x1_0000_0000
            &&& e->Some_0->h == l.h->Some_0 % 0x1_0000_0000
        },
        l.ready != Some(true) && l.error is None && l.ended is None && (l.w is None || l.h is None)
            ==> event_for(l) is None,
{
}

/// Keeping a window's size changes the size that was kept and nothing else.
pub proof fn a_size_changes_nothing_else(s: SettingsState, w: u32, h: u32)
    ensures
        sized(s, w, h).last_window_w == w,
        sized(s, w, h).last_window_h == h,
        sized(sized(s, w, h), s.last_window_w, s.last_window_h) == s,
{
}

/// A session's process: it is started by its own name, one that was cancelled before it ran is
/// killed, one that did not start leaves nothing running, and a cancel is remembered.
pub proof fn a_process_is_looked_after(s: Supervisor)
    ensures
        program(Platform::Windows) == "punktfunk-session.exe"@,
        program(Platform::Linux) == "punktfunk-session"@,
        s.started(true).0 == (Supervisor { running: true, ..s }),
        s.started(true).1 == (StartStep::Read { kill: s.cancelled }),
        s.started(false).0 == (Supervisor { spec: false, ..s }),
        s.started(false).1 == (StartStep::Failed { remove_spec: s.spec }),
        s.killed().0 == (Supervisor { cancelled: true, ..s }),
        s.killed().1 == s.running,
{
}

/// A session is asked for at the user's size and rate, the display's own standing in for each
/// that is zero, at no less than thirty pictures a second where the display's rate is taken.
pub proof fn a_zero_inherits_the_display(s: SettingsState, display: Mode)
    ensures
        ({
            let m = asked_mode(s, display);
            &&& s.width != 0 ==> m.width == s.width
            &&& s.width == 0 ==> m.width == display.width
            &&& s.height != 0 ==> m.height == s.height
            &&& s.height == 0 ==> m.height == display.height
            &&& s.refresh_hz != 0 ==> m.refresh_hz == s.refresh_hz
            &&& s.refresh_hz == 0 && display.refresh_hz >= 30 ==> m.refresh_hz
                == display.refresh_hz
            &&& s.refresh_hz == 0 && display.refresh_hz < 30 ==> m.refresh_hz == 30
        }),
{
}

/// A session gets the user's settings, the dial's host, port, pin, launch and budget, and this
/// device's own facts, each as it is. The size is the scaled one where there is one; HDR is asked
/// for where the user wants it and the display shows it, ten bits with it or on their own
/// switch, full chroma where the user wants it and the device decodes it; the cursor is forwarded
/// in desktop mode; and the phase is locked where the presenter knows the glass.
pub proof fn a_session_gets_what_was_planned(
    spec: SpecState,
    dial: DialState,
    probes: ProbesState,
    scaled: Option<(u32, u32)>,
)
    ensures
        ({
            let p = filled(spec, dial, probes, scaled);
            let s = spec.settings;
            let m = asked_mode(s, probes.mode);
            let hdr = s.hdr_enabled && probes.hdr_enabled;
            &&& p.host == dial.host && p.port == dial.port && p.pin == Some(dial.pin) && p.launch
                == dial.launch && p.connect_timeout_secs == dial.connect_timeout_secs
            &&& scaled is None ==> p.mode == m
            &&& scaled is Some ==> p.mode.width == scaled->Some_0.0 && p.mode.height
                == scaled->Some_0.1 && p.mode.refresh_hz == m.refresh_hz
            &&& p.compositor == s.compositor && p.bitrate_kbps == s.bitrate_kbps
                && p.audio_channels == s.audio_channels && p.audio_format == s.audio_format
            &&& p.preferred_codec == codec_bit(s.codec) && p.exclude_codecs == 0
            &&& has8(p.video_caps, 1) == (hdr || s.ten_bit_sdr)
            &&& has8(p.video_caps, 2) == hdr
            &&& has8(p.video_caps, 4) == (s.enable_444 && probes.hevc_444_hardware)
            &&& has8(p.video_caps, 8) && p.video_caps < 16
            &&& p.want_444 == s.enable_444
            &&& hdr ==> p.display_hdr == probes.display_hdr
            &&& !hdr ==> p.display_hdr is None
            &&& p.mic_enabled == s.mic_enabled && p.echo_cancel == s.echo_cancel && p.pad_haptics
                == s.pad_haptics && p.pad_speaker == s.pad_speaker
            &&& p.clipboard == spec.clipboard && p.keep_host_audio == s.keep_host_audio
                && p.video_fit == s.video_fit && p.decoder == s.decoder
            &&& p.cursor_forward == (s.mouse == MouseMode::Desktop)
            &&& p.vulkan == probes.vulkan && p.gamepad == probes.gamepad && p.identity
                == probes.identity && p.stats_verbosity == probes.stats_verbosity
            &&& p.preset == spec.preset && p.preset_id == spec.preset_id && p.advanced_stats
                == s.advanced_stats
            &&& p.phase_lock == (probes.vulkan is Some && probes.vulkan->Some_0.present_timing)
        }),
{
    let s = spec.settings;
    let hdr = s.hdr_enabled && probes.hdr_enabled;
    mask4_bits(hdr || s.ten_bit_sdr, hdr, s.enable_444 && probes.hevc_444_hardware, true);
}

/// A plan's session dials the plan's host, starts its launch, shares its clipboard and names its
/// preset; a plan without a budget gets fifteen seconds.
pub proof fn a_plan_reaches_its_session(
    p: PlanState,
    pin: [u8; 32],
    probes: ProbesState,
    scaled: Option<(u32, u32)>,
)
    ensures
        ({
            let q = filled(spec_of(p), dial_of(p, pin), probes, scaled);
            &&& q.host == p.host.addr && q.port == p.host.port && q.launch == p.launch
            &&& q.pin == Some(pin) && q.clipboard == p.clipboard
            &&& p.connect_timeout_secs is Some ==> q.connect_timeout_secs
                == p.connect_timeout_secs->Some_0
            &&& p.connect_timeout_secs is None ==> q.connect_timeout_secs == 15
            &&& p.preset is Some ==> q.preset == Some(p.preset->Some_0.name) && q.preset_id == Some(
                p.preset->Some_0.id,
            )
            &&& p.preset is None ==> q.preset is None && q.preset_id is None
            &&& q.bitrate_kbps == p.settings.bitrate_kbps && q.decoder == p.settings.decoder
        }),
{
}

/// An audio override reads as no, as yes, or as a rate with a depth behind a slash, twenty-four
/// bits where it has none; anything else, and any format the plane does not carry, asks for
/// nothing this client can have.
pub proof fn an_override_reads_as_it_is_written(raw: Seq<char>)
    ensures
        ({
            let v = lowered(trimmed(raw));
            let off = v == ""@ || v == "0"@ || v == "off"@ || v == "false"@ || v == "no"@;
            let on = v == "1"@ || v == "on"@ || v == "true"@ || v == "yes"@;
            &&& off ==> request_of(raw) == AudioRequest::Legacy
            &&& !off && on ==> request_of(raw) == AudioRequest::Hires(96_000, 24)
            &&& !off && !on && !v.contains('/') ==> {
                let rate = parsed(trimmed(v), 0xffff_ffff);
                let bits = parsed(trimmed("24"@), 255);
                if rate is Some && bits is Some && (rate->Some_0 == 48_000 || rate->Some_0
                    == 96_000) && (bits->Some_0 == 16 || bits->Some_0 == 24) {
                    request_of(raw) == AudioRequest::Hires(
                        rate->Some_0 as u32,
                        bits->Some_0 as u8,
                    )
                } else {
                    request_of(raw) == AudioRequest::Unsupported
                }
            }
            &&& request_of(raw) matches AudioRequest::Hires(rate, bits) ==> (rate == 48_000 || rate
                == 96_000) && (bits == 16 || bits == 24)
        }),
{
}

/// The two parts of a text about a character that the first of them does not hold.
pub proof fn a_text_is_cut_once(a: Seq<char>, c: char, b: Seq<char>)
    requires
        !a.contains(c),
    ensures
        cut(a + seq![c] + b, c) == Some((a, b)),
{
    let s = a + seq![c] + b;
    cut_splits(s, c);
    crate::text::split_is_unique(s, c, cut(s, c), Some((a, b)));
}

/// A rate with a depth behind a slash is asked for as both, where the plane carries them.
pub proof fn a_rate_carries_its_depth(raw: Seq<char>, a: Seq<char>, b: Seq<char>)
    requires
        lowered(trimmed(raw)) == a + seq!['/'] + b,
        !a.contains('/'),
    ensures
        ({
            let rate = parsed(trimmed(a), 0xffff_ffff);
            let bits = parsed(trimmed(b), 255);
            if rate is Some && bits is Some && (rate->Some_0 == 48_000 || rate->Some_0 == 96_000)
                && (bits->Some_0 == 16 || bits->Some_0 == 24) {
                request_of(raw) == AudioRequest::Hires(rate->Some_0 as u32, bits->Some_0 as u8)
            } else {
                request_of(raw) == AudioRequest::Unsupported
            }
        }),
{
    let v = lowered(trimmed(raw));
    a_text_is_cut_once(a, '/', b);
    let k = a.len() as int;
    assert(v[k] == '/');
    reveal_strlit("");
    reveal_strlit("0");
    reveal_strlit("off");
    reveal_strlit("false");
    reveal_strlit("no");
    reveal_strlit("1");
    reveal_strlit("on");
    reveal_strlit("true");
    reveal_strlit("yes");
    assert(""@.len() == 0 && "0"@.len() == 1 && "off"@.len() == 3 && "false"@.len() == 5 && "no"@.len()
        == 2 && "1"@.len() == 1 && "on"@.len() == 2 && "true"@.len() == 4 && "yes"@.len() == 3);
    assert(forall|i: int| 0 <= i < 1 ==> "0"@[i] != '/' && "1"@[i] != '/');
    assert(forall|i: int| 0 <= i < 2 ==> "no"@[i] != '/' && "on"@[i] != '/');
    assert(forall|i: int| 0 <= i < 3 ==> "off"@[i] != '/' && "yes"@[i] != '/');
    assert(forall|i: int| 0 <= i < 4 ==> "true"@[i] != '/');
    assert(forall|i: int| 0 <= i < 5 ==> "false"@[i] != '/');
}

/// A switch of mode is written as width, height, rate and seconds, each a number of its own.
pub proof fn a_switch_is_read_part_by_part(
    w: Seq<char>,
    h: Seq<char>,
    hz: Seq<char>,
    secs: Seq<char>,
)
    requires
        !w.contains('x'),
        !(w + seq!['x'] + h).contains('@'),
        !(w + seq!['x'] + h + seq!['@'] + hz).contains(':'),
    ensures
        ({
            let s = w + seq!['x'] + h + seq!['@'] + hz + seq![':'] + secs;
            let a = parsed(trimmed(w), 0xffff_ffff);
            let b = parsed(trimmed(h), 0xffff_ffff);
            let c = parsed(trimmed(hz), 0xffff_ffff);
            let d = parsed(trimmed(secs), 0xffff_ffff_ffff_ffff);
            if a is Some && b is Some && c is Some && d is Some {
                reconfigure_of(s) == Some(
                    (
                        Mode {
                            width: a->Some_0 as u32,
                            height: b->Some_0 as u32,
                            refresh_hz: c->Some_0 as u32,
                        },
                        d->Some_0 as u64,
                    ),
                )
            } else {
                reconfigure_of(s) is None
            }
        }),
{
    let res = w + seq!['x'] + h;
    let mode = res + seq!['@'] + hz;
    a_text_is_cut_once(mode, ':', secs);
    a_text_is_cut_once(res, '@', hz);
    a_text_is_cut_once(w, 'x', h);
}

/// A text without a colon, or without an at sign before its first colon, is no switch of mode.
pub proof fn half_a_switch_is_none(s: Seq<char>, mode: Seq<char>, rest: Seq<char>)
    ensures
        !s.contains(':') ==> reconfigure_of(s) is None,
        !mode.contains(':') && !mode.contains('@') ==> reconfigure_of(mode + seq![':'] + rest)
            is None,
{
    if !mode.contains(':') {
        a_text_is_cut_once(mode, ':', rest);
    }
}

/// Where the environment says nothing readable the setting decides: 48 or 96 kHz at twenty-four
/// bits, or the compressed plane. A format goes out only in stereo and where it can be played.
pub proof fn a_setting_asks_for_its_format(
    raw: Seq<char>,
    setting: Seq<char>,
    f: (u32, u8),
    channels: u8,
    plays: bool,
)
    ensures
        wanted_format(None, "lossless48"@) == Some((48_000u32, 24u8)),
        wanted_format(None, "lossless96"@) == Some((96_000u32, 24u8)),
        setting != "lossless48"@ && setting != "lossless96"@ ==> wanted_format(None, setting)
            is None,
        channels == 2 && plays ==> sent_format(Some(f), channels, plays) == f,
        channels != 2 || !plays ==> sent_format(Some(f), channels, plays) == (0u32, 0u8),
        sent_format(None, channels, plays) == (0u32, 0u8),
        request_of(raw) matches AudioRequest::Hires(rate, bits) ==> wanted_format(Some(raw), setting)
            == Some((rate, bits)),
        request_of(raw) == AudioRequest::Legacy ==> wanted_format(Some(raw), setting) is None,
        request_of(raw) == AudioRequest::Unsupported ==> wanted_format(Some(raw), setting)
            == wanted_format(None, setting),
{
    reveal_strlit("lossless48");
    reveal_strlit("lossless96");
    assert("lossless48"@.len() == 10 && "lossless96"@.len() == 10);
    assert("lossless48"@[8] == '4');
    assert("lossless96"@[8] == '9');
}

/// What a session asks of a host: PyroWave where it is preferred and the device has it, and then
/// at the host's own rate and with full chroma on the switch alone; otherwise the user's codec,
/// rate and capabilities. Pad audio runs for haptics or for the pad's own speaker.
pub proof fn a_dial_asks_what_was_set(
    p: ParamsState,
    platform: Platform,
    env: Option<Seq<char>>,
    prefer: bool,
    dxva: bool,
)
    ensures
        ({
            let d = dial_plan(p, platform, env, prefer, dxva);
            let promised = crate::video::promised(platform, p.vulkan, env, p.decoder, dxva);
            let has = p.vulkan is Some && p.vulkan->Some_0.pyrowave_decode;
            &&& prefer && has ==> d.preferred == 8
            &&& !(prefer && has) ==> d.preferred == p.preferred_codec
            &&& d.pad_speaker_on == (p.pad_speaker == "pad"@)
            &&& d.pad_audio_on == (p.pad_haptics || p.pad_speaker == "pad"@)
            &&& d.advertised_codecs & 1 != 0 <==> promised & 1 != 0 && p.exclude_codecs & 1 == 0
            &&& d.advertised_codecs & 2 != 0 <==> promised & 2 != 0 && p.exclude_codecs & 2 == 0
            &&& d.advertised_codecs & 4 != 0 <==> promised & 4 != 0 && p.exclude_codecs & 4 == 0
            &&& d.advertised_codecs & 8 != 0 <==> promised & 8 != 0 && p.exclude_codecs & 8 == 0
            &&& d.preferred == 8 && d.advertised_codecs & 8 != 0 ==> d.bitrate_kbps == 0 && (
            d.video_caps & 4 != 0 <==> p.want_444 || p.video_caps & 4 != 0) && (d.video_caps & 2
                != 0 <==> p.video_caps & 2 != 0)
            &&& d.preferred != 8 || d.advertised_codecs & 8 == 0 ==> d.bitrate_kbps
                == p.bitrate_kbps && d.video_caps == p.video_caps
        }),
{
    let a = crate::video::promised(platform, p.vulkan, env, p.decoder, dxva);
    let x = p.exclude_codecs;
    let c = p.video_caps;
    assert(((a & !x) & 1 != 0 <==> a & 1 != 0 && x & 1 == 0) && ((a & !x) & 2 != 0 <==> a & 2 != 0
        && x & 2 == 0) && ((a & !x) & 4 != 0 <==> a & 4 != 0 && x & 4 == 0) && ((a & !x) & 8 != 0
        <==> a & 8 != 0 && x & 8 == 0) && (c | 4u8) & 4 != 0 && ((c | 4u8) & 2 != 0 <==> c & 2
        != 0)) by (bit_vector);
}

/// A failed connect tells why: a rejected identity is the only one that is a matter of trust, and
/// a host's own reason is told as it stands.
pub proof fn a_failure_is_told_as_it_is(r: Seq<char>)
    ensures
        failure_event(FailureState::Crypto) == (EventState::Failed {
            msg: "Host identity rejected — wrong fingerprint, or the host requires pairing"@,
            trust_rejected: true,
        }),
        failure_event(FailureState::Timeout) == (EventState::Failed {
            msg: "Connection timed out"@,
            trust_rejected: false,
        }),
        failure_event(FailureState::Rejected(r)) == (EventState::Failed {
            msg: r,
            trust_rejected: false,
        }),
        failure_event(FailureState::Other) == (EventState::Failed {
            msg: "The host didn't answer"@,
            trust_rejected: false,
        }),
{
}

/// A session that ended as it should says nothing; any other end says what went wrong, the host's
/// own rejection first. An exhausted codec names itself, and says what comes next.
pub proof fn an_end_says_only_what_went_wrong(
    reject: Seq<char>,
    reason: EndReason,
    why: Seq<char>,
    negotiated: u8,
    advertised: u8,
    loss: RungLoss,
)
    ensures
        end_text(Some(reject), reason) == Some(reject),
        end_text(None, EndReason::GameExited) is None,
        end_text(None, EndReason::Local) is None,
        end_text(None, EndReason::HostEnded) is None,
        end_text(None, EndReason::HostError) == Some("The host ended the session with an error"@),
        end_text(None, EndReason::Lost) == Some("Connection lost"@),
        end_text(None, EndReason::Unknown) == Some("Host ended the session"@),
        last_event(StopState::Closed { reject: Some(reject), reason }, negotiated, advertised)
            == EventState::Ended(Some(reject)),
        last_event(StopState::Closed { reject: None, reason }, negotiated, advertised)
            == EventState::Ended(end_text(None, reason)),
        last_event(StopState::Broken, negotiated, advertised) == EventState::Ended(
            Some("The stream stopped unexpectedly"@),
        ),
        last_event(StopState::Rebuild(why), negotiated, advertised) == EventState::Ended(
            Some("software decoder rebuild: "@ + why),
        ),
        ({
            let e = last_event(StopState::Exhausted(loss), negotiated, advertised);
            let v = crate::video::verdict(negotiated, advertised, loss);
            &&& last_event(StopState::Asked, negotiated, advertised) == EventState::Ended(None)
            &&& (e is CodecFallback) == (v is Retry)
            &&& e is CodecFallback ==> e->exclude_codecs == advertised & !v->caps
            &&& e is CodecFallback ==> e->CodecFallback_msg == crate::video::codec_name(negotiated)
                + " decoding failed on this device — reconnecting"@
            &&& !(e is CodecFallback) ==> e == EventState::Ended(
                Some(
                    crate::video::codec_name(negotiated)
                        + " can't be decoded on this device, and no other codec is available"@,
                ),
            )
            &&& e is CodecFallback ==> e->retry_caps == v->caps
            &&& negotiated == 2 && e is CodecFallback ==> e->CodecFallback_msg == "HEVC"@
                + " decoding failed on this device — reconnecting"@
            &&& negotiated == 4 && e is CodecFallback ==> e->CodecFallback_msg == "AV1"@
                + " decoding failed on this device — reconnecting"@
            &&& negotiated == 2 && !(e is CodecFallback) ==> e == EventState::Ended(
                Some(
                    "HEVC"@
                        + " can't be decoded on this device, and no other codec is available"@,
                ),
            )
        }),
{
}

/// A mute shows only while the uplink runs; a flip turns it round and answers what it became,
/// without touching the uplink.
pub proof fn a_flip_turns_the_mute_round(m: MicControl)
    ensures
        m.live ==> m.toggled().0.muted == !m.muted && m.toggled().0.live && m.toggled().1 == Some(
            !m.muted,
        ),
        !m.live ==> m.toggled().0 == m && m.toggled().1 is None,
        m.shows_muted() == (m.live && m.muted),
{
}

/// A client nobody changed leaves size, rate and codec to the display and the host, plays stereo,
/// wakes sleeping hosts and chooses its decoder by itself.
pub proof fn a_fresh_client_leaves_the_choice()
    ensures
        ({
            let d = default_settings();
            &&& d.width == 0 && d.height == 0 && d.refresh_hz == 0 && d.bitrate_kbps == 0
            &&& d.audio_channels == 2 && codec_bit(d.codec) == 0 && d.decoder == "auto"@
            &&& d.auto_wake && !d.mic_enabled && d.mouse == MouseMode::Capture
            &&& d.codec == "auto"@ && d.compositor == "auto"@ && d.audio_format == "opus"@
            &&& d.pad_speaker == "pad"@ && d.video_fit == "fit"@ && d.present_priority == "latency"@
            &&& d.hdr_enabled && d.echo_cancel && d.pad_haptics && d.fullscreen_on_stream && d.vsync
                && d.allow_vrr
            &&& !d.ten_bit_sdr && !d.enable_444 && !d.keep_host_audio && !d.advanced_stats
            &&& d.smooth_buffer == 1 && d.last_window_w == 0 && d.last_window_h == 0
        }),
{
    reveal_strlit("auto");
    reveal_strlit("h264");
    reveal_strlit("hevc");
    reveal_strlit("av1");
    reveal_strlit("pyrowave");
    assert("auto"@.len() == 4 && "auto"@[0] == 'a');
    assert("h264"@[0] == 'h' && "hevc"@[0] == 'h');
    assert("av1"@.len() == 3 && "pyrowave"@.len() == 8);
}

} // verus!
