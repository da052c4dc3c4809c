//! Connect plans: one session with every policy question answered, from a saved host, a target
//! or a link.

use vstd::prelude::*;
use crate::settings::{
    opt_chars, overlaid, preset_for, presets_of, resolve_preset, PresetState, PresetsFile, Settings,
    SettingsState, StreamPreset,
};
use crate::text::{copy_opt, decimal, join, opt_view, same, to_decimal};

verus! {

/// Handshake budget where the plan names none.
pub const DEFAULT_CONNECT_TIMEOUT_SECS: u64 = 15;

/// How long a sleeping host is waited for.
pub const WAKE_TIMEOUT_SECS: u64 = 90;

/// How often the wake packet is sent again while waiting.
pub const WAKE_RESEND_SECS: u64 = 6;

/// The views of a list of strings.
pub open spec fn strings_of(v: Seq<String>) -> Seq<Seq<char>> {
    v.map_values(|s: String| s@)
}

/// An equal copy of a list of strings.
pub fn copy_strings(v: &Vec<String>) -> (r: Vec<String>)
    ensures
        strings_of(r@) == strings_of(v@),
{
    let mut r: Vec<String> = Vec::new();
    let mut i: usize = 0;
    while i < v.len()
        invariant
            i <= v@.len(),
            r@.len() == i,
            forall|j: int| 0 <= j < i ==> (#[trigger] r@[j])@ == v@[j]@,
        decreases v@.len() - i,
    {
        r.push(v[i].as_str().to_owned());
        i = i + 1;
    }
    assert(strings_of(r@) =~= strings_of(v@));
    r
}

/// A saved host, as values.
#[verifier::ext_equal]
pub struct KnownHostState {
    pub name: Seq<char>,
    pub addr: Seq<char>,
    pub port: u16,
    pub fp_hex: Seq<char>,
    pub paired: bool,
    pub mac: Seq<Seq<char>>,
    pub id: Option<Seq<char>>,
    pub mgmt_port: Option<u16>,
    pub preset_id: Option<Seq<char>>,
    pub clipboard_sync: bool,
    pub game_presets: Seq<(Seq<char>, Seq<char>)>,
}

/// A saved host.
#[derive(Debug, Default)]
pub struct KnownHost {
    pub name: String,
    pub addr: String,
    pub port: u16,
    /// Empty: never pinned.
    pub fp_hex: String,
    pub paired: bool,
    pub mac: Vec<String>,
    /// Stable over renaming and moving.
    pub id: Option<String>,
    pub mgmt_port: Option<u16>,
    /// The preset this host is bound to.
    pub preset_id: Option<String>,
    /// The user shares the clipboard with this host.
    pub clipboard_sync: bool,
    /// Presets of single games: the game's id, then the preset's.
    pub game_presets: Vec<(String, String)>,
}

/// The views of a list of pairs.
pub open spec fn pairs_of(v: Seq<(String, String)>) -> Seq<(Seq<char>, Seq<char>)> {
    v.map_values(|p: (String, String)| (p.0@, p.1@))
}

impl View for KnownHost {
    type V = KnownHostState;

    open spec fn view(&self) -> KnownHostState {
        KnownHostState {
            name: self.name@,
            addr: self.addr@,
            port: self.port,
            fp_hex: self.fp_hex@,
            paired: self.paired,
            mac: strings_of(self.mac@),
            id: opt_view(self.id),
            mgmt_port: self.mgmt_port,
            preset_id: opt_view(self.preset_id),
            clipboard_sync: self.clipboard_sync,
            game_presets: pairs_of(self.game_presets@),
        }
    }
}

/// The first preset bound to a game.
pub open spec fn game_preset(pairs: Seq<(Seq<char>, Seq<char>)>, game: Seq<char>) -> Option<Seq<char>>
    decreases pairs.len(),
{
    if pairs.len() == 0 {
        None
    } else if game_preset(pairs.drop_last(), game) is Some {
        game_preset(pairs.drop_last(), game)
    } else if pairs.last().0 == game {
        Some(pairs.last().1)
    } else {
        None
    }
}

/// A host nobody saved.
pub open spec fn unsaved() -> KnownHostState {
    KnownHostState {
        name: Seq::empty(),
        addr: Seq::empty(),
        port: 0,
        fp_hex: Seq::empty(),
        paired: false,
        mac: Seq::empty(),
        id: None,
        mgmt_port: None,
        preset_id: None,
        clipboard_sync: false,
        game_presets: Seq::empty(),
    }
}

impl KnownHost {
    /// A host nobody saved: no binding, no clipboard.
    pub fn blank() -> (h: KnownHost)
        ensures
            h@ == unsaved(),
    {
        let h = KnownHost {
            name: String::new(),
            addr: String::new(),
            port: 0,
            fp_hex: String::new(),
            paired: false,
            mac: Vec::new(),
            id: None,
            mgmt_port: None,
            preset_id: None,
            clipboard_sync: false,
            game_presets: Vec::new(),
        };
        assert(h@ =~= unsaved());
        h
    }

    /// The preset bound to a game on this host.
    pub fn preset_for_game(&self, game: &str) -> (r: Option<String>)
        ensures
            opt_view(r) == game_preset(self@.game_presets, game@),
    {
        let ghost pairs = pairs_of(self.game_presets@);
        let mut found: Option<usize> = None;
        let mut i: usize = 0;
        while i < self.game_presets.len()
            invariant
                i <= self.game_presets@.len(),
                pairs == pairs_of(self.game_presets@),
                match found {
                    Some(k) => k < i && game_preset(pairs.take(i as int), game@) == Some(
                        pairs[k as int].1,
                    ),
                    None => game_preset(pairs.take(i as int), game@) is None,
                },
            decreases self.game_presets@.len() - i,
        {
            assert(pairs.take(i + 1).drop_last() =~= pairs.take(i as int));
            assert(pairs.take(i + 1).last() == pairs[i as int]);
            if found.is_none() && same(self.game_presets[i].0.as_str(), game) {
                found = Some(i);
            }
            i = i + 1;
        }
        assert(pairs.take(i as int) =~= pairs);
        match found {
            Some(k) => Some(self.game_presets[k].1.as_str().to_owned()),
            None => None,
        }
    }
}

/// The saved hosts.
#[derive(Debug, Default)]
pub struct KnownHosts {
    pub hosts: Vec<KnownHost>,
}

/// The views of a list of hosts.
pub open spec fn hosts_of(hosts: Seq<KnownHost>) -> Seq<KnownHostState> {
    hosts.map_values(|h: KnownHost| h@)
}

/// Whether a record is the one a target means: a pin names its own record only, never another
/// system saved at the same address.
pub open spec fn is_record(h: KnownHostState, fp: Option<Seq<char>>, addr: Seq<char>, port: u16) -> bool {
    match fp {
        Some(pin) => h.fp_hex == pin,
        None => h.addr == addr && h.port == port,
    }
}

/// The first record a target means.
pub open spec fn record_of(
    hosts: Seq<KnownHostState>,
    fp: Option<Seq<char>>,
    addr: Seq<char>,
    port: u16,
) -> Option<int>
    decreases hosts.len(),
{
    if hosts.len() == 0 {
        None
    } else if record_of(hosts.drop_last(), fp, addr, port) is Some {
        record_of(hosts.drop_last(), fp, addr, port)
    } else if is_record(hosts.last(), fp, addr, port) {
        Some(hosts.len() - 1)
    } else {
        None
    }
}

impl KnownHosts {
    /// The record a target means.
    pub fn resolve(&self, fp: Option<&str>, addr: &str, port: u16) -> (r: Option<usize>)
        ensures
            match r {
                Some(i) => i < self.hosts@.len() && record_of(
                    hosts_of(self.hosts@),
                    opt_chars(fp),
                    addr@,
                    port,
                ) == Some(i as int),
                None => record_of(hosts_of(self.hosts@), opt_chars(fp), addr@, port) is None,
            },
    {
        let ghost states = hosts_of(self.hosts@);
        let mut found: Option<usize> = None;
        let mut i: usize = 0;
        while i < self.hosts.len()
            invariant
                i <= self.hosts@.len(),
                states == hosts_of(self.hosts@),
                match found {
                    Some(k) => k < i && record_of(
                        states.take(i as int),
                        opt_chars(fp),
                        addr@,
                        port,
                    ) == Some(k as int),
                    None => record_of(states.take(i as int), opt_chars(fp), addr@, port) is None,
                },
            decreases self.hosts@.len() - i,
        {
            assert(states.take(i + 1).drop_last() =~= states.take(i as int));
            assert(states.take(i + 1).last() == self.hosts@[i as int]@);
            let hit: bool = match fp {
                Some(pin) => same(self.hosts[i].fp_hex.as_str(), pin),
                None => same(self.hosts[i].addr.as_str(), addr) && self.hosts[i].port == port,
            };
            if found.is_none() && hit {
                found = Some(i);
            }
            i = i + 1;
        }
        assert(states.take(i as int) =~= states);
        found
    }
}

/// Where to dial, as values.
#[verifier::ext_equal]
pub struct HostTargetState {
    pub name: Seq<char>,
    pub addr: Seq<char>,
    pub port: u16,
    pub fp_hex: Option<Seq<char>>,
    pub mac: Seq<Seq<char>>,
    pub id: Option<Seq<char>>,
    pub mgmt_port: Option<u16>,
}

/// Where to dial.
#[derive(Debug, Clone, Default, PartialEq, Eq)]
pub struct HostTarget {
    pub name: String,
    pub addr: String,
    pub port: u16,
    /// `None` is no pin, which a session refuses.
    pub fp_hex: Option<String>,
    pub mac: Vec<String>,
    pub id: Option<String>,
    /// Port of the management interface, where it is known.
    pub mgmt_port: Option<u16>,
}

impl View for HostTarget {
    type V = HostTargetState;

    open spec fn view(&self) -> HostTargetState {
        HostTargetState {
            name: self.name@,
            addr: self.addr@,
            port: self.port,
            fp_hex: opt_view(self.fp_hex),
            mac: strings_of(self.mac@),
            id: opt_view(self.id),
            mgmt_port: self.mgmt_port,
        }
    }
}

/// The target a saved host is.
pub open spec fn target_of(h: KnownHostState) -> HostTargetState {
    HostTargetState {
        name: h.name,
        addr: h.addr,
        port: h.port,
        fp_hex: if h.fp_hex.len() == 0 {
            None
        } else {
            Some(h.fp_hex)
        },
        mac: h.mac,
        id: h.id,
        mgmt_port: h.mgmt_port,
    }
}

impl HostTarget {
    /// The target a saved host is; one never pinned has no pin.
    pub fn of(h: &KnownHost) -> (t: HostTarget)
        ensures
            t@ == target_of(h@),
    {
        let fp_hex: Option<String> = if h.fp_hex.as_str().unicode_len() == 0 {
            None
        } else {
            Some(h.fp_hex.as_str().to_owned())
        };
        let t = HostTarget {
            name: h.name.as_str().to_owned(),
            addr: h.addr.as_str().to_owned(),
            port: h.port,
            fp_hex,
            mac: copy_strings(&h.mac),
            id: copy_opt(&h.id),
            mgmt_port: h.mgmt_port,
        };
        assert(t@ =~= target_of(h@));
        t
    }
}

/// A plan, as values.
#[verifier::ext_equal]
pub struct PlanState {
    pub host: HostTargetState,
    pub launch: Option<Seq<char>>,
    pub preset: Option<PresetState>,
    pub preset_override: Option<Seq<char>>,
    pub settings: SettingsState,
    pub wake: bool,
    pub connect_timeout_secs: Option<u64>,
    pub tofu: bool,
    pub clipboard: bool,
}

/// One session, every policy question already answered.
#[derive(Debug, Clone, PartialEq)]
pub struct ConnectPlan {
    pub host: HostTarget,
    pub launch: Option<String>,
    pub preset: Option<StreamPreset>,
    /// A one-off choice handed on to the session: a preset, or nothing at all for the plain
    /// settings. `None` lets the session resolve the host's binding the same way.
    pub preset_override: Option<String>,
    pub settings: Settings,
    /// Send a wake packet first, and wait where the dial fails.
    pub wake: bool,
    pub connect_timeout_secs: Option<u64>,
    /// The pin came from an advert, not from the saved hosts.
    pub tofu: bool,
    pub clipboard: bool,
}

/// The view of an optional preset.
pub open spec fn opt_preset(p: Option<StreamPreset>) -> Option<PresetState> {
    match p {
        Some(p) => Some(p@),
        None => None,
    }
}

impl View for ConnectPlan {
    type V = PlanState;

    open spec fn view(&self) -> PlanState {
        PlanState {
            host: self.host@,
            launch: opt_view(self.launch),
            preset: opt_preset(self.preset),
            preset_override: opt_view(self.preset_override),
            settings: self.settings@,
            wake: self.wake,
            connect_timeout_secs: self.connect_timeout_secs,
            tofu: self.tofu,
            clipboard: self.clipboard,
        }
    }
}

/// The preset a launch on a host gets.
pub open spec fn chosen(
    h: KnownHostState,
    launch: Option<Seq<char>>,
    one_off: Option<Seq<char>>,
    presets: Seq<PresetState>,
) -> Option<PresetState> {
    let game = match launch {
        Some(g) => game_preset(h.game_presets, g),
        None => None,
    };
    match preset_for(presets, h.preset_id, game, one_off) {
        Some(i) => Some(presets[i]),
        None => None,
    }
}

/// The settings a preset makes of the user's.
pub open spec fn under(preset: Option<PresetState>, base: SettingsState) -> SettingsState {
    match preset {
        Some(p) => overlaid(p.overrides, base),
        None => base,
    }
}

/// The plan for a saved host.
pub open spec fn planned(
    h: KnownHostState,
    launch: Option<Seq<char>>,
    one_off: Option<Seq<char>>,
    presets: Seq<PresetState>,
    base: SettingsState,
) -> PlanState {
    let preset = chosen(h, launch, one_off, presets);
    let settings = under(preset, base);
    PlanState {
        host: target_of(h),
        launch,
        preset,
        preset_override: one_off,
        settings,
        wake: settings.auto_wake && h.mac.len() > 0,
        connect_timeout_secs: None,
        tofu: false,
        clipboard: h.clipboard_sync,
    }
}

/// An owned copy of an optional string slice.
pub fn own(s: Option<&str>) -> (r: Option<String>)
    ensures
        opt_view(r) == opt_chars(s),
{
    match s {
        Some(t) => Some(t.to_owned()),
        None => None,
    }
}

/// An optional string, borrowed.
pub fn lend(s: &Option<String>) -> (r: Option<&str>)
    ensures
        opt_chars(r) == opt_view(*s),
{
    match s {
        Some(t) => Some(t.as_str()),
        None => None,
    }
}

/// The target a caller holds, with the plan of the record it means.
pub open spec fn planned_target(
    target: HostTargetState,
    hosts: Seq<KnownHostState>,
    launch: Option<Seq<char>>,
    one_off: Option<Seq<char>>,
    presets: Seq<PresetState>,
    base: SettingsState,
) -> PlanState {
    let stored = match record_of(hosts, target.fp_hex, target.addr, target.port) {
        Some(i) => hosts[i],
        None => unsaved(),
    };
    let plan = planned(stored, launch, one_off, presets, base);
    PlanState {
        host: target,
        wake: plan.settings.auto_wake && target.mac.len() > 0,
        ..plan
    }
}

/// What a session needs, as values.
#[verifier::ext_equal]
pub struct SpecState {
    pub settings: SettingsState,
    pub clipboard: bool,
    pub preset: Option<Seq<char>>,
    pub preset_id: Option<Seq<char>>,
}

/// What a session needs, resolved by whoever starts it.
#[derive(Debug, Clone, PartialEq)]
pub struct ResolvedSpec {
    pub settings: Settings,
    pub clipboard: bool,
    /// The preset's name, for the overlay.
    pub preset: Option<String>,
    /// The preset's id, for the host.
    pub preset_id: Option<String>,
}

impl View for ResolvedSpec {
    type V = SpecState;

    open spec fn view(&self) -> SpecState {
        SpecState {
            settings: self.settings@,
            clipboard: self.clipboard,
            preset: opt_view(self.preset),
            preset_id: opt_view(self.preset_id),
        }
    }
}

/// The arguments an optional value adds.
pub open spec fn flag_with(flag: Seq<char>, value: Option<Seq<char>>) -> Seq<Seq<char>> {
    match value {
        Some(v) => seq![flag, v],
        None => Seq::empty(),
    }
}

/// The arguments a plan starts a session with.
pub open spec fn argv(p: PlanState) -> Seq<Seq<char>> {
    seq!["--connect"@, p.host.addr + ":"@ + decimal(p.host.port as nat)] + flag_with(
        "--fp"@,
        p.host.fp_hex,
    ) + flag_with("--launch"@, p.launch) + flag_with("--preset"@, p.preset_override) + flag_with(
        "--connect-timeout"@,
        (match p.connect_timeout_secs {
            Some(s) => Some(decimal(s as nat)),
            None => None,
        }),
    ) + (if p.settings.fullscreen_on_stream {
        seq!["--fullscreen"@]
    } else {
        Seq::<Seq<char>>::empty()
    })
}

/// A flag and its value, where there is one.
pub fn push_flag(args: &mut Vec<String>, flag: &str, value: Option<&str>)
    ensures
        strings_of(final(args)@) == strings_of(old(args)@) + flag_with(flag@, opt_chars(value)),
{
    let ghost start = strings_of(args@);
    match value {
        Some(v) => {
            args.push(flag.to_owned());
            args.push(v.to_owned());
            assert(strings_of(args@) =~= start.push(flag@).push(v@));
            assert(strings_of(args@) =~= start + seq![flag@, v@]);
        },
        None => {
            assert(strings_of(args@) =~= start + Seq::<Seq<char>>::empty());
        },
    }
}

impl ConnectPlan {
    /// The plan for a saved host, from the presets and settings at hand. Nothing is read
    /// anywhere else.
    pub fn resolve(
        host: &KnownHost,
        launch: Option<&str>,
        one_off_preset: Option<&str>,
        catalog: &PresetsFile,
        base: &Settings,
    ) -> (p: ConnectPlan)
        ensures
            p@ == planned(
                host@,
                opt_chars(launch),
                opt_chars(one_off_preset),
                presets_of(catalog.presets@),
                base@,
            ),
            p.host.addr@ == host.addr@,
            p.host.port == host.port,
            opt_view(p.launch) == opt_chars(launch),
            opt_view(p.preset_override) == opt_chars(one_off_preset),
            p.wake == (base.auto_wake && host.mac@.len() > 0),
            p.clipboard == host.clipboard_sync,
            p.connect_timeout_secs is None,
            !p.tofu,
    {
        reveal(crate::settings::over);
        let game: Option<String> = match launch {
            Some(g) => host.preset_for_game(g),
            None => None,
        };
        let index: Option<usize> = resolve_preset(
            catalog,
            lend(&host.preset_id),
            lend(&game),
            one_off_preset,
        );
        let preset: Option<StreamPreset> = match index {
            Some(i) => Some(catalog.presets[i].copy()),
            None => None,
        };
        let settings: Settings = match &preset {
            Some(p) => p.overrides.apply(base),
            None => base.copy(),
        };
        let wake: bool = settings.auto_wake && host.mac.len() > 0;
        let ghost want = chosen(
            host@,
            opt_chars(launch),
            opt_chars(one_off_preset),
            presets_of(catalog.presets@),
        );
        assert(opt_preset(preset) == want);
        assert(settings@ == under(want, base@));
        let p = ConnectPlan {
            host: HostTarget::of(host),
            launch: own(launch),
            preset,
            preset_override: own(one_off_preset),
            settings,
            wake,
            connect_timeout_secs: None,
            tofu: false,
            clipboard: host.clipboard_sync,
        };
        assert(p@ =~= planned(
            host@,
            opt_chars(launch),
            opt_chars(one_off_preset),
            presets_of(catalog.presets@),
            base@,
        ));
        p
    }

    /// The plan for a saved host, as a click on its card asks for it.
    pub fn for_host(
        host: &KnownHost,
        launch: Option<&str>,
        one_off_preset: Option<&str>,
        catalog: &PresetsFile,
        base: &Settings,
    ) -> (p: ConnectPlan)
        ensures
            p@ == planned(
                host@,
                opt_chars(launch),
                opt_chars(one_off_preset),
                presets_of(catalog.presets@),
                base@,
            ),
            p.host.addr@ == host.addr@,
            p.host.port == host.port,
            opt_view(p.launch) == opt_chars(launch),
            opt_view(p.preset_override) == opt_chars(one_off_preset),
            p.wake == (base.auto_wake && host.mac@.len() > 0),
            p.clipboard == host.clipboard_sync,
            p.connect_timeout_secs is None,
            !p.tofu,
    {
        Self::resolve(host, launch, one_off_preset, catalog, base)
    }

    /// The plan for a target the caller holds. Settings, preset and clipboard come from the
    /// record it means, where there is one; the target itself stays the caller's, and waking
    /// follows its own addresses.
    pub fn for_target(
        host: HostTarget,
        launch: Option<String>,
        one_off_preset: Option<String>,
        known: &KnownHosts,
        catalog: &PresetsFile,
        base: &Settings,
    ) -> (p: ConnectPlan)
        ensures
            p@ == planned_target(
                host@,
                hosts_of(known.hosts@),
                opt_view(launch),
                opt_view(one_off_preset),
                presets_of(catalog.presets@),
                base@,
            ),
            p.host@ == host@,
            opt_view(p.launch) == opt_view(launch),
            opt_view(p.preset_override) == opt_view(one_off_preset),
            p.wake == (base.auto_wake && host.mac@.len() > 0),
            p.connect_timeout_secs is None,
            !p.tofu,
    {
        reveal(crate::settings::over);
        let index: Option<usize> = known.resolve(
            lend(&host.fp_hex),
            host.addr.as_str(),
            host.port,
        );
        let blank: KnownHost = KnownHost::blank();
        let stored: &KnownHost = match index {
            Some(i) => &known.hosts[i],
            None => &blank,
        };
        let mut plan: ConnectPlan = ConnectPlan::resolve(
            stored,
            lend(&launch),
            lend(&one_off_preset),
            catalog,
            base,
        );
        let ghost drawn = plan@;
        let ghost target = host@;
        plan.wake = plan.settings.auto_wake && host.mac.len() > 0;
        plan.host = host;
        assert(plan@ =~= (PlanState {
            host: target,
            wake: drawn.settings.auto_wake && target.mac.len() > 0,
            ..drawn
        }));
        plan
    }

    /// What the session needs, so that it reads no store of its own.
    pub fn spec(&self, clipboard: bool) -> (s: ResolvedSpec)
        ensures
            s@ == (SpecState {
                settings: self@.settings,
                clipboard,
                preset: match self@.preset {
                    Some(p) => Some(p.name),
                    None => None,
                },
                preset_id: match self@.preset {
                    Some(p) => Some(p.id),
                    None => None,
                },
            }),
    {
        let (preset, preset_id): (Option<String>, Option<String>) = match &self.preset {
            Some(p) => (Some(p.name.as_str().to_owned()), Some(p.id.as_str().to_owned())),
            None => (None, None),
        };
        ResolvedSpec { settings: self.settings.copy(), clipboard, preset, preset_id }
    }

    /// The arguments a session is started with. Only a one-off preset rides along: a binding
    /// is resolved by the session the same way.
    pub fn session_args(&self) -> (r: Vec<String>)
        ensures
            strings_of(r@) == argv(self@),
    {
        let mut args: Vec<String> = Vec::new();
        let port: String = to_decimal(self.host.port as u64);
        let at: String = join(join(self.host.addr.as_str(), ":").as_str(), port.as_str());
        args.push("--connect".to_owned());
        args.push(at);
        assert(strings_of(args@) =~= seq![
            "--connect"@,
            self@.host.addr + ":"@ + decimal(self@.host.port as nat),
        ]);
        push_flag(&mut args, "--fp", lend(&self.host.fp_hex));
        push_flag(&mut args, "--launch", lend(&self.launch));
        push_flag(&mut args, "--preset", lend(&self.preset_override));
        let secs: Option<String> = match self.connect_timeout_secs {
            Some(s) => Some(to_decimal(s)),
            None => None,
        };
        push_flag(&mut args, "--connect-timeout", lend(&secs));
        let ghost before = strings_of(args@);
        if self.settings.fullscreen_on_stream {
            args.push("--fullscreen".to_owned());
            assert(strings_of(args@) =~= before + seq!["--fullscreen"@]);
        }
        assert(strings_of(args@) =~= argv(self@));
        args
    }
}

} // verus!
