//! What a link turns into, the wake-and-wait step, and how a connect is presented.

use vstd::prelude::*;
use crate::plan::{
    hosts_of, lend, planned, ConnectPlan, HostTarget, KnownHost, KnownHostState, KnownHosts,
    PlanState, WAKE_RESEND_SECS, WAKE_TIMEOUT_SECS,
};
use crate::settings::{
    a_found_preset_is_there, meant, presets_of, PresetState, PresetsFile, Resolution, Settings,
    SettingsState,
};
use crate::text::{copy_opt, join, opt_view, same};

verus! {

/// What a link asks for.
#[derive(Debug, Clone, Copy, PartialEq, Eq, Structural)]
pub enum Route {
    Connect,
    Wake,
    Open,
}

/// A link, as values.
#[verifier::ext_equal]
pub struct LinkState {
    pub route: Route,
    pub host_ref: Seq<char>,
    pub preset: Option<Seq<char>>,
    pub launch: Option<Seq<char>>,
    pub fp: Option<Seq<char>>,
    pub name: Option<Seq<char>>,
}

/// A link as it was read. Nothing in it is trusted.
#[derive(Debug)]
pub struct DeepLink {
    pub route: Route,
    /// What the link calls the host.
    pub host_ref: String,
    pub preset: Option<String>,
    pub launch: Option<String>,
    /// The fingerprint the link expects.
    pub fp: Option<String>,
    /// The label the link claims.
    pub name: Option<String>,
}

impl View for DeepLink {
    type V = LinkState;

    open spec fn view(&self) -> LinkState {
        LinkState {
            route: self.route,
            host_ref: self.host_ref@,
            preset: opt_view(self.preset),
            launch: opt_view(self.launch),
            fp: opt_view(self.fp),
            name: opt_view(self.name),
        }
    }
}

/// Whether a link's fingerprint contradicts the one saved for a host.
pub open spec fn contradicts(fp: Option<Seq<char>>, h: KnownHostState) -> bool {
    fp is Some && h.fp_hex.len() > 0 && fp->Some_0 != h.fp_hex
}

impl DeepLink {
    /// Whether this link's fingerprint contradicts the one saved for a host.
    pub fn pin_conflict(&self, host: &KnownHost) -> (r: bool)
        ensures
            r == contradicts(self@.fp, host@),
    {
        match &self.fp {
            Some(fp) => host.fp_hex.as_str().unicode_len() > 0 && !same(
                fp.as_str(),
                host.fp_hex.as_str(),
            ),
            None => false,
        }
    }
}

/// Which host a link means, as values.
pub enum ResolutionState {
    Known(int),
    Confirm(int),
    Unknown { addr: Seq<char>, port: u16, name: Option<Seq<char>>, fp: Option<Seq<char>> },
    Ambiguous,
    Unresolvable,
}

/// Which host a link means.
#[derive(Debug)]
pub enum HostResolution {
    /// The saved host with the link's stable id.
    Known(usize),
    /// A saved host the link named by something anyone could guess.
    Confirm(usize),
    /// An address nobody saved.
    Unknown { addr: String, port: u16, name: Option<String>, fp: Option<String> },
    Ambiguous,
    Unresolvable,
}

impl View for HostResolution {
    type V = ResolutionState;

    open spec fn view(&self) -> ResolutionState {
        match *self {
            HostResolution::Known(i) => ResolutionState::Known(i as int),
            HostResolution::Confirm(i) => ResolutionState::Confirm(i as int),
            HostResolution::Unknown { addr, port, name, fp } => ResolutionState::Unknown {
                addr: addr@,
                port,
                name: opt_view(name),
                fp: opt_view(fp),
            },
            HostResolution::Ambiguous => ResolutionState::Ambiguous,
            HostResolution::Unresolvable => ResolutionState::Unresolvable,
        }
    }
}

/// A host that has to be confirmed, as values.
#[verifier::ext_equal]
pub struct UnknownState {
    pub addr: Seq<char>,
    pub port: u16,
    pub name: Option<Seq<char>>,
    pub fp: Option<Seq<char>>,
    pub launch: Option<Seq<char>>,
    pub preset: Option<Seq<char>>,
}

/// A host that has to be confirmed and trusted first.
#[derive(Debug, Clone, PartialEq, Eq)]
pub struct UnknownHost {
    pub addr: String,
    pub port: u16,
    /// Shown as claimed, never trusted.
    pub name: Option<String>,
    /// Lets the first connect be verified rather than blind.
    pub fp: Option<String>,
    pub launch: Option<String>,
    pub preset: Option<String>,
}

impl View for UnknownHost {
    type V = UnknownState;

    open spec fn view(&self) -> UnknownState {
        UnknownState {
            addr: self.addr@,
            port: self.port,
            name: opt_view(self.name),
            fp: opt_view(self.fp),
            launch: opt_view(self.launch),
            preset: opt_view(self.preset),
        }
    }
}

/// What a link turned into, as values.
pub enum OutcomeState {
    Connect(PlanState),
    ConfirmConnect(PlanState),
    ConfirmUnknown(UnknownState),
    Unsupported(Route),
}

/// What a link turned into. An unknown host is a question, never a connect; a route nobody
/// implements is a notice.
#[derive(Debug, Clone, PartialEq)]
pub enum PlanOutcome {
    Connect(Box<ConnectPlan>),
    /// The host is saved and pinned, but the link named it by something anyone could guess.
    ConfirmConnect(Box<ConnectPlan>),
    /// No usable record: the user decides, and trust is established first.
    ConfirmUnknown(Box<UnknownHost>),
    Unsupported(Route),
}

impl View for PlanOutcome {
    type V = OutcomeState;

    open spec fn view(&self) -> OutcomeState {
        match *self {
            PlanOutcome::Connect(p) => OutcomeState::Connect(p@),
            PlanOutcome::ConfirmConnect(p) => OutcomeState::ConfirmConnect(p@),
            PlanOutcome::ConfirmUnknown(u) => OutcomeState::ConfirmUnknown(u@),
            PlanOutcome::Unsupported(r) => OutcomeState::Unsupported(r),
        }
    }
}

/// Why a link cannot become a plan, as values.
pub enum PlanErrorState {
    AmbiguousHost(Seq<char>),
    UnresolvableHost(Seq<char>),
    PinConflict(Seq<char>),
    UnknownPreset(Seq<char>),
    AmbiguousPreset(Seq<char>),
}

/// Why a link cannot become a plan. Each is a notice, never a lesser connect.
#[derive(Debug, Clone, PartialEq, Eq)]
pub enum PlanError {
    AmbiguousHost(String),
    UnresolvableHost(String),
    PinConflict { host: String },
    UnknownPreset(String),
    AmbiguousPreset(String),
}

impl View for PlanError {
    type V = PlanErrorState;

    open spec fn view(&self) -> PlanErrorState {
        match *self {
            PlanError::AmbiguousHost(r) => PlanErrorState::AmbiguousHost(r@),
            PlanError::UnresolvableHost(r) => PlanErrorState::UnresolvableHost(r@),
            PlanError::PinConflict { host } => PlanErrorState::PinConflict(host@),
            PlanError::UnknownPreset(p) => PlanErrorState::UnknownPreset(p@),
            PlanError::AmbiguousPreset(p) => PlanErrorState::AmbiguousPreset(p@),
        }
    }
}

/// The notice a failed link shows.
pub open spec fn notice(e: PlanErrorState) -> Seq<char> {
    match e {
        PlanErrorState::AmbiguousHost(r) => "More than one saved host is called \""@ + r
            + "\" — open Punktfunk and pick one."@,
        PlanErrorState::UnresolvableHost(r) => "No saved host matches \""@ + r + "\"."@,
        PlanErrorState::PinConflict(host) =>
            "That link's fingerprint doesn't match the one saved for "@ + host
            + " — it's out of date, or it isn't that host. Nothing was connected."@,
        PlanErrorState::UnknownPreset(p) => "That link asks for a settings preset called \""@ + p
            + "\", which doesn't exist here."@,
        PlanErrorState::AmbiguousPreset(p) => "More than one settings preset is called \""@ + p
            + "\" — rename one, or use its id in the link."@,
    }
}

fn around(before: &str, middle: &str, after: &str) -> (r: String)
    ensures
        r@ == before@ + middle@ + after@,
{
    join(join(before, middle).as_str(), after)
}

impl PlanError {
    /// The notice. It names the reference that failed.
    pub fn message(&self) -> (r: String)
        ensures
            r@ == notice(self@),
    {
        match self {
            PlanError::AmbiguousHost(r) => around(
                "More than one saved host is called \"",
                r.as_str(),
                "\" — open Punktfunk and pick one.",
            ),
            PlanError::UnresolvableHost(r) => around("No saved host matches \"", r.as_str(), "\"."),
            PlanError::PinConflict { host } => around(
                "That link's fingerprint doesn't match the one saved for ",
                host.as_str(),
                " — it's out of date, or it isn't that host. Nothing was connected.",
            ),
            PlanError::UnknownPreset(p) => around(
                "That link asks for a settings preset called \"",
                p.as_str(),
                "\", which doesn't exist here.",
            ),
            PlanError::AmbiguousPreset(p) => around(
                "More than one settings preset is called \"",
                p.as_str(),
                "\" — rename one, or use its id in the link.",
            ),
        }
    }
}

/// The plan of a saved host a link means, under a name: its own, else the one the link claims,
/// else its address.
pub open spec fn named_plan(plan: PlanState, link: LinkState) -> PlanState {
    if plan.host.name.len() > 0 {
        plan
    } else {
        PlanState {
            host: crate::plan::HostTargetState {
                name: match link.name {
                    Some(n) => n,
                    None => plan.host.addr,
                },
                ..plan.host
            },
            ..plan
        }
    }
}

/// What a saved host comes to.
pub open spec fn linked_host(
    link: LinkState,
    confirm: bool,
    h: KnownHostState,
    presets: Seq<PresetState>,
    base: SettingsState,
) -> Result<OutcomeState, PlanErrorState> {
    if contradicts(link.fp, h) {
        Err(PlanErrorState::PinConflict(h.name))
    } else {
        let plan = planned(h, link.launch, link.preset, presets, base);
        if plan.host.fp_hex is None {
            Ok(
                OutcomeState::ConfirmUnknown(
                    UnknownState {
                        addr: plan.host.addr,
                        port: plan.host.port,
                        name: Some(plan.host.name),
                        fp: link.fp,
                        launch: link.launch,
                        preset: link.preset,
                    },
                ),
            )
        } else if confirm {
            Ok(OutcomeState::ConfirmConnect(named_plan(plan, link)))
        } else {
            Ok(OutcomeState::Connect(named_plan(plan, link)))
        }
    }
}

/// What a link turns into.
pub open spec fn linked(
    link: LinkState,
    resolution: ResolutionState,
    hosts: Seq<KnownHostState>,
    presets: Seq<PresetState>,
    base: SettingsState,
) -> Result<OutcomeState, PlanErrorState> {
    if link.route != Route::Connect {
        Ok(OutcomeState::Unsupported(link.route))
    } else if link.preset is Some && meant(presets, link.preset->Some_0).1 == Resolution::Ambiguous {
        Err(PlanErrorState::AmbiguousPreset(link.preset->Some_0))
    } else if link.preset is Some && meant(presets, link.preset->Some_0).1 == Resolution::Missing {
        Err(PlanErrorState::UnknownPreset(link.preset->Some_0))
    } else {
        match resolution {
            ResolutionState::Known(i) => linked_host(link, false, hosts[i], presets, base),
            ResolutionState::Confirm(i) => linked_host(link, true, hosts[i], presets, base),
            ResolutionState::Unknown { addr, port, name, fp } => Ok(
                OutcomeState::ConfirmUnknown(
                    UnknownState {
                        addr,
                        port,
                        name,
                        fp,
                        launch: link.launch,
                        preset: link.preset,
                    },
                ),
            ),
            ResolutionState::Ambiguous => Err(PlanErrorState::AmbiguousHost(link.host_ref)),
            ResolutionState::Unresolvable => Err(PlanErrorState::UnresolvableHost(link.host_ref)),
        }
    }
}

/// The view of a link's answer.
pub open spec fn answer_of(r: Result<PlanOutcome, PlanError>) -> Result<OutcomeState, PlanErrorState> {
    match r {
        Ok(o) => Ok(o@),
        Err(e) => Err(e@),
    }
}

fn plan_saved(
    link: &DeepLink,
    confirm: bool,
    host: &KnownHost,
    catalog: &PresetsFile,
    base: &Settings,
) -> (r: Result<PlanOutcome, PlanError>)
    ensures
        answer_of(r) == linked_host(link@, confirm, host@, presets_of(catalog.presets@), base@),
{
    if link.pin_conflict(host) {
        return Err(PlanError::PinConflict { host: host.name.as_str().to_owned() });
    }
    let mut plan: ConnectPlan = ConnectPlan::resolve(
        host,
        lend(&link.launch),
        lend(&link.preset),
        catalog,
        base,
    );
    let ghost drawn = plan@;
    if plan.host.fp_hex.is_none() {
        let u = UnknownHost {
            addr: plan.host.addr,
            port: plan.host.port,
            name: Some(plan.host.name),
            fp: copy_opt(&link.fp),
            launch: copy_opt(&link.launch),
            preset: copy_opt(&link.preset),
        };
        return Ok(PlanOutcome::ConfirmUnknown(Box::new(u)));
    }
    if plan.host.name.as_str().unicode_len() == 0 {
        plan.host.name = match &link.name {
            Some(n) => n.as_str().to_owned(),
            None => plan.host.addr.as_str().to_owned(),
        };
    }
    assert(plan@ =~= named_plan(drawn, link@));
    if confirm {
        Ok(PlanOutcome::ConfirmConnect(Box::new(plan)))
    } else {
        Ok(PlanOutcome::Connect(Box::new(plan)))
    }
}

/// What a link turns into, against this device's hosts, presets and settings. `resolution` is
/// the host it means among `known`. A preset the link cannot have is refused first: it must
/// not stream under the wrong settings.
pub fn plan_from_link(
    link: &DeepLink,
    resolution: HostResolution,
    known: &KnownHosts,
    catalog: &PresetsFile,
    base: &Settings,
) -> (r: Result<PlanOutcome, PlanError>)
    requires
        match resolution {
            HostResolution::Known(i) => i < known.hosts@.len(),
            HostResolution::Confirm(i) => i < known.hosts@.len(),
            _ => true,
        },
    ensures
        answer_of(r) == linked(
            link@,
            resolution@,
            hosts_of(known.hosts@),
            presets_of(catalog.presets@),
            base@,
        ),
{
    match link.route {
        Route::Connect => {},
        other => {
            return Ok(PlanOutcome::Unsupported(other));
        },
    }
    match &link.preset {
        Some(reference) => {
            let (_, found) = catalog.resolve(reference.as_str());
            match found {
                Resolution::Found => {},
                Resolution::Ambiguous => {
                    return Err(PlanError::AmbiguousPreset(reference.as_str().to_owned()));
                },
                Resolution::Missing => {
                    return Err(PlanError::UnknownPreset(reference.as_str().to_owned()));
                },
            }
        },
        None => {},
    }
    match resolution {
        HostResolution::Known(i) => plan_saved(link, false, &known.hosts[i], catalog, base),
        HostResolution::Confirm(i) => plan_saved(link, true, &known.hosts[i], catalog, base),
        HostResolution::Unknown { addr, port, name, fp } => {
            let u = UnknownHost {
                addr,
                port,
                name,
                fp,
                launch: copy_opt(&link.launch),
                preset: copy_opt(&link.preset),
            };
            Ok(PlanOutcome::ConfirmUnknown(Box::new(u)))
        },
        HostResolution::Ambiguous => Err(
            PlanError::AmbiguousHost(link.host_ref.as_str().to_owned()),
        ),
        HostResolution::Unresolvable => Err(
            PlanError::UnresolvableHost(link.host_ref.as_str().to_owned()),
        ),
    }
}

/// Only a stable id connects without asking; a host named by anything else is asked about, and
/// a host without a pin is never dialled at all.
pub proof fn only_a_stable_id_connects(
    link: LinkState,
    resolution: ResolutionState,
    hosts: Seq<KnownHostState>,
    presets: Seq<PresetState>,
    base: SettingsState,
)
    ensures
        linked(link, resolution, hosts, presets, base) matches Ok(OutcomeState::Connect(p)) ==> {
            &&& resolution is Known
            &&& p.host.fp_hex is Some
        },
        linked(link, resolution, hosts, presets, base) matches Ok(OutcomeState::ConfirmConnect(p))
            ==> {
            &&& resolution is Confirm
            &&& p.host.fp_hex is Some
        },
{
}

/// A link that names a preset it cannot have is refused whatever host it means, and never
/// connects under other settings.
pub proof fn a_link_never_drops_its_preset(
    link: LinkState,
    resolution: ResolutionState,
    hosts: Seq<KnownHostState>,
    presets: Seq<PresetState>,
    base: SettingsState,
)
    requires
        link.route == Route::Connect,
        link.preset is Some,
        meant(presets, link.preset->Some_0).0 is None,
    ensures
        linked(link, resolution, hosts, presets, base) is Err,
{
    a_found_preset_is_there(presets, link.preset->Some_0);
}

/// A fingerprint that contradicts the saved one is refused, however the link named the host.
pub proof fn a_contradicted_pin_is_refused(
    link: LinkState,
    resolution: ResolutionState,
    hosts: Seq<KnownHostState>,
    presets: Seq<PresetState>,
    base: SettingsState,
    i: int,
)
    requires
        link.route == Route::Connect,
        resolution == ResolutionState::Known(i) || resolution == ResolutionState::Confirm(i),
        contradicts(link.fp, hosts[i]),
    ensures
        linked(link, resolution, hosts, presets, base) is Err,
{
}

/// How a wait for a sleeping host ended.
#[derive(Debug, Clone, Copy, PartialEq, Eq, Structural)]
pub enum WakeOutcome {
    Online,
    /// The budget ran out. The wait is parked, not failed.
    TimedOut,
}

/// One second of the wait.
#[derive(Debug, Clone, Copy, PartialEq, Eq, Structural)]
pub struct WakeTick {
    pub send_packet: bool,
    pub seconds: u64,
    /// `None` keeps waiting.
    pub outcome: Option<WakeOutcome>,
}

/// Wake-and-wait, one second at a time.
#[derive(Debug, Clone, Copy, PartialEq, Eq, Structural)]
pub struct WakeWait {
    pub elapsed_secs: u64,
}

impl Default for WakeWait {
    fn default() -> (w: WakeWait)
        ensures
            w.elapsed_secs == 0,
    {
        WakeWait { elapsed_secs: 0 }
    }
}

impl WakeWait {
    /// The wait is within its budget.
    pub open spec fn wf(self) -> bool {
        self.elapsed_secs <= WAKE_TIMEOUT_SECS
    }

    /// What a second of the wait comes to.
    pub open spec fn ticked(self, online: bool) -> (WakeWait, WakeTick) {
        let outcome = if online {
            Some(WakeOutcome::Online)
        } else if self.elapsed_secs >= WAKE_TIMEOUT_SECS {
            Some(WakeOutcome::TimedOut)
        } else {
            None
        };
        (
            WakeWait {
                elapsed_secs: if outcome is None {
                    (self.elapsed_secs + 1) as u64
                } else {
                    self.elapsed_secs
                },
            },
            WakeTick {
                send_packet: self.elapsed_secs % WAKE_RESEND_SECS == 0,
                seconds: self.elapsed_secs,
                outcome,
            },
        )
    }

    /// A wait that has not begun.
    pub fn new() -> (w: WakeWait)
        ensures
            w.wf(),
            w.elapsed_secs == 0,
    {
        WakeWait { elapsed_secs: 0 }
    }

    /// One second of the wait. The packet goes before presence is looked at; presence counts
    /// before the budget, so a host that appears on the last second still wins.
    pub fn tick(&mut self, online: bool) -> (t: WakeTick)
        ensures
            (*final(self), t) == old(self).ticked(online),
            old(self).wf() ==> final(self).wf(),
    {
        let send_packet: bool = self.elapsed_secs % WAKE_RESEND_SECS == 0;
        let seconds: u64 = self.elapsed_secs;
        let outcome: Option<WakeOutcome> = if online {
            Some(WakeOutcome::Online)
        } else if self.elapsed_secs >= WAKE_TIMEOUT_SECS {
            Some(WakeOutcome::TimedOut)
        } else {
            self.elapsed_secs = self.elapsed_secs + 1;
            None
        };
        WakeTick { send_packet, seconds, outcome }
    }

    /// Wait again from the start.
    pub fn restart(&mut self)
        ensures
            final(self).elapsed_secs == 0,
            final(self).wf(),
    {
        self.elapsed_secs = 0;
    }

    /// Seconds waited.
    pub fn seconds(&self) -> (r: u64)
        ensures
            r == self.elapsed_secs,
    {
        self.elapsed_secs
    }
}

/// A wait after `n` seconds without the host.
pub open spec fn waited(n: nat) -> WakeWait
    decreases n,
{
    if n == 0 {
        WakeWait { elapsed_secs: 0 }
    } else {
        waited((n - 1) as nat).ticked(false).0
    }
}

/// The cadence of a wait: a packet at the start and every six seconds, ninety seconds of
/// waiting, then it is parked. A host that appears wins at any time, even then.
pub proof fn the_wake_cadence(n: nat)
    ensures
        waited(n).elapsed_secs == (if n < WAKE_TIMEOUT_SECS {
            n
        } else {
            WAKE_TIMEOUT_SECS as nat
        }),
        n <= WAKE_TIMEOUT_SECS ==> waited(n).ticked(false).1.send_packet == (n % 6 == 0),
        waited(n).ticked(false).1.outcome == (if n < WAKE_TIMEOUT_SECS {
            None
        } else {
            Some(WakeOutcome::TimedOut)
        }),
        waited(n).ticked(true).1.outcome == Some(WakeOutcome::Online),
    decreases n,
{
    if n > 0 {
        the_wake_cadence((n - 1) as nat);
    }
}

/// How a connect finished.
#[derive(Debug, Clone, PartialEq, Eq)]
pub enum ConnectOutcome {
    /// The stream ended; a text is the host's reason.
    Ended(Option<String>),
    ConnectFailed(String),
    /// No pin, or one that no longer matches. Never retried by itself.
    TrustRejected(String),
    RendererFailed(String),
    Cancelled,
}

/// How a front end presents a connect. Nothing here decides anything.
pub trait UiDelegate {
    /// A host that is not trusted yet. Refusing is always safe.
    fn confirm_unknown_host(&mut self, host: &UnknownHost) -> bool;

    fn wake_progress(&mut self, host: &HostTarget, tick: WakeTick);

    fn report(&mut self, outcome: &ConnectOutcome);
}

} // verus!
