//! A session run as a process of its own: what it is started with, what comes of its output,
//! and what is tidied up behind it.

use vstd::prelude::*;
use crate::contract::{
    event_for, line_of, opt_event, parse_session_line, EventState, SessionEvent,
};
use crate::plan::{argv, flag_with, push_flag, strings_of, ConnectPlan};
use crate::settings::opt_chars;
use crate::text::join;
use crate::video::Platform;

verus! {

/// The name of the session's program.
pub open spec fn program(platform: Platform) -> Seq<char> {
    match platform {
        Platform::Windows => "punktfunk-session.exe"@,
        Platform::Linux => "punktfunk-session"@,
    }
}

/// The name of the session's program.
pub fn session_bin(platform: Platform) -> (r: &'static str)
    ensures
        r@ == program(platform),
{
    match platform {
        Platform::Windows => "punktfunk-session.exe",
        Platform::Linux => "punktfunk-session",
    }
}

/// Where a session's file goes, given the user's runtime directory: `None` is the temporary
/// directory, which is the user's own elsewhere.
pub fn spec_dir<'a>(platform: Platform, runtime_dir: Option<&'a str>) -> (r: Option<&'a str>)
    ensures
        r == (if platform == Platform::Linux && runtime_dir is Some && runtime_dir->Some_0@.len()
            > 0 {
            runtime_dir
        } else {
            None
        }),
{
    match (platform, runtime_dir) {
        (Platform::Linux, Some(dir)) => if dir.unicode_len() > 0 {
            Some(dir)
        } else {
            None
        },
        _ => None,
    }
}

/// What a session is started with: the plan's arguments and the file that carries the rest,
/// where it could be written. Without it the session resolves the same values for itself.
pub fn child_args(plan: &ConnectPlan, spec_path: Option<&str>) -> (r: Vec<String>)
    ensures
        strings_of(r@) == argv(plan@) + flag_with("--resolved-spec"@, opt_chars(spec_path)),
{
    let mut args: Vec<String> = plan.session_args();
    push_flag(&mut args, "--resolved-spec", spec_path);
    args
}

/// What is told of a session that could not be started.
pub fn start_failed(platform: Platform, error: &str) -> (r: String)
    ensures
        r@ == "couldn't start "@ + program(platform) + ": "@ + error@,
{
    let head: String = join("couldn't start ", session_bin(platform));
    join(join(head.as_str(), ": ").as_str(), error)
}

/// What follows an attempt to start a session.
#[derive(Debug, Clone, Copy, PartialEq, Eq, Structural)]
pub enum StartStep {
    /// Read its output; `kill` it first where it was cancelled before it ran.
    Read { kill: bool },
    /// It did not start. Nobody else removes its file.
    Failed { remove_spec: bool },
}

/// What follows a line of a session.
#[derive(Debug, PartialEq, Eq)]
pub struct LineStep {
    /// The window size to keep.
    pub keep_size: Option<(u32, u32)>,
    /// What is told on.
    pub event: Option<SessionEvent>,
}

/// What follows the end of a session's output.
#[derive(Debug, PartialEq, Eq)]
pub struct ExitStep {
    pub remove_spec: bool,
    pub event: SessionEvent,
}

/// A session's process as its parent sees it.
#[derive(Debug, Clone, Copy, PartialEq, Eq, Structural)]
pub struct Supervisor {
    pub cancelled: bool,
    /// The process runs.
    pub running: bool,
    /// Its file was written and is still there.
    pub spec: bool,
}

impl Supervisor {
    /// The state and the step after an attempt to start the process.
    pub open spec fn started(self, ok: bool) -> (Supervisor, StartStep) {
        if ok {
            (
                Supervisor { running: true, ..self },
                StartStep::Read { kill: self.cancelled },
            )
        } else {
            (
                Supervisor { spec: false, ..self },
                StartStep::Failed { remove_spec: self.spec },
            )
        }
    }

    /// The state after a cancel, and whether there is a process to kill.
    pub open spec fn killed(self) -> (Supervisor, bool) {
        (Supervisor { cancelled: true, ..self }, self.running)
    }

    /// A session about to be started; `cancelled` may already be so.
    pub fn new(cancelled: bool, spec: bool) -> (s: Supervisor)
        ensures
            s == (Supervisor { cancelled, running: false, spec }),
    {
        Supervisor { cancelled, running: false, spec }
    }

    /// The process was started, or not.
    pub fn on_start(&mut self, ok: bool) -> (r: StartStep)
        ensures
            (*final(self), r) == old(self).started(ok),
    {
        if ok {
            self.running = true;
            StartStep::Read { kill: self.cancelled }
        } else {
            let remove_spec: bool = self.spec;
            self.spec = false;
            StartStep::Failed { remove_spec }
        }
    }

    /// The user cancels. Answers whether there is a process to kill; one that starts later is
    /// killed then.
    pub fn kill(&mut self) -> (r: bool)
        ensures
            (*final(self), r) == old(self).killed(),
    {
        self.cancelled = true;
        self.running
    }

    /// Whether the session was cancelled.
    pub fn is_cancelled(&self) -> (r: bool)
        ensures
            r == self.cancelled,
    {
        self.cancelled
    }

    /// The session wrote a line. A window size is kept by the parent before it is told on, so
    /// that only one process ever writes the settings.
    pub fn on_line(&self, line: &str) -> (r: LineStep)
        ensures
            opt_event(r.event) == event_for(line_of(line@)),
            r.keep_size == (match event_for(line_of(line@)) {
                Some(EventState::Window { w, h }) => Some((w, h)),
                _ => None,
            }),
    {
        let event: Option<SessionEvent> = parse_session_line(line);
        let keep_size: Option<(u32, u32)> = match &event {
            Some(SessionEvent::Window { w, h }) => Some((*w, *h)),
            _ => None,
        };
        LineStep { keep_size, event }
    }

    /// Whether reading goes on after an error: a line that is no text is skipped, anything
    /// else is the end of the output.
    pub fn reads_on(invalid_data: bool) -> (r: bool)
        ensures
            r == invalid_data,
    {
        invalid_data
    }

    /// The session's output ended. Its file is removed and its exit told; minus one is a
    /// process that died on a signal.
    pub fn on_exit(&mut self, code: Option<i32>) -> (r: ExitStep)
        ensures
            r.remove_spec == old(self).spec,
            r.event@ == EventState::Exited(
                match code {
                    Some(c) => c,
                    None => (-1) as i32,
                },
            ),
            *final(self) == (Supervisor { running: false, spec: false, ..*old(self) }),
    {
        let remove_spec: bool = self.spec;
        self.running = false;
        self.spec = false;
        let code: i32 = match code {
            Some(c) => c,
            None => -1,
        };
        ExitStep { remove_spec, event: SessionEvent::Exited(code) }
    }
}

/// A cancel reaches the process whether it comes before the process runs or after.
pub proof fn a_cancel_reaches_the_process(s: Supervisor)
    ensures
        s.killed().0.started(true).1 == (StartStep::Read { kill: true }),
        s.started(true).0.killed().1,
        s.killed().0.cancelled,
        s.killed().0.started(true).0.cancelled,
{
}

/// A file that was written is removed once: by a start that fails, or at the end.
pub proof fn a_file_is_removed_once(s: Supervisor)
    requires
        s.spec,
    ensures
        s.started(false).1 == (StartStep::Failed { remove_spec: true }),
        !s.started(false).0.spec,
        s.started(true).0.spec,
        s.killed().0.spec,
{
}

} // verus!
