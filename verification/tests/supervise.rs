//! A session run as a process of its own.

use pf_client_core::contract::SessionEvent;
use pf_client_core::plan::{ConnectPlan, KnownHost};
use pf_client_core::settings::{PresetsFile, Settings};
use pf_client_core::supervise::{
    child_args, session_bin, spec_dir, start_failed, StartStep, Supervisor,
};
use pf_client_core::video::Platform;

fn plan() -> ConnectPlan {
    let host = KnownHost {
        addr: "10.0.0.2".into(),
        port: 9777,
        ..KnownHost::default()
    };
    ConnectPlan::resolve(&host, None, None, &PresetsFile::default(), &Settings::default())
}

#[test]
fn a_session_is_handed_its_file_where_there_is_one() {
    let plain = child_args(&plan(), None);
    assert_eq!(plain, plan().session_args());
    let with = child_args(&plan(), Some("/run/spec.json"));
    assert_eq!(with[..plain.len()], plain[..]);
    assert_eq!(with[plain.len()..], ["--resolved-spec", "/run/spec.json"]);
}

#[test]
fn a_file_goes_to_the_users_own_directory() {
    assert_eq!(spec_dir(Platform::Linux, Some("/run/user/1")), Some("/run/user/1"));
    assert_eq!(spec_dir(Platform::Linux, Some("")), None);
    assert_eq!(spec_dir(Platform::Linux, None), None);
    assert_eq!(spec_dir(Platform::Windows, Some("/run/user/1")), None);
    assert_eq!(session_bin(Platform::Windows), "punktfunk-session.exe");
    assert_eq!(
        start_failed(Platform::Linux, "not found"),
        "couldn't start punktfunk-session: not found"
    );
}

#[test]
fn a_cancel_is_never_lost() {
    let mut early = Supervisor::new(false, true);
    assert!(!early.kill(), "nothing runs yet");
    assert_eq!(early.on_start(true), StartStep::Read { kill: true });
    let mut late = Supervisor::new(false, true);
    assert_eq!(late.on_start(true), StartStep::Read { kill: false });
    assert!(late.kill() && late.is_cancelled());
    let mut before = Supervisor::new(true, false);
    assert_eq!(before.on_start(true), StartStep::Read { kill: true });
}

#[test]
fn a_file_is_tidied_up_once() {
    let mut s = Supervisor::new(false, true);
    assert_eq!(s.on_start(false), StartStep::Failed { remove_spec: true });
    assert_eq!(s.on_start(false), StartStep::Failed { remove_spec: false });
    let mut s = Supervisor::new(false, true);
    s.on_start(true);
    let exit = s.on_exit(Some(3));
    assert!(exit.remove_spec && !s.running);
    assert_eq!(exit.event, SessionEvent::Exited(3));
    let again = s.on_exit(None);
    assert!(!again.remove_spec);
    assert_eq!(again.event, SessionEvent::Exited(-1));
}

#[test]
fn a_window_is_kept_and_told_on() {
    let s = Supervisor::new(false, false);
    let step = s.on_line(r#"{"window":{"w":1280,"h":800}}"#);
    assert_eq!(step.keep_size, Some((1280, 800)));
    assert_eq!(step.event, Some(SessionEvent::Window { w: 1280, h: 800 }));
    let step = s.on_line(r#"{"ended":"done"}"#);
    assert_eq!(step.keep_size, None);
    assert_eq!(step.event, Some(SessionEvent::Ended("done".into())));
    assert_eq!(s.on_line("stats: 60").event, None);
    assert!(Supervisor::reads_on(true) && !Supervisor::reads_on(false));
}
