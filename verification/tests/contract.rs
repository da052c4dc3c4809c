//! The lines a session writes, and the file it is handed.

use pf_client_core::contract::{
    event_of, fresh_spec_name, parse_session_line, persist_window_size, spec_file_name, LineFacts,
    SessionEvent,
};
use pf_client_core::settings::Settings;

fn silent() -> LineFacts {
    LineFacts {
        ready: None,
        error: None,
        trust_rejected: None,
        ended: None,
        w: None,
        h: None,
    }
}

#[test]
fn the_first_thing_a_line_tells_is_its_event() {
    assert_eq!(
        event_of(LineFacts {
            ready: Some(true),
            error: Some("x".into()),
            ..silent()
        }),
        Some(SessionEvent::Ready)
    );
    assert_eq!(
        event_of(LineFacts {
            ready: Some(false),
            error: Some("x".into()),
            ended: Some("y".into()),
            ..silent()
        }),
        Some(SessionEvent::Error {
            msg: "x".into(),
            trust_rejected: false
        })
    );
    assert_eq!(
        event_of(LineFacts {
            ended: Some("y".into()),
            w: Some(1),
            h: Some(2),
            ..silent()
        }),
        Some(SessionEvent::Ended("y".into()))
    );
    assert_eq!(
        event_of(LineFacts {
            w: Some(1 << 32 | 640),
            h: Some(480),
            ..silent()
        }),
        Some(SessionEvent::Window { w: 640, h: 480 })
    );
    assert_eq!(event_of(LineFacts { h: Some(2), ..silent() }), None);
    assert_eq!(event_of(silent()), None);
}

#[test]
fn members_of_the_wrong_type_are_no_members() {
    assert_eq!(parse_session_line(r#"{"ready":"true"}"#), None);
    assert_eq!(parse_session_line(r#"{"ready":false}"#), None);
    assert_eq!(parse_session_line(r#"{"error":7}"#), None);
    assert_eq!(parse_session_line(r#"{"window":{"w":-1,"h":2}}"#), None);
    assert_eq!(parse_session_line(r#"{"window":[1,2]}"#), None);
    assert_eq!(parse_session_line(r#"["ready"]"#), None);
    assert_eq!(parse_session_line(r#"{"ready":true"#), None);
    assert_eq!(
        parse_session_line(r#" {"error":"a\nb","trust_rejected":"yes"} "#),
        Some(SessionEvent::Error {
            msg: "a\nb".into(),
            trust_rejected: false
        })
    );
}

#[test]
fn a_window_size_is_kept_only_when_it_changed() {
    let mut s = Settings::default();
    assert!(persist_window_size(&mut s, 1600, 900));
    assert_eq!((s.last_window_w, s.last_window_h), (1600, 900));
    assert!(!persist_window_size(&mut s, 1600, 900));
    assert!(persist_window_size(&mut s, 1600, 901));
}

#[test]
fn a_files_name_spells_its_bytes() {
    let mut bytes = [0u8; 16];
    bytes[0] = 0xef;
    bytes[15] = 0x1a;
    assert_eq!(
        spec_file_name(bytes),
        "punktfunk-spec-1a0000000000000000000000000000ef.json"
    );
    assert_eq!(
        spec_file_name(bytes),
        format!("punktfunk-spec-{:032x}.json", u128::from_le_bytes(bytes))
    );
}

#[test]
fn two_sessions_get_two_files() {
    let (a, b) = (fresh_spec_name(), fresh_spec_name());
    assert_ne!(a, b);
    assert_eq!(a.len(), "punktfunk-spec-.json".len() + 32);
    assert!(a.starts_with("punktfunk-spec-") && a.ends_with(".json"));
    let mut other = [7u8; 16];
    let one = spec_file_name(other);
    other[9] = 8;
    assert_ne!(one, spec_file_name(other));
}
