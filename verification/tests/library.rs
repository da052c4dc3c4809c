//! The host's catalog: pictures, addresses, errors and what runs.

use pf_client_core::library::{
    base_url, classify, classify_transport, is_host_picture, library_url, status_url, store_label,
    ArtStep, ArtWalk, Artwork, GameEntry, LibraryError, RunningCache, RunningGame, Transport,
    DESKTOP_ID, RUNNING_TTL_NS,
};

#[test]
fn poster_candidates_order_and_resolution() {
    let art = Artwork {
        portrait: Some("/api/v1/library/art/steam:570/portrait".into()),
        hero: Some("https://cdn.example/hero.jpg".into()),
        header: Some("/api/v1/library/art/steam:570/header".into()),
    };
    assert_eq!(
        art.poster_candidates("https://192.168.1.42:47990"),
        vec![
            "https://192.168.1.42:47990/api/v1/library/art/steam:570/portrait",
            "https://192.168.1.42:47990/api/v1/library/art/steam:570/header",
            "https://cdn.example/hero.jpg",
        ]
    );
    assert!(Artwork::default()
        .poster_candidates("https://h:47990")
        .is_empty());
}

#[test]
fn ipv6_base_url_is_bracketed() {
    assert_eq!(base_url("fe80::1", 47990), "https://[fe80::1]:47990");
    assert_eq!(base_url("192.168.1.42", 1234), "https://192.168.1.42:1234");
}

fn running(json: &str) -> Vec<RunningGame> {
    let status: serde_json::Value = serde_json::from_str(json).expect("the status decodes");
    let text = |g: &serde_json::Value, key: &str| {
        g.get(key).and_then(|v| v.as_str()).map(str::to_string)
    };
    let games = status.get("games").and_then(|g| g.as_array()).unwrap();
    games
        .iter()
        .map(|g| RunningGame {
            app_id: text(g, "app_id"),
            title: text(g, "title").unwrap_or_default(),
            state: text(g, "state").unwrap_or_default(),
            awaiting_window: false,
        })
        .collect()
}

#[test]
fn running_games_decode_and_untracked_counts_as_up() {
    // Host `/status` shape: extra operator fields present; typed command omits `app_id`.
    let json = r#"{"games":[
        {"app_id":"steam:570","title":"Dota 2","state":"running","plane":"native",
         "client":"iPad","session_id":7},
        {"app_id":"steam:1091500","title":"Cyberpunk","state":"untracked","plane":"native",
         "client":"Deck"},
        {"app_id":"custom:x","title":"Waiting","state":"grace","plane":"native",
         "client":"TV","grace_remaining_s":252},
        {"app_id":"steam:4","title":"Gone","state":"exited","plane":"native","client":"TV"},
        {"title":"A typed command","state":"running","plane":"gamestream","client":"TV"}
    ],"video_streaming":false}"#;
    let games = running(json);
    assert_eq!(games.len(), 5);
    assert!(games[1].is_up(), "untracked is up");
    assert!(
        games[2].is_up(),
        "grace is up — resuming matters most here"
    );
    assert!(!games[3].is_up(), "only a confirmed exit is down");
    assert!(
        games[4].app_id.is_none(),
        "a typed command has no catalog id"
    );
}

#[test]
fn an_unknown_state_from_a_newer_host_still_decodes_and_reads_as_up() {
    let one =
        running(r#"{"games":[{"app_id":"steam:1","title":"T","state":"hibernating"}]}"#).remove(0);
    assert!(one.is_up());
}

fn entry(icon: Option<&str>, role: Option<&str>) -> GameEntry {
    GameEntry {
        id: "steam:570".into(),
        store: "steam".into(),
        title: "Dota 2".into(),
        art: Artwork::default(),
        platform: None,
        developer: None,
        release_year: None,
        genres: Vec::new(),
        role: role.map(str::to_string),
        icon: icon.map(str::to_string),
        stats: None,
    }
}

#[test]
fn a_mark_is_a_plain_name_or_nothing() {
    let token = |icon: &str| entry(Some(icon), None).icon_token().map(str::to_string);
    assert_eq!(token("steam"), Some("steam".into()));
    assert_eq!(token("gog-2"), Some("gog-2".into()));
    for bad in ["", "Steam", "2gog", "-x", "../etc", "a b", "ä", &"a".repeat(33)] {
        assert_eq!(token(bad), None, "{bad:?}");
    }
    assert_eq!(token(&"a".repeat(32)).map(|t| t.len()), Some(32));
    assert_eq!(entry(None, None).icon_token(), None);
    assert!(entry(None, Some("launcher")).is_launcher());
    assert!(!entry(None, Some("game")).is_launcher());
    assert!(!entry(None, None).is_launcher());
    assert!(DESKTOP_ID.starts_with('\0'));
}

#[test]
fn every_store_has_a_label() {
    for (store, label) in [
        ("steam", "Steam"),
        ("custom", "Custom"),
        ("heroic", "Heroic"),
        ("lutris", "Lutris"),
        ("epic", "Epic"),
        ("gog", "GOG"),
        ("xbox", "Xbox"),
        ("itch", "Game"),
        ("Steam", "Game"),
    ] {
        assert_eq!(store_label(store), label);
    }
}

#[test]
fn requests_go_to_the_management_interface() {
    assert_eq!(library_url("h", 47990), "https://h:47990/api/v1/library");
    assert_eq!(status_url("::1", 1), "https://[::1]:1/api/v1/status");
    assert!(is_host_picture("https://h:1", "https://h:1/a.png"));
    assert!(!is_host_picture("https://h:1", "https://cdn/a.png"));
    assert!(!is_host_picture("https://h:1", "https://h"));
}

#[test]
fn an_http_error_is_told_by_what_it_is() {
    assert_eq!(classify(ureq::Error::StatusCode(401)), LibraryError::NotPaired);
    assert_eq!(classify(ureq::Error::StatusCode(403)), LibraryError::NotPaired);
    assert_eq!(classify(ureq::Error::StatusCode(500)), LibraryError::Http(500));
    assert_eq!(
        classify(ureq::Error::Rustls(rustls::Error::InvalidCertificate(
            rustls::CertificateError::ApplicationVerificationFailure
        ))),
        LibraryError::PinMismatch
    );
    let expired = ureq::Error::Rustls(rustls::Error::InvalidCertificate(
        rustls::CertificateError::Expired,
    ));
    assert!(matches!(classify(expired), LibraryError::Unreachable(_)));
    let why = ureq::Error::HostNotFound.to_string();
    assert!(!why.is_empty());
    assert_eq!(
        classify(ureq::Error::HostNotFound),
        LibraryError::Unreachable(why)
    );
    assert_eq!(
        classify_transport(Transport::Other("x".into())),
        LibraryError::Unreachable("x".into())
    );
}

#[test]
fn an_error_reads_as_a_phrase() {
    assert_eq!(
        LibraryError::NotPaired.message(),
        "the host doesn't recognize this device — pair with it first"
    );
    assert_eq!(
        LibraryError::PinMismatch.message(),
        "the host's certificate isn't the one you paired with — pair again"
    );
    assert_eq!(LibraryError::Http(502).message(), "the host refused it (502)");
    assert_eq!(
        LibraryError::Unreachable("timed out".into()).message(),
        "couldn't reach the host — timed out"
    );
}

fn game(title: &str, state: &str) -> RunningGame {
    RunningGame {
        app_id: None,
        title: title.into(),
        state: state.into(),
        awaiting_window: false,
    }
}

#[test]
fn a_host_is_asked_once_per_interval_and_what_it_said_stands() {
    let mut c = RunningCache::new();
    assert!(!c.refresh_due("", 5), "a host without a fingerprint is not asked");
    assert!(c.refresh_due("aa", 5));
    assert!(!c.refresh_due("aa", 6), "one that hangs is not asked again");
    assert!(c.refresh_due("bb", 6));
    c.store(
        "aa",
        vec![game("Gone", "exited"), game("", "running"), game("Dota 2", "grace")],
        10,
    );
    assert_eq!(c.now_playing("aa"), "Dota 2");
    assert_eq!(c.now_playing("bb"), "");
    assert_eq!(c.now_playing("cc"), "");
    assert!(!c.refresh_due("aa", 10 + RUNNING_TTL_NS - 1));
    assert!(c.refresh_due("aa", 10 + RUNNING_TTL_NS));
    assert_eq!(c.now_playing("aa"), "Dota 2", "until it answers again");
    c.invalidate_running("aa");
    assert_eq!(c.now_playing("aa"), "");
    assert!(c.refresh_due("aa", 10 + RUNNING_TTL_NS));
    assert!(!c.refresh_due("bb", 7), "the others are left alone");
}

#[test]
fn a_picture_is_looked_for_on_the_disk_before_the_network() {
    let mut w = ArtWalk::new(2);
    assert_eq!(w.step(false, false), ArtStep::AskDisk(0));
    assert_eq!(w.step(false, false), ArtStep::AskDisk(1));
    assert_eq!(w.step(false, false), ArtStep::AskNetwork(0));
    assert_eq!(w.step(false, false), ArtStep::AskNetwork(1));
    assert_eq!(w.step(false, true), ArtStep::Deliver { store: true });
    let mut w = ArtWalk::new(1);
    w.step(false, false);
    assert_eq!(w.step(false, true), ArtStep::Deliver { store: false });
    let mut w = ArtWalk::new(1);
    w.step(false, false);
    assert_eq!(w.step(true, false), ArtStep::Stop, "nobody waits: no fetch");
    let mut w = ArtWalk::new(1);
    w.step(false, false);
    w.step(false, false);
    assert_eq!(w.step(false, false), ArtStep::GiveUp);
    assert_eq!(ArtWalk::new(0).step(false, false), ArtStep::GiveUp);
}
