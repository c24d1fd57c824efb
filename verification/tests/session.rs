use mutui::tags::{fmt_tag, parse_tag_input};
use mutui::ui::model::{KeyCode, SortKey};
use mutui::ui::uploads::{urls_to_run, UploadStage, UploadsAction};
use mutui::ui::notices::{
    added_message, play_start, playing_message, playlist_name, queued_count_message, queued_track_message,
    sort_message, tag_search_message,
};
use mutui::api::Library;
use mutui::ui::session::{
    listing_outcome, reload_step, reloaded_message, startup_next, Listing, ReloadStep, Settings, Source, StartupFetch,
    StartupSync, DEFAULT_SERVER_URL,
};
use mutui::api::Playlist;

fn settings(url: &str, user: &str, token: &str, lib: &str) -> Settings {
    Settings {
        server_url: url.to_string(),
        username: user.to_string(),
        token: token.to_string(),
        selected_library: lib.to_string(),
    }
}

#[test]
fn command_line_overrides_settings() {
    let s = settings("http://a", "u", "t", "Main").with_overrides(Some("http://b".to_string()), None, Some("t2".to_string()), None);
    assert_eq!((s.server_url.as_str(), s.username.as_str(), s.token.as_str(), s.selected_library.as_str()), ("http://b", "u", "t2", "Main"));
    let s = settings("", "", "", "").with_overrides(None, None, None, Some("Pods".to_string()));
    assert_eq!(s.server_url, "http://127.0.0.1:7700");
    assert_eq!(DEFAULT_SERVER_URL, "http://127.0.0.1:7700");
    assert_eq!(s.selected_library, "Pods");
    let s = settings("http://a", "", "", "").with_overrides(Some(String::new()), None, None, None);
    assert_eq!(s.server_url, DEFAULT_SERVER_URL);
}

#[test]
fn settings_credentials_and_changes() {
    assert_eq!(settings("x", "u", "t", "").client_token(), Some("t".to_string()));
    assert_eq!(settings("x", "", "t", "").client_token(), None);
    let a = settings("x", "u", "t", "L1");
    let b = settings("x", "u", "t", "L2");
    assert!(!a.differs_from(&b));
    let c = settings("y", "u", "t", "L1");
    assert!(c.differs_from(&a));
    let d = a.clone_exact();
    assert!(!d.differs_from(&a));
    assert_eq!(d.selected_library, "L1");
}

#[test]
fn playlist_notices() {
    assert_eq!(playlist_name("  Road trip "), Some("Road trip".to_string()));
    assert_eq!(playlist_name("   "), None);
    assert_eq!(play_start(0, 3), None);
    assert_eq!(play_start(5, 3), Some(3));
    assert_eq!(play_start(5, 9), Some(4));
    assert_eq!(playing_message("Mix", 2, 3), "playing Mix from #3 (3 tracks)");
    assert_eq!(added_message(1, 1, "Mix", None), "added to Mix");
    assert_eq!(added_message(3, 3, "Mix", None), "added 3 tracks to Mix");
    assert_eq!(added_message(2, 3, "Mix", Some("boom")), "added 2/3 to Mix; boom");
    assert_eq!(tag_search_message("rock", 4), "tag search 'rock': 4 hits");
    assert_eq!(sort_message(SortKey::Duration), "sort: duration");
    assert_eq!(queued_count_message(2), "queued 2 tracks");
    assert_eq!(queued_track_message("A", "B"), "queued: A — B");
}

#[test]
fn shown_tags_read_back() {
    for (ns, val) in [("genre", "rock"), ("", "loud"), ("mood", "very calm"), ("x", "a:b")] {
        let shown = fmt_tag(ns, val);
        assert_eq!(parse_tag_input(&shown), Some((ns.to_string(), val.to_string())), "{shown}");
    }
}

#[test]
fn unicode_white_space_is_trimmed() {
    assert_eq!(parse_tag_input("\u{3000}genre:\u{a0}jazz\u{2009}"), Some(("genre".to_string(), "jazz".to_string())));
}

#[test]
fn uploads_tab_flow() {
    use_uploads();
}

fn use_uploads() {
    let scripts = vec![
        mutui::api::DownloaderInfo { name: "yt".to_string() },
        mutui::api::DownloaderInfo { name: "sc".to_string() },
    ];
    let key = |code| mutui::ui::model::Key { code, modifiers: 0 };
    let mut st = UploadStage::List { index: 0 };
    assert!(!st.is_typing());
    assert!(matches!(st.handle_key(key(KeyCode::Down), &scripts), UploadsAction::Nothing));
    assert!(matches!(st, UploadStage::List { index: 1 }));
    assert!(matches!(st.handle_key(key(KeyCode::Down), &scripts), UploadsAction::Nothing));
    assert!(matches!(st, UploadStage::List { index: 1 }));
    st.handle_key(key(KeyCode::Enter), &scripts);
    assert!(matches!(st, UploadStage::Input { ref script, ref buf } if script == "sc" && buf.is_empty()));
    assert!(st.is_typing());
    st.handle_key(key(KeyCode::Char('u')), &scripts);
    match st.handle_key(key(KeyCode::Enter), &scripts) {
        UploadsAction::Run { script, raw } => assert_eq!((script.as_str(), raw.as_str()), ("sc", "u")),
        _ => panic!("expected a run"),
    }
    st.handle_key(key(KeyCode::Esc), &scripts);
    assert!(matches!(st, UploadStage::List { index: 0 }));
    assert!(matches!(st.handle_key(key(KeyCode::Char('r')), &scripts), UploadsAction::Refresh));
    let mut job = UploadStage::Job;
    job.handle_key(key(KeyCode::Char('x')), &scripts);
    assert!(matches!(job, UploadStage::Job));
    job.handle_key(key(KeyCode::Esc), &scripts);
    assert!(matches!(job, UploadStage::List { index: 0 }));
    assert_eq!(urls_to_run("a, b"), Ok(vec!["a".to_string(), "b".to_string()]));
    assert_eq!(urls_to_run(" , "), Err("enter at least one URL".to_string()));
}

fn library(id: i64, name: &str) -> Library {
    Library { id, name: name.to_string(), path: format!("/music/{name}") }
}

#[test]
fn reload_after_saving_settings() {
    let libs = vec![library(1, "Main"), library(2, "Pods")];
    assert!(matches!(reload_step(&Ok(libs.clone()), "Pods"), ReloadStep::Open { index: 1 }));
    assert!(matches!(reload_step(&Ok(libs), "Gone"), ReloadStep::Open { index: 0 }));
    match reload_step(&Ok(Vec::new()), "Main") {
        ReloadStep::NoLibrary { message } => assert_eq!(message, "saved — server has no libraries"),
        _ => panic!("expected no library"),
    }
    match reload_step(&Err("connection refused".to_string()), "Main") {
        ReloadStep::Failed { message } => assert_eq!(message, "saved, but libraries fetch failed: connection refused"),
        _ => panic!("expected a failure"),
    }
    assert_eq!(reloaded_message(&Ok(42)), "saved & reloaded (42 tracks)");
    assert_eq!(reloaded_message(&Ok(0)), "saved & reloaded (0 tracks)");
    assert_eq!(reloaded_message(&Err("timeout".to_string())), "saved, but connect failed: timeout");
}

#[test]
fn listings_fall_back_on_the_cache() {
    let (src, msg) = listing_outcome(Listing::LibraryTracks, "Main", &Ok(12), 0);
    assert_eq!(src, Source::Server);
    assert_eq!(msg.as_deref(), Some("library: Main (12 tracks)"));
    let (src, msg) = listing_outcome(Listing::LibraryTracks, "Main", &Err("refused".to_string()), 3);
    assert_eq!(src, Source::Cache);
    assert_eq!(msg.as_deref(), Some("offline — showing cached Main"));
    let (src, msg) = listing_outcome(Listing::LibraryTracks, "Main", &Err("refused".to_string()), 0);
    assert_eq!(src, Source::Unavailable);
    assert_eq!(msg.as_deref(), Some("library Main: refused"));
    let (src, msg) = listing_outcome(Listing::Playlists, "", &Ok(4), 9);
    assert_eq!(src, Source::Server);
    assert_eq!(msg, None);
    let (src, msg) = listing_outcome(Listing::Playlists, "", &Err("down".to_string()), 2);
    assert_eq!(src, Source::Cache);
    assert_eq!(msg.as_deref(), Some("offline — showing cached playlists"));
    let (src, msg) = listing_outcome(Listing::Playlists, "", &Err("down".to_string()), 0);
    assert_eq!(src, Source::Unavailable);
    assert_eq!(msg.as_deref(), Some("playlists: down"));
    let (src, msg) = listing_outcome(Listing::PlaylistTracks, "", &Err("down".to_string()), 1);
    assert_eq!(src, Source::Cache);
    assert_eq!(msg.as_deref(), Some("offline — showing cached playlist tracks"));
    let (src, msg) = listing_outcome(Listing::PlaylistTracks, "", &Err("down".to_string()), 0);
    assert_eq!(src, Source::Unavailable);
    assert_eq!(msg.as_deref(), Some("playlist tracks: down"));
    let (_, msg) = listing_outcome(Listing::PlaylistTracks, "", &Ok(0), 0);
    assert_eq!(msg, None);
}

fn pl(id: i64) -> Playlist {
    Playlist { id, name: format!("P{id}"), description: None, track_count: 0, created_at: 0, updated_at: 0 }
}

#[test]
fn startup_requests_follow_each_other() {
    let libs = vec![library(1, "Main"), library(2, "Pods")];
    assert!(matches!(startup_next(&StartupSync::Libraries(Ok(libs.clone())), "Pods"), StartupFetch::Tracks(2)));
    assert!(matches!(startup_next(&StartupSync::Libraries(Ok(libs)), "None"), StartupFetch::Tracks(1)));
    assert!(matches!(startup_next(&StartupSync::Libraries(Ok(Vec::new())), "Main"), StartupFetch::Done));
    assert!(matches!(startup_next(&StartupSync::Libraries(Err("down".to_string())), "Main"), StartupFetch::Done));
    let tracks = StartupSync::Tracks { library_id: 2, result: Err("down".to_string()) };
    assert!(matches!(startup_next(&tracks, "Main"), StartupFetch::Playlists(2)));
    let pls = StartupSync::Playlists { library_id: 2, result: Ok(vec![pl(8), pl(9)]) };
    assert!(matches!(
        startup_next(&pls, "Main"),
        StartupFetch::PlaylistTracks { library_id: 2, playlist_id: 8 }
    ));
    let none = StartupSync::Playlists { library_id: 2, result: Ok(Vec::new()) };
    assert!(matches!(startup_next(&none, "Main"), StartupFetch::Done));
    let entries = StartupSync::PlaylistTracks { library_id: 2, playlist_id: 8, result: Ok(Vec::new()) };
    assert!(matches!(startup_next(&entries, "Main"), StartupFetch::Done));
}
