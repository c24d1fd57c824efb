use mutui::api::{Library, Playlist, PlaylistTrack, Track};
use mutui::db::DownloadStatus;
use mutui::ui::input::{Command, InputState, Mode};
use mutui::ui::layout::{centered_rect, Area};
use mutui::ui::model::{Key, KeyCode, PlaylistsFocus, RepeatMode, SettingsField, SortKey, Tab, MOD_CONTROL, MOD_SHIFT};
use mutui::ui::order::cmp_tracks;
use mutui::ui::screens::{
    library_row, sort_row, tags_title, detail_rows, download_label, download_status_text, downloads_title, help_lines, now_playing_label,
    picker_row, prompt_line, setting_text, tracks_title, HelpLine, Tone, UploadPane,
};
use mutui::ui::select::{clamp_selection, move_by, move_playlist_entry, picker_down, picker_up, queue_move, step_down, step_up};
use mutui::ui::session::{
    credentials, keep_library, library_name, library_picker_index, pick_library, reselect_playlist,
    startup_step, StartupSync, SyncStep,
};
use mutui::ui::songs::SongList;
use mutui::ui::tabkeys::{
    downloads_key, nav, queue_key, selection_after_removal, DownloadsAction, PlaylistsAction, QueueAction,
    SettingsAction, SongsAction,
};
use mutui::ui::transfers::DownloadState;
use std::cmp::Ordering;

fn key(code: KeyCode) -> Key {
    Key { code, modifiers: 0 }
}

fn ch(c: char) -> Key {
    key(KeyCode::Char(c))
}

fn state() -> InputState {
    InputState {
        mode: Mode::Normal,
        tab: Tab::Songs,
        show_help: false,
        show_tags: false,
        show_details: false,
        repeat: RepeatMode::Off,
    }
}

fn track(id: i64, artist: &str, title: &str) -> Track {
    Track {
        id,
        hash: None,
        original_filename: None,
        title: Some(title.to_string()),
        album: None,
        artist: Some(artist.to_string()),
        album_artist: None,
        track_no: None,
        disc_no: None,
        duration_ms: None,
        year: None,
        bitrate: None,
        sample_rate: None,
        channels: None,
        added_at: 0,
    }
}

fn lib(id: i64, name: &str) -> Library {
    Library { id, name: name.to_string(), path: String::new() }
}

fn playlist(id: i64, name: &str) -> Playlist {
    Playlist { id, name: name.to_string(), description: None, track_count: 2, created_at: 0, updated_at: 0 }
}

#[test]
fn tabs_and_labels() {
    assert_eq!(Tab::from_digit('1'), Some(Tab::Songs));
    assert_eq!(Tab::from_digit('5'), Some(Tab::Uploads));
    assert_eq!(Tab::from_digit('6'), Some(Tab::Settings));
    assert_eq!(Tab::from_digit('7'), None);
    assert_eq!(Tab::from_digit('0'), None);
    let all = Tab::all();
    assert_eq!(all.len(), 6);
    for (i, t) in all.iter().enumerate() {
        let d = char::from(b'1' + i as u8);
        assert_eq!(Tab::from_digit(d), Some(*t));
    }
    assert_eq!(Tab::Downloads.label(), "Downloads");
}

#[test]
fn repeat_cycles_with_period_three() {
    let m = RepeatMode::Off;
    assert_eq!(m.cycle(), RepeatMode::All);
    assert_eq!(m.cycle().cycle(), RepeatMode::One);
    assert_eq!(m.cycle().cycle().cycle(), RepeatMode::Off);
    assert_eq!(RepeatMode::All.status_label(), "repeat all");
    assert_eq!(RepeatMode::One.label(), "↻¹");
    assert_eq!(RepeatMode::One.player_loops(), ("no", "inf"));
    assert_eq!(RepeatMode::All.player_loops(), ("inf", "no"));
}

#[test]
fn sort_keys_and_settings_fields() {
    let keys = SortKey::all();
    assert_eq!(keys.len(), 7);
    for (i, k) in keys.iter().enumerate() {
        assert_eq!(k.index(), i);
        assert_eq!(SortKey::at(i), Some(*k));
    }
    assert_eq!(SortKey::at(7), None);
    assert_eq!(SortKey::Year.label(), "Year (newest first)");
    assert_eq!(SortKey::AddedAt.short_label(), "added");
    assert_eq!(SettingsField::ServerUrl.next(), SettingsField::Username);
    assert_eq!(SettingsField::Library.next(), SettingsField::Library);
    assert_eq!(SettingsField::ServerUrl.prev(), SettingsField::ServerUrl);
    assert_eq!(SettingsField::Token.label(), "Token");
}

#[test]
fn selection_helpers() {
    assert_eq!(clamp_selection(Some(5), 3), Some(2));
    assert_eq!(clamp_selection(None, 3), Some(0));
    assert_eq!(clamp_selection(Some(1), 0), None);
    assert_eq!(clamp_selection(clamp_selection(Some(9), 4), 4), clamp_selection(Some(9), 4));
    assert_eq!(step_down(Some(1), 3), Some(2));
    assert_eq!(step_down(Some(2), 3), Some(2));
    assert_eq!(step_down(None, 3), Some(1));
    assert_eq!(step_up(Some(0), 3), Some(0));
    assert_eq!(step_up(None, 0), None);
    assert_eq!(picker_down(0, 3), 1);
    assert_eq!(picker_down(2, 3), 2);
    assert_eq!(picker_up(0), 0);
    assert_eq!(move_by(Some(3), -10, 8), (0, true));
    assert_eq!(move_by(Some(3), 10, 8), (7, true));
    assert_eq!(move_by(Some(7), 1, 8), (7, false));
    assert_eq!(queue_move(5, Some(1), 1), Some((1, 3, 2)));
    assert_eq!(queue_move(5, Some(1), -1), Some((1, 0, 0)));
    assert_eq!(queue_move(5, Some(4), 1), None);
    assert_eq!(queue_move(1, Some(0), 1), None);
}

#[test]
fn playlist_entry_down_then_up_restores() {
    let mk = |id: i64, pos: i64| PlaylistTrack {
        track_id: id,
        position: pos,
        added_at: 0,
        title: None,
        album: None,
        artist: None,
        album_artist: None,
        duration_ms: None,
    };
    let mut v = vec![mk(10, 0), mk(20, 1), mk(30, 2)];
    assert_eq!(move_playlist_entry(&mut v, 0, 1), Some(1));
    assert_eq!(v.iter().map(|t| t.track_id).collect::<Vec<_>>(), vec![20, 10, 30]);
    assert_eq!(v.iter().map(|t| t.position).collect::<Vec<_>>(), vec![0, 1, 2]);
    assert_eq!(move_playlist_entry(&mut v, 1, -1), Some(0));
    assert_eq!(v.iter().map(|t| t.track_id).collect::<Vec<_>>(), vec![10, 20, 30]);
    assert_eq!(move_playlist_entry(&mut v, 2, 1), None);
}

#[test]
fn songs_filter_sort_and_search() {
    let tracks = vec![
        track(1, "Zed", "Alpha"),
        track(2, "abba", "Waterloo"),
        track(3, "Beatles", "Help"),
        track(4, "abba", "Mamma Mia"),
    ];
    let mut l = SongList::new(tracks);
    // Default order: artist, then title, case-insensitive.
    assert_eq!(l.filtered(), &vec![3, 1, 2, 0]);
    assert_eq!(l.selected(), Some(0));
    l.apply_filter("ABBA");
    assert_eq!(l.filtered(), &vec![3, 1]);
    l.apply_filter("nothing");
    assert!(l.filtered().is_empty());
    assert_eq!(l.selected(), None);
    l.apply_filter("");
    assert_eq!(l.filtered().len(), 4);
    l.move_selection(2);
    assert_eq!(l.selected_track().map(|t| t.id), Some(3));
    l.apply_sort(SortKey::Title);
    assert_eq!(l.filtered(), &vec![0, 2, 3, 1]);
    // The selected track stays selected after sorting.
    assert_eq!(l.selected_track().map(|t| t.id), Some(3));
    assert_eq!(l.selected(), Some(1));
    let n = l.show_search_hits(&vec![4, 99, 1]);
    assert_eq!(n, 2);
    assert_eq!(l.filtered(), &vec![0, 3]);
}

#[test]
fn sorted_list_is_in_order() {
    let mut tracks = Vec::new();
    for i in 0..40 {
        let mut t = track(i, ["c", "a", "B"][(i % 3) as usize], &format!("t{}", (i * 7) % 11));
        t.year = if i % 5 == 0 { None } else { Some(1990 + (i % 9)) };
        t.duration_ms = if i % 4 == 0 { None } else { Some(1000 * ((i * 13) % 17)) };
        tracks.push(t);
    }
    let mut l = SongList::new(tracks.clone());
    for k in SortKey::all() {
        l.apply_sort(k);
        let f = l.filtered().clone();
        for w in f.windows(2) {
            assert_ne!(cmp_tracks(&tracks[w[0]], &tracks[w[1]], k), Ordering::Greater, "{k:?}");
        }
        let mut seen = f.clone();
        seen.sort();
        assert_eq!(seen, (0..40).collect::<Vec<usize>>());
    }
}

#[test]
fn year_sort_puts_newest_first_and_unknown_last() {
    let mut a = track(1, "x", "a");
    a.year = Some(1999);
    let mut b = track(2, "x", "b");
    b.year = Some(2020);
    let c = track(3, "x", "c");
    assert_eq!(cmp_tracks(&b, &a, SortKey::Year), Ordering::Less);
    assert_eq!(cmp_tracks(&a, &c, SortKey::Year), Ordering::Less);
    let mut d = track(4, "x", "d");
    d.duration_ms = Some(10);
    assert_eq!(cmp_tracks(&d, &c, SortKey::Duration), Ordering::Less);
}

#[test]
fn keys_in_prompts_are_text() {
    let mut s = state();
    s.mode = Mode::Filter(String::new());
    match s.handle_key(ch('q'), false, 0, &[]) {
        Command::ShowFiltered(q) => assert_eq!(q, "q"),
        _ => panic!("expected the filter to change"),
    }
    match s.handle_key(key(KeyCode::Backspace), false, 0, &[]) {
        Command::ShowFiltered(q) => assert_eq!(q, ""),
        _ => panic!("expected the filter to change"),
    }
    assert!(matches!(s.mode, Mode::Filter(ref b) if b.is_empty()));
    assert!(matches!(s.handle_key(key(KeyCode::Enter), false, 0, &[]), Command::Nothing));
    assert!(matches!(s.mode, Mode::Normal));
}

#[test]
fn esc_closes_prompts_and_pickers() {
    let mut s = state();
    s.mode = Mode::TagSearch("ro".to_string());
    match s.handle_key(key(KeyCode::Esc), false, 0, &[]) {
        Command::ShowFiltered(q) => assert_eq!(q, ""),
        _ => panic!("expected the filter to be cleared"),
    }
    assert!(matches!(s.mode, Mode::Normal));
    s.mode = Mode::PickLibrary { index: 1 };
    assert!(matches!(s.handle_key(key(KeyCode::Esc), false, 0, &[]), Command::Nothing));
    assert!(matches!(s.mode, Mode::Normal));
}

#[test]
fn prompts_commit_on_enter() {
    let mut s = state();
    s.mode = Mode::TagSearch("genre:rock".to_string());
    assert!(matches!(s.handle_key(key(KeyCode::Enter), false, 0, &[]), Command::TagSearch(ref q) if q == "genre:rock"));
    s.mode = Mode::EditSetting(SettingsField::Token, "t".to_string());
    assert!(matches!(s.handle_key(ch('2'), false, 0, &[]), Command::Nothing));
    assert!(matches!(s.handle_key(key(KeyCode::Enter), false, 0, &[]), Command::SetSetting(SettingsField::Token, ref v) if v == "t2"));
    s.mode = Mode::RenamePlaylist(4, "Mix".to_string());
    assert!(matches!(s.handle_key(key(KeyCode::Enter), false, 0, &[]), Command::RenamePlaylist(4, ref n) if n == "Mix"));
}

#[test]
fn pickers_move_and_choose() {
    let mut s = state();
    s.mode = Mode::PickLibrary { index: 0 };
    s.handle_key(ch('j'), false, 0, &[10, 20]);
    s.handle_key(ch('j'), false, 0, &[10, 20]);
    assert!(matches!(s.mode, Mode::PickLibrary { index: 1 }));
    assert!(matches!(s.handle_key(key(KeyCode::Enter), false, 0, &[10, 20]), Command::SwitchLibrary(20)));
    s.mode = Mode::PickLibrary { index: 0 };
    assert!(matches!(s.handle_key(key(KeyCode::Enter), false, 0, &[]), Command::Message(ref m) if m == "no libraries available"));
    s.mode = Mode::PickPlaylist { index: 0, track_ids: vec![7], containing: vec![] };
    assert!(matches!(s.handle_key(key(KeyCode::Enter), false, 0, &[]), Command::Message(ref m) if m == "no playlists — create one first (Playlists tab)"));
    s.mode = Mode::PickPlaylist { index: 0, track_ids: vec![7, 8], containing: vec![] };
    assert!(matches!(s.handle_key(key(KeyCode::Enter), false, 2, &[]), Command::AddToPlaylist { index: 0, ref track_ids } if track_ids == &vec![7, 8]));
    s.mode = Mode::SortPicker { index: 0 };
    s.handle_key(key(KeyCode::Up), false, 0, &[]);
    s.handle_key(key(KeyCode::Down), false, 0, &[]);
    assert!(matches!(s.handle_key(key(KeyCode::Enter), false, 0, &[]), Command::ApplySort(SortKey::Title)));
}

#[test]
fn global_keys() {
    let mut s = state();
    assert!(matches!(s.handle_key(ch('q'), false, 0, &[]), Command::Quit));
    assert!(matches!(s.handle_key(Key { code: KeyCode::Char('c'), modifiers: MOD_CONTROL }, false, 0, &[]), Command::Quit));
    assert!(matches!(s.handle_key(ch('c'), false, 0, &[]), Command::TabKey(Tab::Songs, _)));
    assert!(matches!(s.handle_key(key(KeyCode::Left), false, 0, &[]), Command::Seek(-5)));
    assert!(matches!(s.handle_key(Key { code: KeyCode::Right, modifiers: MOD_SHIFT }, false, 0, &[]), Command::Seek(30)));
    assert!(matches!(s.handle_key(ch('R'), false, 0, &[]), Command::SetRepeat(RepeatMode::All)));
    assert_eq!(s.repeat, RepeatMode::All);
    assert!(matches!(s.handle_key(Key { code: KeyCode::Char('r'), modifiers: MOD_CONTROL }, false, 0, &[]), Command::ManualRefresh));
    // Help toggles, and twice is back as it was.
    s.handle_key(ch('?'), false, 0, &[]);
    assert!(s.show_help);
    s.handle_key(ch('?'), false, 0, &[]);
    assert!(!s.show_help);
    // Esc closes the overlays one at a time.
    s.show_help = true;
    s.show_tags = true;
    s.handle_key(key(KeyCode::Esc), false, 0, &[]);
    assert!(!s.show_help && s.show_tags);
    s.handle_key(key(KeyCode::Esc), false, 0, &[]);
    assert!(!s.show_tags);
}

#[test]
fn digits_switch_tabs() {
    let mut s = state();
    s.show_tags = true;
    assert!(matches!(s.handle_key(ch('3'), false, 0, &[]), Command::Nothing));
    assert_eq!(s.tab, Tab::Queue);
    assert!(!s.show_tags);
    assert!(matches!(s.handle_key(ch('5'), false, 0, &[]), Command::EnterUploads));
    assert_eq!(s.tab, Tab::Uploads);
    assert!(matches!(s.handle_key(ch('5'), false, 0, &[]), Command::Nothing));
    // While a URL is typed in the uploads tab, digits are text.
    assert!(matches!(s.handle_key(ch('1'), true, 0, &[]), Command::TabKey(Tab::Uploads, _)));
    assert_eq!(s.tab, Tab::Uploads);
}

#[test]
fn songs_tab_keys() {
    let mut s = state();
    assert!(matches!(s.songs_key(ch('j'), Some(1), 0, SortKey::Default), SongsAction::MoveSelection(1)));
    assert!(matches!(s.songs_key(key(KeyCode::PageUp), Some(1), 0, SortKey::Default), SongsAction::MoveSelection(-10)));
    assert!(matches!(s.songs_key(ch('A'), Some(1), 0, SortKey::Default), SongsAction::Message(ref m) if m == "no playlists — create one in the Playlists tab"));
    assert!(matches!(s.songs_key(ch('A'), Some(1), 3, SortKey::Default), SongsAction::PickPlaylistFor(1)));
    assert!(matches!(s.songs_key(ch('t'), None, 0, SortKey::Default), SongsAction::Message(ref m) if m == "no track selected"));
    assert!(matches!(s.songs_key(ch('t'), Some(1), 0, SortKey::Default), SongsAction::RefreshTags));
    assert!(s.show_tags);
    assert!(matches!(s.songs_key(ch('j'), Some(1), 0, SortKey::Default), SongsAction::MoveTagSelection(1)));
    assert!(matches!(s.songs_key(ch('a'), Some(1), 0, SortKey::Default), SongsAction::Nothing));
    assert!(matches!(s.mode, Mode::AddTag(ref b) if b.is_empty()));
    s.mode = Mode::Normal;
    s.songs_key(ch('t'), Some(1), 0, SortKey::Default);
    assert!(!s.show_tags);
    s.songs_key(ch('s'), Some(1), 0, SortKey::Year);
    assert!(matches!(s.mode, Mode::SortPicker { index: 5 }));
    s.mode = Mode::Normal;
    assert!(matches!(s.songs_key(ch('o'), Some(9), 0, SortKey::Default), SongsAction::Download(9)));
    assert!(matches!(s.songs_key(key(KeyCode::Esc), Some(9), 0, SortKey::Default), SongsAction::ClearFilter));
}

#[test]
fn list_tabs_keys() {
    assert_eq!(nav(Some(0), 3, KeyCode::Char('G')), Some(Some(2)));
    assert_eq!(nav(Some(2), 3, KeyCode::Home), Some(Some(0)));
    assert_eq!(nav(Some(2), 3, KeyCode::Enter), None);
    assert_eq!(queue_key(Some(1), 3, KeyCode::Enter), (Some(1), QueueAction::Play(1)));
    assert_eq!(queue_key(Some(1), 3, KeyCode::Char('d')), (Some(1), QueueAction::Remove(1)));
    assert_eq!(queue_key(Some(1), 3, KeyCode::Char('J')), (Some(1), QueueAction::Move { from: 1, to: 3, select: 2 }));
    assert_eq!(queue_key(None, 3, KeyCode::Enter), (None, QueueAction::Nothing));
    assert_eq!(downloads_key(Some(7), 3, KeyCode::Char('r')), (Some(2), DownloadsAction::Retry(2)));
    assert_eq!(downloads_key(None, 3, KeyCode::Delete), (Some(0), DownloadsAction::Remove(0)));
    assert_eq!(downloads_key(Some(1), 0, KeyCode::Enter), (None, DownloadsAction::Nothing));
    assert_eq!(selection_after_removal(2, 2), Some(1));
    assert_eq!(selection_after_removal(0, 0), None);
    assert_eq!(selection_after_removal(0, 3), Some(0));
}

#[test]
fn settings_and_playlists_tab_keys() {
    let mut s = state();
    assert_eq!(s.settings_key(SettingsField::ServerUrl, KeyCode::Down, "u", "n", "t"), (SettingsField::Username, SettingsAction::Nothing));
    assert_eq!(s.settings_key(SettingsField::Library, KeyCode::Enter, "u", "n", "t"), (SettingsField::Library, SettingsAction::PickLibrary));
    assert_eq!(s.settings_key(SettingsField::Token, KeyCode::Char('e'), "u", "n", "tok"), (SettingsField::Token, SettingsAction::Nothing));
    assert!(matches!(s.mode, Mode::EditSetting(SettingsField::Token, ref b) if b == "tok"));
    s.mode = Mode::Normal;
    assert_eq!(s.settings_key(SettingsField::Token, KeyCode::Esc, "u", "n", "t").1, SettingsAction::Revert);
    assert_eq!(s.settings_key(SettingsField::Token, KeyCode::Char('s'), "u", "n", "t").1, SettingsAction::Save);
    let r = s.playlists_key(PlaylistsFocus::List, KeyCode::Tab, 2, None, None, 0);
    assert_eq!(r.0, PlaylistsFocus::Tracks);
    let r = s.playlists_key(PlaylistsFocus::List, KeyCode::Char('G'), 4, None, None, 0);
    assert_eq!(r.2, PlaylistsAction::SelectPlaylist(3));
    s.playlists_key(PlaylistsFocus::List, KeyCode::Char('r'), 4, Some((8, "Old")), None, 0);
    assert!(matches!(s.mode, Mode::RenamePlaylist(8, ref n) if n == "Old"));
    s.mode = Mode::Normal;
    let r = s.playlists_key(PlaylistsFocus::Tracks, KeyCode::Down, 4, None, Some(0), 3);
    assert_eq!((r.1, r.2), (Some(1), PlaylistsAction::Nothing));
    let r = s.playlists_key(PlaylistsFocus::Tracks, KeyCode::Enter, 4, None, Some(2), 3);
    assert_eq!(r.2, PlaylistsAction::PlayFrom(2));
    let r = s.playlists_key(PlaylistsFocus::Tracks, KeyCode::Esc, 4, None, Some(2), 3);
    assert_eq!(r.0, PlaylistsFocus::List);
}

#[test]
fn library_and_playlist_choices() {
    let libs = vec![lib(5, "Main"), lib(9, "Podcasts"), lib(11, "Podcasts")];
    assert_eq!(pick_library(&libs, "Podcasts"), Some(1));
    assert_eq!(pick_library(&libs, "Other"), Some(0));
    assert_eq!(pick_library(&[], "Main"), None);
    assert_eq!(keep_library(&libs, Some(11)), Some(11));
    assert_eq!(keep_library(&libs, Some(3)), Some(5));
    assert_eq!(keep_library(&[], Some(3)), None);
    assert_eq!(library_name(&libs, Some(9)), Some("Podcasts".to_string()));
    assert_eq!(library_name(&libs, Some(1)), None);
    assert_eq!(library_picker_index(&libs, Some(11)), 2);
    assert_eq!(library_picker_index(&libs, None), 0);
    let pls = vec![playlist(1, "a"), playlist(2, "b")];
    assert_eq!(reselect_playlist(&pls, Some(2)), Some(1));
    assert_eq!(reselect_playlist(&pls, Some(7)), Some(0));
    assert_eq!(reselect_playlist(&pls, None), Some(0));
    assert_eq!(reselect_playlist(&[], None), None);
    assert_eq!(credentials("u", "t"), Some("t".to_string()));
    assert_eq!(credentials("", "t"), None);
    assert_eq!(credentials("u", ""), None);
}

#[test]
fn startup_replies() {
    let libs = vec![lib(5, "Main"), lib(9, "Other")];
    let m = StartupSync::Libraries(Ok(libs));
    assert!(matches!(startup_step(&m, None, "Other", false, false, None), SyncStep::Libraries { open: Some(1) }));
    assert!(matches!(startup_step(&m, Some(5), "Other", false, false, None), SyncStep::Libraries { open: None }));
    let e = StartupSync::Libraries(Err("down".to_string()));
    assert!(matches!(startup_step(&e, None, "", false, false, None), SyncStep::Message(ref s) if s == "offline — no cached libraries (down)"));
    assert!(matches!(startup_step(&e, None, "", true, false, None), SyncStep::Ignore));
    let t = StartupSync::Tracks { library_id: 5, result: Ok(vec![track(1, "a", "b")]) };
    assert!(matches!(startup_step(&t, Some(5), "", true, false, None), SyncStep::Tracks { ref message } if message == "1 tracks"));
    assert!(matches!(startup_step(&t, Some(6), "", true, false, None), SyncStep::Ignore));
    let te = StartupSync::Tracks { library_id: 5, result: Err("x".to_string()) };
    assert!(matches!(startup_step(&te, Some(5), "", true, false, None), SyncStep::Message(ref s) if s == "offline — x"));
    assert!(matches!(startup_step(&te, Some(5), "", true, true, None), SyncStep::Ignore));
    let p = StartupSync::Playlists { library_id: 5, result: Ok(vec![]) };
    assert!(matches!(startup_step(&p, Some(5), "", true, true, None), SyncStep::Playlists));
    let pt = StartupSync::PlaylistTracks { library_id: 5, playlist_id: 3, result: Ok(vec![]) };
    assert!(matches!(startup_step(&pt, Some(5), "", true, true, Some(3)), SyncStep::PlaylistTracks));
    assert!(matches!(startup_step(&pt, Some(5), "", true, true, Some(4)), SyncStep::Ignore));
}

#[test]
fn help_overlay_lines() {
    let v = help_lines(Tab::Queue, false, false, PlaylistsFocus::List, UploadPane::List);
    assert!(matches!(v[0], HelpLine::Header("Global")));
    assert!(matches!(v[1], HelpLine::Item("q / Ctrl+C", "quit")));
    assert!(matches!(v[10], HelpLine::Blank));
    assert!(matches!(v[11], HelpLine::Header("Queue")));
    assert_eq!(v.len(), 17);
    let v = help_lines(Tab::Songs, true, false, PlaylistsFocus::List, UploadPane::List);
    assert!(matches!(v[11], HelpLine::Header("Songs — tags popup")));
    let v = help_lines(Tab::Uploads, false, false, PlaylistsFocus::List, UploadPane::Job);
    assert!(matches!(v[12], HelpLine::Item("Esc", "dismiss (keeps running in background)")));
}

#[test]
fn details_rows() {
    let mut t = track(42, "Band", "Song");
    t.original_filename = Some("dir/song.flac".to_string());
    t.track_no = Some(3);
    t.disc_no = Some(1);
    t.bitrate = Some(320_500);
    t.year = Some(1999);
    t.added_at = 951_782_400;
    let rows = detail_rows(&t, Some("3:05".to_string()), None);
    let got: Vec<(&str, &str)> = rows.iter().map(|r| (r.label, r.value.as_str())).collect();
    assert_eq!(
        got,
        vec![
            ("Title", "Song"),
            ("Artist", "Band"),
            ("Album artist", "—"),
            ("Album", "—"),
            ("Year", "1999"),
            ("Track", "1.3"),
            ("Duration", "3:05"),
            ("Format", "FLAC"),
            ("Bitrate", "320 kbps"),
            ("Sample rate", "—"),
            ("Channels", "—"),
            ("Added", "2000-02-29 00:00"),
            ("Track ID", "42"),
            ("File", "dir/song.flac"),
        ]
    );
    t.disc_no = None;
    t.bitrate = Some(-1500);
    t.original_filename = Some(".hidden".to_string());
    let rows = detail_rows(&t, None, None);
    assert_eq!(rows[5].value, "3");
    assert_eq!(rows[7].value, "—");
    assert_eq!(rows[8].value, "-1 kbps");
    t.track_no = None;
    t.disc_no = Some(2);
    assert_eq!(detail_rows(&t, None, None)[5].value, "disc 2");
}

#[test]
fn downloads_tab_text() {
    let tracks = vec![track(1, "A", "B")];
    assert_eq!(download_label(&tracks, 1), "A — B");
    assert_eq!(download_label(&tracks, 2), "track #2");
    let st = |status, bytes, total| DownloadState { status, bytes, total, local_path: None, error: None };
    assert_eq!(download_status_text(&st(DownloadStatus::Queued, 0, 0), None), "queued");
    assert_eq!(download_status_text(&st(DownloadStatus::Downloading, 30, 120), None), "downloading 25%");
    assert_eq!(download_status_text(&st(DownloadStatus::Downloading, 30, 0), None), "downloading");
    assert_eq!(download_status_text(&st(DownloadStatus::Downloaded, 0, 0), Some(1_048_576)), "downloaded (1.0 MB)");
    assert_eq!(download_status_text(&st(DownloadStatus::Downloaded, 0, 0), None), "downloaded");
    assert_eq!(download_status_text(&st(DownloadStatus::Failed, 0, 0), None), "failed");
    assert_eq!(downloads_title(3, 0, 0, 0), " Downloads (3) ");
    assert_eq!(downloads_title(3, 2, 2_097_152, 0), " Downloads (3) — 2 downloaded (2.0 MB) ");
    assert_eq!(downloads_title(3, 0, 0, 2), " Downloads (3)  [2 selected] ");
}

#[test]
fn prompt_and_labels() {
    let text = |m: &Mode, u: Option<(&str, &str)>| -> Vec<(Tone, String)> {
        prompt_line(m, u).into_iter().map(|p| (p.tone, p.text)).collect()
    };
    assert_eq!(text(&Mode::Filter("ab".to_string()), None), vec![(Tone::Bold, "/".to_string()), (Tone::Plain, "ab".to_string()), (Tone::Plain, "_".to_string())]);
    assert_eq!(
        text(&Mode::EditSetting(SettingsField::ServerUrl, String::new()), None),
        vec![(Tone::Yellow, "editing Server URL: ".to_string()), (Tone::Dim, "⏎ commit  Esc cancel".to_string())]
    );
    assert_eq!(text(&Mode::Normal, Some(("yt", "u"))), vec![(Tone::Green, "run yt: ".to_string()), (Tone::Plain, "u".to_string()), (Tone::Plain, "_".to_string())]);
    assert_eq!(text(&Mode::Normal, None), vec![(Tone::Plain, String::new())]);
    let tracks = vec![track(3, "A", "B")];
    assert_eq!(now_playing_label("http://h/api/libraries/1/tracks/3/stream", &tracks), "A — B");
    assert_eq!(now_playing_label("http://h/api/libraries/1/tracks/4/stream", &tracks), "http://h/api/libraries/1/tracks/4/stream");
    assert_eq!(setting_text(SettingsField::Library, &Mode::Normal, "u", "n", "t", None), "(none)");
    assert_eq!(setting_text(SettingsField::Username, &Mode::EditSetting(SettingsField::Username, "ne".to_string()), "u", "n", "t", None), "ne_");
    assert_eq!(setting_text(SettingsField::Token, &Mode::EditSetting(SettingsField::Username, "ne".to_string()), "u", "n", "t", None), "t");
    assert_eq!(tracks_title("", 3, 0), " Tracks ");
    assert_eq!(tracks_title("Mix", 3, 0), " Mix (3) ");
    assert_eq!(tracks_title("Mix", 3, 1), " Mix (3)  [1 selected] ");
    assert_eq!(picker_row(&playlist(1, "Mix"), true, true), "> ✓ Mix  (2)");
    assert_eq!(picker_row(&playlist(1, "Mix"), false, false), "    Mix  (2)");
}

#[test]
fn picker_rows_and_tags_title() {
    let l = Library { id: 1, name: "Main".to_string(), path: "/music".to_string() };
    assert_eq!(library_row(&l, true, true), "> Main *  /music");
    assert_eq!(library_row(&l, false, false), "  Main  /music");
    assert_eq!(sort_row(SortKey::Title, false, true), "  Title (A→Z) *");
    assert_eq!(sort_row(SortKey::Album, true, false), "> Album (A→Z)");
    let t = track(1, "A", "B");
    assert_eq!(tags_title(Some(&t), 2), " Tags — A — B (2) ");
    assert_eq!(tags_title(None, 0), " Tags — no track (0) ");
}

#[test]
fn overlays_are_centred() {
    use_layout();
}

fn use_layout() {
    let full = Area { x: 0, y: 0, width: 100, height: 40 };
    let c = centered_rect(50, 50, full);
    assert_eq!(c, Area { x: 25, y: 10, width: 50, height: 20 });
    let r = ratatui::layout::Rect::new(3, 2, 81, 27);
    let rows = ratatui::layout::Layout::default()
        .direction(ratatui::layout::Direction::Vertical)
        .constraints([
            ratatui::layout::Constraint::Percentage(15),
            ratatui::layout::Constraint::Percentage(70),
            ratatui::layout::Constraint::Percentage(15),
        ])
        .split(r);
    let cols = ratatui::layout::Layout::default()
        .direction(ratatui::layout::Direction::Horizontal)
        .constraints([
            ratatui::layout::Constraint::Percentage(20),
            ratatui::layout::Constraint::Percentage(60),
            ratatui::layout::Constraint::Percentage(20),
        ])
        .split(rows[1]);
    let got = centered_rect(60, 70, Area { x: 3, y: 2, width: 81, height: 27 });
    assert_eq!((got.x, got.y, got.width, got.height), (cols[1].x, cols[1].y, cols[1].width, cols[1].height));
}
